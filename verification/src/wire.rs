//! A header profile as the HTTP library's own header map, ready to be handed
//! to a request.

use vstd::prelude::*;
use vstd::string::*;
use crate::profile::{
    accepts_header_value, header_name_char_ok, header_name_ok, header_value_ok,
    lemma_profile_sendable, profile_of, rejected, HeaderProfile,
};

verus! {

/// The HTTP library's header map.
#[verifier::external_type_specification]
#[verifier::external_body]
#[verifier::reject_recursive_types(T)]
pub struct ExHeaderMap<T>(reqwest::header::HeaderMap<T>);

/// The HTTP library's header value.
#[verifier::external_type_specification]
#[verifier::external_body]
pub struct ExHeaderValue(reqwest::header::HeaderValue);

/// What a header map holds: for each name in it, the text of its value.
pub uninterp spec fn header_map_contents(
    m: reqwest::header::HeaderMap<reqwest::header::HeaderValue>,
) -> Map<Seq<char>, Seq<char>>;

/// The most headers that a profile may hold to be turned into a header map.
pub const MAX_HEADERS: usize = 4096;

/// Whether every entry of a header list has a header name and a header
/// value.
pub open spec fn entries_ok(headers: Seq<(Seq<char>, Seq<char>)>) -> bool {
    forall|i: int|
        0 <= i < headers.len() ==> header_name_ok((#[trigger] headers[i]).0) && header_value_ok(
            headers[i].1,
        )
}

/// The mapping that a header list amounts to when its entries are taken in
/// order and a later entry replaces an earlier one of the same name.
pub open spec fn map_of(headers: Seq<(Seq<char>, Seq<char>)>) -> Map<Seq<char>, Seq<char>>
    decreases headers.len(),
{
    if headers.len() == 0 {
        Map::empty()
    } else {
        map_of(headers.drop_last()).insert(headers.last().0, headers.last().1)
    }
}

/// The mapping of a header list holds the names of the list and no others,
/// and no more names than the list has entries.
pub proof fn lemma_map_of_names(headers: Seq<(Seq<char>, Seq<char>)>)
    ensures
        map_of(headers).dom().finite(),
        map_of(headers).dom().len() <= headers.len(),
        forall|name: Seq<char>| #[trigger]
            map_of(headers).dom().contains(name) <==> exists|i: int|
                0 <= i < headers.len() && (#[trigger] headers[i]).0 == name,
    decreases headers.len(),
{
    if headers.len() > 0 {
        let front = headers.drop_last();
        lemma_map_of_names(front);
        assert forall|name: Seq<char>| #[trigger]
            map_of(headers).dom().contains(name) implies exists|i: int|
            0 <= i < headers.len() && (#[trigger] headers[i]).0 == name by {
            if name == headers.last().0 {
                assert(headers[headers.len() - 1].0 == name);
            } else {
                assert(map_of(front).dom().contains(name));
                let i = choose|i: int| 0 <= i < front.len() && (#[trigger] front[i]).0 == name;
                assert(headers[i].0 == name);
            }
        }
        assert forall|name: Seq<char>|
            (exists|i: int|
                0 <= i < headers.len() && (#[trigger] headers[i]).0 == name) implies #[trigger]
            map_of(headers).dom().contains(name) by {
            let i = choose|i: int| 0 <= i < headers.len() && (#[trigger] headers[i]).0 == name;
            if i < front.len() {
                assert(front[i].0 == name);
            }
        }
    }
}

/// Where no name occurs twice, the mapping gives each name the value that
/// stands beside it in the list.
pub proof fn lemma_map_of_values(headers: Seq<(Seq<char>, Seq<char>)>, i: int)
    requires
        0 <= i < headers.len(),
        forall|a: int, b: int|
            0 <= a < b < headers.len() ==> (#[trigger] headers[a]).0 != (#[trigger] headers[b]).0,
    ensures
        map_of(headers).dom().contains(headers[i].0),
        map_of(headers)[headers[i].0] == headers[i].1,
    decreases headers.len(),
{
    let front = headers.drop_last();
    if i < headers.len() - 1 {
        assert(front[i] == headers[i]);
        assert forall|a: int, b: int| 0 <= a < b < front.len() implies (#[trigger] front[a]).0 != (
        #[trigger] front[b]).0 by {
            assert(front[a] == headers[a] && front[b] == headers[b]);
        }
        lemma_map_of_values(front, i);
        assert(headers[i].0 != headers[headers.len() - 1].0);
    }
}

/// Calls `HeaderMap::new`, which gives a map that holds nothing.
#[verifier::external_body]
fn empty_header_map() -> (m: reqwest::header::HeaderMap<reqwest::header::HeaderValue>)
    ensures
        header_map_contents(m) == map_of(Seq::empty()),
{
    reqwest::header::HeaderMap::new()
}

/// Calls `HeaderMap::insert` with the name and the value in the HTTP
/// library's types. After it the map holds the value under the name, in
/// place of any value that stood there, and every other name as before.
///
/// `HeaderName::from_bytes` takes a name of one to sixty-four lower-case
/// letters, digits and hyphens as it is written, and `HeaderValue::from_str`
/// takes every text that is a header value. `insert` fails only when the
/// table behind the map would have to grow beyond 32768 slots, which takes
/// thousands of names more than the bound asked for here.
#[verifier::external_body]
fn insert_header(
    map: &mut reqwest::header::HeaderMap<reqwest::header::HeaderValue>,
    name: &str,
    value: &str,
)
    requires
        header_name_ok(name@),
        header_value_ok(value@),
        header_map_contents(*old(map)).dom().finite(),
        header_map_contents(*old(map)).dom().len() < MAX_HEADERS,
    ensures
        header_map_contents(*final(map)) == header_map_contents(*old(map)).insert(name@, value@),
{
    let name = reqwest::header::HeaderName::from_bytes(name.as_bytes()).unwrap();
    let value = reqwest::header::HeaderValue::from_str(value).unwrap();
    map.insert(name, value);
}

/// Whether a text is the name of a header in a profile.
pub fn is_header_name(name: &str) -> (ok: bool)
    ensures
        ok == header_name_ok(name@),
{
    let n: usize = name.unicode_len();
    if n == 0 || n > 64 {
        return false;
    }
    let mut i: usize = 0;
    while i < n
        invariant
            i <= n,
            n == name@.len(),
            forall|k: int| 0 <= k < i ==> header_name_char_ok(#[trigger] name@[k]),
        decreases n - i,
    {
        let c: u32 = name.get_char(i) as u32;
        let ok = (97 <= c && c <= 122) || (48 <= c && c <= 57) || c == 45;
        if !ok {
            assert(!header_name_char_ok(name@[i as int]));
            return false;
        }
        i = i + 1;
    }
    true
}

/// Fills a header map with the entries of a profile, in order.
///
/// The map is made exactly when every entry has a header name and a header
/// value and the profile is not longer than `MAX_HEADERS`; it then holds the
/// mapping that the profile amounts to.
pub fn to_header_map(profile: &HeaderProfile) -> (r: Option<
    reqwest::header::HeaderMap<reqwest::header::HeaderValue>,
>)
    ensures
        r is Some <==> entries_ok(profile@) && profile@.len() <= MAX_HEADERS,
        r is Some ==> header_map_contents(r->Some_0) == map_of(profile@),
{
    let n: usize = profile.entries.len();
    if n > MAX_HEADERS {
        return None;
    }
    let mut map = empty_header_map();
    let mut i: usize = 0;
    assert(profile@.take(0) =~= Seq::empty());
    while i < n
        invariant
            i <= n,
            n == profile.entries@.len(),
            n == profile@.len(),
            n <= MAX_HEADERS,
            entries_ok(profile@.take(i as int)),
            header_map_contents(map) == map_of(profile@.take(i as int)),
        decreases n - i,
    {
        let entry = &profile.entries[i];
        assert(profile@[i as int] == (entry.name@, entry.value@));
        if !is_header_name(entry.name.as_str()) || !accepts_header_value(entry.value.as_str()) {
            return None;
        }
        proof {
            lemma_map_of_names(profile@.take(i as int));
            assert(profile@.take(i + 1).drop_last() =~= profile@.take(i as int));
            assert(profile@.take(i + 1).last() == profile@[i as int]);
        }
        insert_header(&mut map, entry.name.as_str(), entry.value.as_str());
        proof {
            assert forall|k: int| 0 <= k < i + 1 implies header_name_ok(
                (#[trigger] profile@.take(i + 1)[k]).0,
            ) && header_value_ok(profile@.take(i + 1)[k].1) by {
                if k < i {
                    assert(profile@.take(i as int)[k] == profile@.take(i + 1)[k]);
                }
            }
        }
        i = i + 1;
    }
    assert(profile@.take(n as int) =~= profile@);
    Some(map)
}

/// The header list of a session that passed validation always has a header
/// map, and that map gives each of its names the value that the list gives
/// it.
pub proof fn lemma_profile_has_map(user_id: Seq<char>, cookie: Seq<char>, base_url: Seq<char>)
    requires
        rejected(user_id, cookie, base_url) is None,
    ensures
        entries_ok(profile_of(user_id, cookie, base_url)),
        profile_of(user_id, cookie, base_url).len() <= MAX_HEADERS,
        forall|i: int|
            0 <= i < profile_of(user_id, cookie, base_url).len() ==> map_of(
                profile_of(user_id, cookie, base_url),
            )[(#[trigger] profile_of(user_id, cookie, base_url)[i]).0] == profile_of(
                user_id,
                cookie,
                base_url,
            )[i].1,
{
    let p = profile_of(user_id, cookie, base_url);
    lemma_profile_sendable(user_id, cookie, base_url);
    assert forall|i: int| 0 <= i < p.len() implies map_of(p)[(#[trigger] p[i]).0] == p[i].1 by {
        lemma_map_of_values(p, i);
    }
}

} // verus!
