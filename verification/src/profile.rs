//! The header profile: the ordered set of headers that makes a request look
//! like one sent by the gateway's own web console.

use vstd::prelude::*;
use vstd::string::*;
use crate::text::{trimmed, trim_trailing_slashes};

verus! {

/// Host name that the gateway's console sends as `authority`.
pub const AUTHORITY: &'static str = "api.husanai.com";

/// Media types the console accepts.
pub const ACCEPT: &'static str = "application/json, text/plain, */*";

/// Language preference of the emulated browser.
pub const ACCEPT_LANGUAGE: &'static str = "zh-CN,zh;q=0.9,en-US;q=0.8,en;q=0.7";

/// Caching directive of console requests.
pub const CACHE_CONTROL: &'static str = "no-store";

/// Do-not-track flag.
pub const DNT: &'static str = "1";

/// Request priority hint.
pub const PRIORITY: &'static str = "u=1, i";

/// Client hint: browser brands.
pub const SEC_CH_UA: &'static str =
    "\"Google Chrome\";v=\"143\", \"Chromium\";v=\"143\", \"Not A(Brand\";v=\"24\"";

/// Client hint: not a mobile device.
pub const SEC_CH_UA_MOBILE: &'static str = "?0";

/// Client hint: platform.
pub const SEC_CH_UA_PLATFORM: &'static str = "\"Windows\"";

/// Fetch metadata: destination.
pub const SEC_FETCH_DEST: &'static str = "empty";

/// Fetch metadata: mode.
pub const SEC_FETCH_MODE: &'static str = "cors";

/// Fetch metadata: site.
pub const SEC_FETCH_SITE: &'static str = "same-origin";

/// User agent of the emulated browser.
pub const USER_AGENT: &'static str =
    "Mozilla/5.0 (Windows NT 10.0; Win64; x64) AppleWebKit/537.36 (KHTML, like Gecko) Chrome/143.0.0.0 Safari/537.36";

/// Path of the console page, appended to the trimmed base URL for `referer`.
pub const CONSOLE_PATH: &'static str = "/console";

/// One header: its name and its value.
#[derive(Debug)]
pub struct Header {
    pub name: String,
    pub value: String,
}

/// An ordered list of headers.
#[derive(Debug)]
pub struct HeaderProfile {
    pub entries: Vec<Header>,
}

impl View for HeaderProfile {
    type V = Seq<(Seq<char>, Seq<char>)>;

    open spec fn view(&self) -> Seq<(Seq<char>, Seq<char>)> {
        Seq::new(self.entries@.len(), |i: int| (self.entries@[i].name@, self.entries@[i].value@))
    }
}

/// The caller-supplied field that failed validation.
#[derive(Debug, Clone, Copy, PartialEq, Eq, Structural)]
pub enum InvalidField {
    UserId,
    Url,
    Cookie,
}

/// Whether a character may stand in a header value: a tab, or anything that
/// is neither a control character nor DEL.
pub open spec fn header_char_ok(c: char) -> bool {
    c == '\t' || (c as u32 >= 32 && c as u32 != 127)
}

/// Whether a text may be sent as a header value.
pub open spec fn header_value_ok(s: Seq<char>) -> bool {
    forall|i: int| 0 <= i < s.len() ==> header_char_ok(#[trigger] s[i])
}

/// Whether a character may stand in a header name of a profile: a lower-case
/// letter, a digit or a hyphen.
pub open spec fn header_name_char_ok(c: char) -> bool {
    (97 <= c as u32 <= 122) || (48 <= c as u32 <= 57) || c as u32 == 45
}

/// Whether a text may be the name of a header in a profile: one to
/// sixty-four such characters.
pub open spec fn header_name_ok(s: Seq<char>) -> bool {
    &&& 0 < s.len() <= 64
    &&& forall|i: int| 0 <= i < s.len() ==> header_name_char_ok(#[trigger] s[i])
}

/// Whether a header list can be sent as it stands: every name is a header
/// name, no name occurs twice, and every value is a header value.
pub open spec fn sendable(headers: Seq<(Seq<char>, Seq<char>)>) -> bool {
    &&& forall|i: int| 0 <= i < headers.len() ==> header_name_ok(#[trigger] headers[i].0)
    &&& forall|i: int| 0 <= i < headers.len() ==> header_value_ok(#[trigger] headers[i].1)
    &&& forall|i: int, j: int|
        0 <= i < j < headers.len() ==> #[trigger] headers[i].0 != #[trigger] headers[j].0
}

/// Whether the URL parser accepts a text as an absolute URL.
pub uninterp spec fn url_accepted(s: Seq<char>) -> bool;

/// The `referer` value for a base URL.
pub open spec fn referer_of(base_url: Seq<char>) -> Seq<char> {
    trimmed(base_url) + CONSOLE_PATH@
}

/// The first field that fails validation, if any. The user id is looked at
/// first, then the referer, then the cookie.
pub open spec fn first_invalid(
    user_id_ok: bool,
    referer_ok: bool,
    cookie_ok: bool,
) -> Option<InvalidField> {
    if !user_id_ok {
        Some(InvalidField::UserId)
    } else if !referer_ok {
        Some(InvalidField::Url)
    } else if !cookie_ok {
        Some(InvalidField::Cookie)
    } else {
        None
    }
}

/// The validation verdict on the three caller-supplied texts.
pub open spec fn rejected(user_id: Seq<char>, cookie: Seq<char>, base_url: Seq<char>) -> Option<
    InvalidField,
> {
    first_invalid(
        header_value_ok(user_id),
        header_value_ok(referer_of(base_url)) && url_accepted(referer_of(base_url)),
        header_value_ok(cookie),
    )
}

/// The header list for a session, in sending order.
pub open spec fn profile_of(user_id: Seq<char>, cookie: Seq<char>, base_url: Seq<char>) -> Seq<
    (Seq<char>, Seq<char>),
> {
    seq![
        ("authority"@, AUTHORITY@),
        ("accept"@, ACCEPT@),
        ("accept-language"@, ACCEPT_LANGUAGE@),
        ("cache-control"@, CACHE_CONTROL@),
        ("dnt"@, DNT@),
        ("new-api-user"@, user_id),
        ("priority"@, PRIORITY@),
        ("referer"@, referer_of(base_url)),
        ("sec-ch-ua"@, SEC_CH_UA@),
        ("sec-ch-ua-mobile"@, SEC_CH_UA_MOBILE@),
        ("sec-ch-ua-platform"@, SEC_CH_UA_PLATFORM@),
        ("sec-fetch-dest"@, SEC_FETCH_DEST@),
        ("sec-fetch-mode"@, SEC_FETCH_MODE@),
        ("sec-fetch-site"@, SEC_FETCH_SITE@),
        ("user-agent"@, USER_AGENT@),
        ("cookie"@, cookie),
    ]
}

/// The same session always gives the same verdict and the same header list.
pub proof fn lemma_profile_deterministic(
    user_id: Seq<char>,
    cookie: Seq<char>,
    base_url: Seq<char>,
    user_id2: Seq<char>,
    cookie2: Seq<char>,
    base_url2: Seq<char>,
)
    requires
        user_id == user_id2,
        cookie == cookie2,
        base_url == base_url2,
    ensures
        rejected(user_id, cookie, base_url) == rejected(user_id2, cookie2, base_url2),
        profile_of(user_id, cookie, base_url) == profile_of(user_id2, cookie2, base_url2),
{
}

/// The header list has its sixteen entries whatever the session holds, with
/// the user id, the referer and the cookie at their fixed places.
pub proof fn lemma_profile_layout(user_id: Seq<char>, cookie: Seq<char>, base_url: Seq<char>)
    ensures
        profile_of(user_id, cookie, base_url).len() == 16,
        profile_of(user_id, cookie, base_url)[5] == ("new-api-user"@, user_id),
        profile_of(user_id, cookie, base_url)[7] == ("referer"@, referer_of(base_url)),
        profile_of(user_id, cookie, base_url)[15] == ("cookie"@, cookie),
{
}

/// Every fixed value of the profile is a header value.
proof fn lemma_fixed_values_ok()
    ensures
        header_value_ok(AUTHORITY@),
        header_value_ok(ACCEPT@),
        header_value_ok(ACCEPT_LANGUAGE@),
        header_value_ok(CACHE_CONTROL@),
        header_value_ok(DNT@),
        header_value_ok(PRIORITY@),
        header_value_ok(SEC_CH_UA@),
        header_value_ok(SEC_CH_UA_MOBILE@),
        header_value_ok(SEC_CH_UA_PLATFORM@),
        header_value_ok(SEC_FETCH_DEST@),
        header_value_ok(SEC_FETCH_MODE@),
        header_value_ok(SEC_FETCH_SITE@),
        header_value_ok(USER_AGENT@),
{
    reveal_strlit("api.husanai.com");
    reveal_strlit("application/json, text/plain, */*");
    reveal_strlit("zh-CN,zh;q=0.9,en-US;q=0.8,en;q=0.7");
    reveal_strlit("no-store");
    reveal_strlit("1");
    reveal_strlit("u=1, i");
    reveal_strlit("\"Google Chrome\";v=\"143\", \"Chromium\";v=\"143\", \"Not A(Brand\";v=\"24\"");
    reveal_strlit("?0");
    reveal_strlit("\"Windows\"");
    reveal_strlit("empty");
    reveal_strlit("cors");
    reveal_strlit("same-origin");
    reveal_strlit(
        "Mozilla/5.0 (Windows NT 10.0; Win64; x64) AppleWebKit/537.36 (KHTML, like Gecko) Chrome/143.0.0.0 Safari/537.36",
    );
}

/// Every name of the profile is a header name.
proof fn lemma_names_ok()
    ensures
        header_name_ok("authority"@),
        header_name_ok("accept"@),
        header_name_ok("accept-language"@),
        header_name_ok("cache-control"@),
        header_name_ok("dnt"@),
        header_name_ok("new-api-user"@),
        header_name_ok("priority"@),
        header_name_ok("referer"@),
        header_name_ok("sec-ch-ua"@),
        header_name_ok("sec-ch-ua-mobile"@),
        header_name_ok("sec-ch-ua-platform"@),
        header_name_ok("sec-fetch-dest"@),
        header_name_ok("sec-fetch-mode"@),
        header_name_ok("sec-fetch-site"@),
        header_name_ok("user-agent"@),
        header_name_ok("cookie"@),
{
    reveal_strlit("authority");
    reveal_strlit("accept");
    reveal_strlit("accept-language");
    reveal_strlit("cache-control");
    reveal_strlit("dnt");
    reveal_strlit("new-api-user");
    reveal_strlit("priority");
    reveal_strlit("referer");
    reveal_strlit("sec-ch-ua");
    reveal_strlit("sec-ch-ua-mobile");
    reveal_strlit("sec-ch-ua-platform");
    reveal_strlit("sec-fetch-dest");
    reveal_strlit("sec-fetch-mode");
    reveal_strlit("sec-fetch-site");
    reveal_strlit("user-agent");
    reveal_strlit("cookie");
}

/// The header list of a session that passed validation can be sent as it
/// stands.
pub proof fn lemma_profile_sendable(user_id: Seq<char>, cookie: Seq<char>, base_url: Seq<char>)
    requires
        rejected(user_id, cookie, base_url) is None,
    ensures
        sendable(profile_of(user_id, cookie, base_url)),
{
    let p = profile_of(user_id, cookie, base_url);
    lemma_fixed_values_ok();
    lemma_names_ok();
    lemma_names_distinct(user_id, cookie, base_url);
    assert forall|i: int| 0 <= i < p.len() implies header_name_ok(#[trigger] p[i].0) by {}
    assert forall|i: int| 0 <= i < p.len() implies header_value_ok(#[trigger] p[i].1) by {}
    assert forall|i: int, j: int| 0 <= i < j < p.len() implies #[trigger] p[i].0
        != #[trigger] p[j].0 by {}
}

/// The length of the name at each place of the profile.
spec fn name_len(i: int) -> nat {
    if i == 0 {
        9
    } else if i == 1 {
        6
    } else if i == 2 {
        15
    } else if i == 3 {
        13
    } else if i == 4 {
        3
    } else if i == 5 {
        12
    } else if i == 6 {
        8
    } else if i == 7 {
        7
    } else if i == 8 {
        9
    } else if i == 9 {
        16
    } else if i == 10 {
        18
    } else if i == 11 {
        14
    } else if i == 12 {
        14
    } else if i == 13 {
        14
    } else if i == 14 {
        10
    } else {
        6
    }
}

/// No two names of the profile are the same: most differ in length, the
/// others in their first letter or in the letter after `sec-fetch-`.
proof fn lemma_names_distinct(user_id: Seq<char>, cookie: Seq<char>, base_url: Seq<char>)
    ensures
        forall|i: int, j: int|
            0 <= i < j < 16 ==> #[trigger] profile_of(user_id, cookie, base_url)[i].0
                != #[trigger] profile_of(user_id, cookie, base_url)[j].0,
{
    reveal_strlit("authority");
    reveal_strlit("accept");
    reveal_strlit("accept-language");
    reveal_strlit("cache-control");
    reveal_strlit("dnt");
    reveal_strlit("new-api-user");
    reveal_strlit("priority");
    reveal_strlit("referer");
    reveal_strlit("sec-ch-ua");
    reveal_strlit("sec-ch-ua-mobile");
    reveal_strlit("sec-ch-ua-platform");
    reveal_strlit("sec-fetch-dest");
    reveal_strlit("sec-fetch-mode");
    reveal_strlit("sec-fetch-site");
    reveal_strlit("user-agent");
    reveal_strlit("cookie");
    let p = profile_of(user_id, cookie, base_url);
    assert forall|k: int| 0 <= k < 16 implies (#[trigger] p[k].0).len() == name_len(k) by {}
    assert(p[0].0[0] == 'a' && p[8].0[0] == 's');
    assert(p[1].0[0] == 'a' && p[15].0[0] == 'c');
    assert(p[11].0[10] == 'd' && p[12].0[10] == 'm' && p[13].0[10] == 's');
    assert forall|i: int, j: int| 0 <= i < j < 16 implies #[trigger] p[i].0
        != #[trigger] p[j].0 by {
        assert(p[i].0.len() == name_len(i));
        assert(p[j].0.len() == name_len(j));
        if name_len(i) == name_len(j) {
            if i == 0 {
                assert(j == 8);
            } else if i == 1 {
                assert(j == 15);
            } else if i == 11 {
                assert(j == 12 || j == 13);
            } else {
                assert(i == 12 && j == 13);
            }
        }
    }
}

/// A text with a character that no header value may hold is not a header
/// value.
pub proof fn lemma_bad_char_rejected(s: Seq<char>, i: int)
    requires
        0 <= i < s.len(),
        !header_char_ok(s[i]),
    ensures
        !header_value_ok(s),
{
}

/// A user id or cookie with a forbidden character fails validation, whatever
/// the other fields hold.
pub proof fn lemma_bad_field_rejected(user_id: Seq<char>, cookie: Seq<char>, base_url: Seq<char>)
    requires
        !header_value_ok(user_id) || !header_value_ok(cookie),
    ensures
        rejected(user_id, cookie, base_url) is Some,
{
}

/// Base URLs that differ only in slashes at the end give the same `referer`.
pub proof fn lemma_referer_ignores_slash(base_url: Seq<char>)
    ensures
        referer_of(base_url.push('/')) == referer_of(base_url),
        referer_of(trimmed(base_url)) == referer_of(base_url),
{
    crate::text::lemma_trimmed_ignores_slash(base_url);
    crate::text::lemma_trimmed_idempotent(base_url);
}

/// Calls `HeaderValue::from_str` of the HTTP library and reports whether it
/// accepted the text. That function scans the bytes of the text and refuses
/// it exactly when one of them is below 32 and not a tab, or is 127. Every
/// byte of a multi-byte character is above 127, so the verdict is the same
/// statement over characters.
#[verifier::external_body]
pub(crate) fn accepts_header_value(s: &str) -> (ok: bool)
    ensures
        ok == header_value_ok(s@),
{
    reqwest::header::HeaderValue::from_str(s).is_ok()
}

/// Calls `Url::parse` and reports whether it produced a URL. The verdict
/// depends on the text alone; nothing more is claimed of it.
#[verifier::external_body]
fn parses_as_url(s: &str) -> (ok: bool)
    ensures
        ok == url_accepted(s@),
{
    reqwest::Url::parse(s).is_ok()
}

/// Picks the first failing field from the three verdicts.
pub fn check_fields(user_id_ok: bool, referer_ok: bool, cookie_ok: bool) -> (r: Option<
    InvalidField,
>)
    ensures
        r == first_invalid(user_id_ok, referer_ok, cookie_ok),
{
    if !user_id_ok {
        Some(InvalidField::UserId)
    } else if !referer_ok {
        Some(InvalidField::Url)
    } else if !cookie_ok {
        Some(InvalidField::Cookie)
    } else {
        None
    }
}

impl InvalidField {
    /// The message shown to the caller; it names the offending field.
    pub fn message(&self) -> (r: String)
        ensures
            r@ == match *self {
                InvalidField::UserId => "Invalid User ID"@,
                InvalidField::Url => "Invalid URL"@,
                InvalidField::Cookie => "Invalid Cookie"@,
            },
    {
        match self {
            InvalidField::UserId => String::from_str("Invalid User ID"),
            InvalidField::Url => String::from_str("Invalid URL"),
            InvalidField::Cookie => String::from_str("Invalid Cookie"),
        }
    }
}

/// Builds one header from two texts.
fn header(name: &str, value: &str) -> (h: Header)
    ensures
        h.name@ == name@,
        h.value@ == value@,
{
    Header { name: String::from_str(name), value: String::from_str(value) }
}

/// Validates the three fields of a session and builds its header profile.
///
/// Fails with the first field found invalid: the user id or the cookie when
/// it cannot be sent as a header value, the URL when the referer derived from
/// it cannot be sent as a header value or does not parse as an absolute URL.
pub fn get_headers(user_id: &str, cookie: &str, base_url: &str) -> (r: Result<
    HeaderProfile,
    InvalidField,
>)
    ensures
        match r {
            Ok(p) => {
                &&& rejected(user_id@, cookie@, base_url@) is None
                &&& p@ == profile_of(user_id@, cookie@, base_url@)
                &&& sendable(p@)
            },
            Err(e) => rejected(user_id@, cookie@, base_url@) == Some(e),
        },
{
    let mut referer = String::from_str(trim_trailing_slashes(base_url));
    referer.append(CONSOLE_PATH);
    let user_id_ok = accepts_header_value(user_id);
    let referer_ok = accepts_header_value(referer.as_str()) && parses_as_url(referer.as_str());
    let cookie_ok = accepts_header_value(cookie);
    match check_fields(user_id_ok, referer_ok, cookie_ok) {
        Some(e) => Err(e),
        None => {
            let mut entries: Vec<Header> = Vec::new();
            entries.push(header("authority", AUTHORITY));
            entries.push(header("accept", ACCEPT));
            entries.push(header("accept-language", ACCEPT_LANGUAGE));
            entries.push(header("cache-control", CACHE_CONTROL));
            entries.push(header("dnt", DNT));
            entries.push(header("new-api-user", user_id));
            entries.push(header("priority", PRIORITY));
            entries.push(header("referer", referer.as_str()));
            entries.push(header("sec-ch-ua", SEC_CH_UA));
            entries.push(header("sec-ch-ua-mobile", SEC_CH_UA_MOBILE));
            entries.push(header("sec-ch-ua-platform", SEC_CH_UA_PLATFORM));
            entries.push(header("sec-fetch-dest", SEC_FETCH_DEST));
            entries.push(header("sec-fetch-mode", SEC_FETCH_MODE));
            entries.push(header("sec-fetch-site", SEC_FETCH_SITE));
            entries.push(header("user-agent", USER_AGENT));
            entries.push(header("cookie", cookie));
            let p = HeaderProfile { entries };
            assert(p@ =~= profile_of(user_id@, cookie@, base_url@));
            proof {
                lemma_profile_sendable(user_id@, cookie@, base_url@);
            }
            Ok(p)
        },
    }
}

} // verus!
