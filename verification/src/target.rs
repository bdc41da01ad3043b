//! The two requests of the client: where each goes and what it carries.

use vstd::prelude::*;
use vstd::string::*;
use crate::text::{decimal, signed_decimal, trimmed, trim_trailing_slashes};
use crate::profile::{
    get_headers, profile_of, rejected, sendable, HeaderProfile, InvalidField,
};

verus! {

/// Path of the account record.
pub const QUOTA_PATH: &'static str = "/api/user/self";

/// Path of the usage aggregates, with the query up to the start of the window.
pub const USAGE_STAT_HEAD: &'static str =
    "/api/log/self/stat?type=2&token_name=&model_name=&start_timestamp=";

/// The query between the start of the window and its end.
pub const USAGE_STAT_MIDDLE: &'static str = "&end_timestamp=";

/// The query after the end of the window.
pub const USAGE_STAT_TAIL: &'static str = "&group=";

/// A GET request ready to be sent: the URL and the headers, in order.
#[derive(Debug)]
pub struct Request {
    pub url: String,
    pub headers: HeaderProfile,
}

/// URL of the account record under a base URL.
pub open spec fn quota_url(base_url: Seq<char>) -> Seq<char> {
    trimmed(base_url) + QUOTA_PATH@
}

/// Query string of a usage request over a window, in Unix seconds.
pub open spec fn usage_stat_query(start_timestamp: int, end_timestamp: int) -> Seq<char> {
    "type=2&token_name=&model_name=&start_timestamp="@ + decimal(start_timestamp)
        + USAGE_STAT_MIDDLE@ + decimal(end_timestamp) + USAGE_STAT_TAIL@
}

/// URL of the usage aggregates under a base URL, over a window.
pub open spec fn usage_stat_url(
    base_url: Seq<char>,
    start_timestamp: int,
    end_timestamp: int,
) -> Seq<char> {
    trimmed(base_url) + USAGE_STAT_HEAD@ + decimal(start_timestamp) + USAGE_STAT_MIDDLE@ + decimal(
        end_timestamp,
    ) + USAGE_STAT_TAIL@
}

/// Base URLs that differ only in slashes at the end give the same account
/// URL.
pub proof fn lemma_quota_url_ignores_slash(base_url: Seq<char>)
    ensures
        quota_url(base_url.push('/')) == quota_url(base_url),
        quota_url(trimmed(base_url)) == quota_url(base_url),
{
    crate::text::lemma_trimmed_ignores_slash(base_url);
    crate::text::lemma_trimmed_idempotent(base_url);
}

/// Base URLs that differ only in slashes at the end give the same usage URL.
pub proof fn lemma_usage_stat_url_ignores_slash(base_url: Seq<char>, start: int, end: int)
    ensures
        usage_stat_url(base_url.push('/'), start, end) == usage_stat_url(base_url, start, end),
        usage_stat_url(trimmed(base_url), start, end) == usage_stat_url(base_url, start, end),
{
    crate::text::lemma_trimmed_ignores_slash(base_url);
    crate::text::lemma_trimmed_idempotent(base_url);
}

/// The usage URL is the trimmed base, the path, a question mark and the query
/// string, with every parameter present and in its fixed place.
pub proof fn lemma_usage_stat_url_query(base_url: Seq<char>, start: int, end: int)
    ensures
        usage_stat_url(base_url, start, end) == trimmed(base_url) + "/api/log/self/stat?"@
            + usage_stat_query(start, end),
{
    reveal_strlit("/api/log/self/stat?type=2&token_name=&model_name=&start_timestamp=");
    reveal_strlit("/api/log/self/stat?");
    reveal_strlit("type=2&token_name=&model_name=&start_timestamp=");
    assert(USAGE_STAT_HEAD@ =~= "/api/log/self/stat?"@
        + "type=2&token_name=&model_name=&start_timestamp="@);
    assert(usage_stat_url(base_url, start, end) =~= trimmed(base_url) + "/api/log/self/stat?"@
        + usage_stat_query(start, end));
}

/// Builds the URL of the account record.
pub fn quota_target(base_url: &str) -> (r: String)
    ensures
        r@ == quota_url(base_url@),
{
    let mut r = String::from_str(trim_trailing_slashes(base_url));
    r.append(QUOTA_PATH);
    r
}

/// Builds the URL of the usage aggregates over a window. The two timestamps
/// are written as given; neither their order nor their sign is looked at.
pub fn usage_stat_target(base_url: &str, start_timestamp: i64, end_timestamp: i64) -> (r: String)
    ensures
        r@ == usage_stat_url(base_url@, start_timestamp as int, end_timestamp as int),
{
    let start = signed_decimal(start_timestamp);
    let end = signed_decimal(end_timestamp);
    let mut r = String::from_str(trim_trailing_slashes(base_url));
    r.append(USAGE_STAT_HEAD);
    r.append(start.as_str());
    r.append(USAGE_STAT_MIDDLE);
    r.append(end.as_str());
    r.append(USAGE_STAT_TAIL);
    r
}

/// Prepares the request for the account record: validates the session
/// fields, then fixes the URL and the headers. Nothing is sent.
pub fn quota_request(base_url: &str, cookie: &str, user_id: &str) -> (r: Result<
    Request,
    InvalidField,
>)
    ensures
        match r {
            Ok(q) => {
                &&& rejected(user_id@, cookie@, base_url@) is None
                &&& q.url@ == quota_url(base_url@)
                &&& q.headers@ == profile_of(user_id@, cookie@, base_url@)
                &&& sendable(q.headers@)
            },
            Err(e) => rejected(user_id@, cookie@, base_url@) == Some(e),
        },
{
    match get_headers(user_id, cookie, base_url) {
        Ok(headers) => Ok(Request { url: quota_target(base_url), headers }),
        Err(e) => Err(e),
    }
}

/// Prepares the request for the usage aggregates over a window: validates
/// the session fields, then fixes the URL and the headers. Nothing is sent.
pub fn usage_stat_request(
    base_url: &str,
    cookie: &str,
    user_id: &str,
    start_timestamp: i64,
    end_timestamp: i64,
) -> (r: Result<Request, InvalidField>)
    ensures
        match r {
            Ok(q) => {
                &&& rejected(user_id@, cookie@, base_url@) is None
                &&& q.url@ == usage_stat_url(
                    base_url@,
                    start_timestamp as int,
                    end_timestamp as int,
                )
                &&& q.headers@ == profile_of(user_id@, cookie@, base_url@)
                &&& sendable(q.headers@)
            },
            Err(e) => rejected(user_id@, cookie@, base_url@) == Some(e),
        },
{
    match get_headers(user_id, cookie, base_url) {
        Ok(headers) => Ok(
            Request { url: usage_stat_target(base_url, start_timestamp, end_timestamp), headers },
        ),
        Err(e) => Err(e),
    }
}

} // verus!
