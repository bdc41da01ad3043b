//! What came back from the gateway, and what the caller is told about it.

use vstd::prelude::*;
use vstd::string::*;
use crate::text::{decimal, unsigned_decimal};

verus! {

/// Prefix of the message for a request that never got an answer.
pub const TRANSPORT_PREFIX: &'static str = "Request failed: ";

/// Prefix of the message for an answer whose body could not be read.
pub const BODY_READ_PREFIX: &'static str = "Read body failed: ";

/// Prefix of the message for an answer with a status outside the success
/// range.
pub const STATUS_PREFIX: &'static str = "HTTP ";

/// What stands between the status and the body in that message.
pub const STATUS_SEPARATOR: &'static str = ": ";

/// The outcome of sending one request.
#[derive(Debug)]
pub enum Reply {
    /// No response arrived; `error` is the transport's own description.
    Unreachable { error: String },
    /// A response arrived but its body could not be read to the end.
    Unreadable { error: String },
    /// A response arrived in full.
    Response { status: u16, body: String },
}

/// How the HTTP library writes a status code: the number and its reason
/// phrase.
pub uninterp spec fn status_line(code: u16) -> Seq<char>;

/// Whether a status code is in the success range.
pub open spec fn is_success(code: u16) -> bool {
    200 <= code < 300
}

/// The text that stands for a status in a message: the library's status line
/// where the code is one that a response can carry, the bare number elsewhere.
pub open spec fn status_label(code: u16) -> Seq<char> {
    if 100 <= code < 1000 {
        status_line(code)
    } else {
        decimal(code as int)
    }
}

/// Message for a request that never got an answer.
pub open spec fn transport_message(error: Seq<char>) -> Seq<char> {
    TRANSPORT_PREFIX@ + error
}

/// Message for an answer whose body could not be read.
pub open spec fn body_read_message(error: Seq<char>) -> Seq<char> {
    BODY_READ_PREFIX@ + error
}

/// Message for an answer with a status outside the success range.
pub open spec fn status_message(status: Seq<char>, body: Seq<char>) -> Seq<char> {
    STATUS_PREFIX@ + status + STATUS_SEPARATOR@ + body
}

/// What the caller is told for each outcome.
pub open spec fn verdict(reply: Reply) -> Result<Seq<char>, Seq<char>> {
    match reply {
        Reply::Unreachable { error } => Err(transport_message(error@)),
        Reply::Unreadable { error } => Err(body_read_message(error@)),
        Reply::Response { status, body } => if is_success(status) {
            Ok(body@)
        } else {
            Err(status_message(status_label(status), body@))
        },
    }
}

/// The view of a result of two texts.
pub open spec fn result_view(r: Result<String, String>) -> Result<Seq<char>, Seq<char>> {
    match r {
        Ok(s) => Ok(s@),
        Err(s) => Err(s@),
    }
}

/// A transport failure never reads like a rejection by the server, nor like
/// a body that broke off, whatever texts the three messages carry.
pub proof fn lemma_failures_distinct(
    error: Seq<char>,
    read_error: Seq<char>,
    status: Seq<char>,
    body: Seq<char>,
)
    ensures
        transport_message(error) != status_message(status, body),
        transport_message(error) != body_read_message(read_error),
        body_read_message(read_error) != status_message(status, body),
{
    reveal_strlit("Request failed: ");
    reveal_strlit("Read body failed: ");
    reveal_strlit("HTTP ");
    assert(transport_message(error)[0] == 'R');
    assert(transport_message(error)[2] == 'q');
    assert(body_read_message(read_error)[0] == 'R');
    assert(body_read_message(read_error)[2] == 'a');
    assert(status_message(status, body)[0] == 'H');
}

/// The message for a rejected request holds the status and the body in full.
pub proof fn lemma_status_message_parts(status: Seq<char>, body: Seq<char>)
    ensures
        status_message(status, body).len() == 7 + status.len() + body.len(),
        status_message(status, body).subrange(5, 5 + status.len() as int) == status,
        status_message(status, body).subrange(
            7 + status.len() as int,
            7 + status.len() as int + body.len() as int,
        ) == body,
{
    reveal_strlit("HTTP ");
    reveal_strlit(": ");
    let m = status_message(status, body);
    assert(m.subrange(5, 5 + status.len() as int) =~= status);
    assert(m.subrange(7 + status.len() as int, 7 + status.len() as int + body.len() as int)
        =~= body);
}

/// Asks the HTTP library for the text of a status code: `StatusCode::from_u16`
/// and then the code's `Display`. The first accepts exactly the codes from
/// 100 to 999; for those the second writes the number, a space and the reason
/// phrase, which depends on the code alone.
#[verifier::external_body]
fn status_text(code: u16) -> (r: Option<String>)
    ensures
        r is Some <==> 100 <= code < 1000,
        r is Some ==> r->Some_0@ == status_line(code),
{
    match reqwest::StatusCode::from_u16(code) {
        Ok(status) => Some(status.to_string()),
        Err(_) => None,
    }
}

/// Writes the message for a request that never got an answer.
pub fn transport_failure(error: &str) -> (r: String)
    ensures
        r@ == transport_message(error@),
{
    let mut r = String::from_str(TRANSPORT_PREFIX);
    r.append(error);
    r
}

/// Writes the message for an answer whose body could not be read.
pub fn body_read_failure(error: &str) -> (r: String)
    ensures
        r@ == body_read_message(error@),
{
    let mut r = String::from_str(BODY_READ_PREFIX);
    r.append(error);
    r
}

/// Writes the message for an answer with a status outside the success range.
/// The body is kept as it came.
pub fn status_failure(status: &str, body: &str) -> (r: String)
    ensures
        r@ == status_message(status@, body@),
{
    let mut r = String::from_str(STATUS_PREFIX);
    r.append(status);
    r.append(STATUS_SEPARATOR);
    r.append(body);
    r
}

/// Writes the text that stands for a status code in a message.
pub fn status_label_text(code: u16) -> (r: String)
    ensures
        r@ == status_label(code),
{
    match status_text(code) {
        Some(text) => text,
        None => unsigned_decimal(code as u64),
    }
}

/// Decides what the caller gets for an outcome: the body as it came when the
/// status is in the success range, else one of the three failure messages.
pub fn interpret_reply(reply: Reply) -> (r: Result<String, String>)
    ensures
        result_view(r) == verdict(reply),
{
    match reply {
        Reply::Unreachable { error } => Err(transport_failure(error.as_str())),
        Reply::Unreadable { error } => Err(body_read_failure(error.as_str())),
        Reply::Response { status, body } => {
            if 200 <= status && status < 300 {
                Ok(body)
            } else {
                let label = status_label_text(status);
                Err(status_failure(label.as_str(), body.as_str()))
            }
        },
    }
}

} // verus!
