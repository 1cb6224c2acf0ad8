use vstd::prelude::*;
use crate::identity::{trimmed, trim_identity, IdentityError};
use crate::json::{link_fields_of, parse_link_fields};
use crate::report::is_success;

verus! {

/// The lookup endpoint; the machine identity is appended to it.
pub const LINK_ENDPOINT: &'static str = "https://find-nas.lirui.tech/v1/link/";

/// The body of a successful lookup: a status code and the short link.
pub struct LinkResponse {
    pub status_code: i32,
    pub msg: String,
}

impl View for LinkResponse {
    type V = (int, Seq<char>);

    open spec fn view(&self) -> (int, Seq<char>) {
        (self.status_code as int, self.msg@)
    }
}

/// Why a lookup gave no link. Callers of `resolve_link` see only absence.
#[derive(Clone, Copy, Debug, PartialEq, Eq, Structural)]
pub enum LinkError {
    /// No machine identity could be resolved; nothing was sent.
    IdentityUnavailable,
    /// The request did not complete, or its body could not be read.
    Transport,
    /// The service answered with a status outside 200..=299.
    Rejected,
    /// The body is not a JSON object with an `i32` `status_code` and a string `msg`.
    Malformed,
}

/// The lookup response read from the members serde_json found, if any: the
/// status code must fit an `i32`.
pub open spec fn response_of_fields(fields: Option<(int, Seq<char>)>) -> Option<(int, Seq<char>)> {
    match fields {
        Some((code, msg)) => if i32::MIN <= code && code <= i32::MAX {
            Some((code, msg))
        } else {
            None
        },
        None => None,
    }
}

/// The lookup response carried by a body.
pub open spec fn decoded_response(body: Seq<char>) -> Option<(int, Seq<char>)> {
    response_of_fields(link_fields_of(body))
}

/// The view of a decoded response, if any.
pub open spec fn response_view(r: Option<LinkResponse>) -> Option<(int, Seq<char>)> {
    match r {
        Some(resp) => Some(resp@),
        None => None,
    }
}

/// The outcome of one lookup, given the response status (`None` when no
/// response came) and the response body.
pub open spec fn link_outcome(status: Option<u16>, body: Seq<char>) -> Result<Seq<char>, LinkError> {
    match status {
        None => Err(LinkError::Transport),
        Some(s) => if !is_success(s) {
            Err(LinkError::Rejected)
        } else {
            match decoded_response(body) {
                Some((_, msg)) => Ok(msg),
                None => Err(LinkError::Malformed),
            }
        },
    }
}

/// A lookup outcome as callers see it: the link, or nothing.
pub open spec fn link_seen(outcome: Result<Seq<char>, LinkError>) -> Option<Seq<char>> {
    match outcome {
        Ok(msg) => Some(msg),
        Err(_) => None,
    }
}

/// The address to query for the machine `identity`, with surrounding
/// whitespace removed from the identity, or `IdentityUnavailable`.
pub fn link_request(identity: &Result<String, IdentityError>) -> (r: Result<String, LinkError>)
    ensures
        identity is Err ==> r == Err::<String, LinkError>(LinkError::IdentityUnavailable),
        identity is Ok ==> r is Ok && r->Ok_0@ == LINK_ENDPOINT@ + trimmed(identity->Ok_0@),
{
    match identity {
        Ok(s) => {
            let hwid = trim_identity(s.as_str());
            let mut url = String::from_str(LINK_ENDPOINT);
            url.append(hwid.as_str());
            Ok(url)
        },
        Err(_) => Err(LinkError::IdentityUnavailable),
    }
}

/// Turns the members read from a body into a lookup response; `None` when
/// they are missing or the status code does not fit an `i32`.
pub fn link_from_fields(fields: Option<(i64, String)>) -> (r: Option<LinkResponse>)
    ensures
        response_view(r) == response_of_fields(
            match fields {
                Some((c, m)) => Some((c as int, m@)),
                None => None,
            },
        ),
{
    match fields {
        Some((code, msg)) => if i32::MIN as i64 <= code && code <= i32::MAX as i64 {
            Some(LinkResponse { status_code: code as i32, msg })
        } else {
            None
        },
        None => None,
    }
}

/// Decodes a lookup response body.
pub fn decode_link_response(body: &str) -> (r: Option<LinkResponse>)
    ensures
        response_view(r) == decoded_response(body@),
{
    let fields = parse_link_fields(body);
    link_from_fields(fields)
}

/// The outcome of one lookup: `Transport` when no response came (`None`),
/// `Rejected` for a status outside 2xx whatever the body, `Malformed` when the
/// body does not decode, and the link otherwise.
pub fn link_result(status: Option<u16>, body: &str) -> (r: Result<String, LinkError>)
    ensures
        match (r, link_outcome(status, body@)) {
            (Ok(a), Ok(b)) => a@ == b,
            (Err(a), Err(b)) => a == b,
            _ => false,
        },
{
    match status {
        None => Err(LinkError::Transport),
        Some(s) => if !(200 <= s && s < 300) {
            Err(LinkError::Rejected)
        } else {
            match decode_link_response(body) {
                Some(resp) => Ok(resp.msg),
                None => Err(LinkError::Malformed),
            }
        },
    }
}

/// The link, or `None` whatever the cause of failure.
pub fn resolve_link(outcome: Result<String, LinkError>) -> (r: Option<String>)
    ensures
        r is Some <==> outcome is Ok,
        r is Some ==> r->Some_0@ == outcome->Ok_0@,
{
    match outcome {
        Ok(link) => Some(link),
        Err(_) => None,
    }
}

/// A lookup yields a link exactly when a 2xx response came whose body decodes
/// as a lookup response, and then the link is that response's `msg`; every
/// other case (no response, another status, a malformed body) gives nothing.
pub proof fn lemma_link_only_on_valid_response(status: Option<u16>, body: Seq<char>)
    ensures
        link_seen(link_outcome(status, body)) is Some <==> (status is Some && is_success(
            status->Some_0,
        ) && decoded_response(body) is Some),
        link_seen(link_outcome(status, body)) is Some ==> link_seen(
            link_outcome(status, body),
        )->Some_0 == decoded_response(body)->Some_0.1,
        status is None ==> link_seen(link_outcome(status, body)) is None,
        status is Some && !is_success(status->Some_0) ==> link_seen(
            link_outcome(status, body),
        ) is None,
        decoded_response(body) is None ==> link_seen(link_outcome(status, body)) is None,
{
}

} // verus!
