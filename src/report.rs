use vstd::prelude::*;
use crate::identity::{is_space, lemma_trimmed, trimmed, trim_identity, IdentityError};
use crate::json::{json_string, json_string_items, quote_json};

verus! {

/// The endpoint that receives reports.
pub const REPORT_ENDPOINT: &'static str = "https://find-nas.lirui.tech/v1/ip";

#[derive(Clone, Copy, Debug, PartialEq, Eq, Structural)]
pub enum ReportError {
    /// No machine identity could be resolved; nothing was sent.
    IdentityUnavailable,
    /// The request did not complete (connection, DNS, timeout or send failure).
    Transport,
    /// The service answered with a status outside 200..=299.
    RemoteRejected,
}

/// Whether an HTTP status code is a success (2xx).
pub open spec fn is_success(status: u16) -> bool {
    200 <= status && status < 300
}

/// The JSON body of a report: `{"hwid":<identity>,"ip":[<address>,...]}`.
pub open spec fn payload_text(hwid: Seq<char>, addresses: Seq<Seq<char>>) -> Seq<char> {
    seq!['{', '"', 'h', 'w', 'i', 'd', '"', ':'] + json_string(hwid) + seq![
        ',',
        '"',
        'i',
        'p',
        '"',
        ':',
        '[',
    ] + json_string_items(addresses) + seq![']', '}']
}

/// Builds the JSON body that reports `addresses` for the machine `identity`;
/// the identity is sent with surrounding whitespace removed.
pub fn report_payload(identity: &str, addresses: &Vec<String>) -> (r: String)
    ensures
        r@ == payload_text(trimmed(identity@), addresses.deep_view()),
{
    let hwid = trim_identity(identity);
    let mut body = String::from_str("{\"hwid\":");
    let quoted = quote_json(hwid.as_str());
    body.append(quoted.as_str());
    body.append(",\"ip\":[");
    let ghost head = body@;
    let mut i: usize = 0;
    while i < addresses.len()
        invariant
            0 <= i <= addresses.len(),
            body@ == head + json_string_items(addresses.deep_view().subrange(0, i as int)),
        decreases addresses.len() - i,
    {
        if i > 0 {
            body.append(",");
        }
        let item = quote_json(addresses[i].as_str());
        body.append(item.as_str());
        proof {
            let d = addresses.deep_view();
            let next = d.subrange(0, i + 1);
            assert(next.drop_last() =~= d.subrange(0, i as int));
            assert(next.last() == addresses@[i as int]@);
            reveal_strlit(",");
            if i == 0 {
                assert(next.len() == 1);
                assert(json_string_items(d.subrange(0, 0)) =~= Seq::<char>::empty());
                assert(body@ =~= head + json_string_items(next));
            } else {
                assert(next.len() > 1);
                assert(json_string_items(next) == json_string_items(next.drop_last()) + seq![
                    ',',
                ] + json_string(next.last()));
                assert(body@ =~= head + json_string_items(next));
            }
        }
        i = i + 1;
    }
    body.append("]}");
    proof {
        reveal_strlit("{\"hwid\":");
        reveal_strlit(",\"ip\":[");
        reveal_strlit("]}");
        assert(addresses.deep_view().subrange(0, i as int) =~= addresses.deep_view());
        assert(body@ =~= payload_text(trimmed(identity@), addresses.deep_view()));
    }
    body
}

/// Prepares one report: the body to POST, or `IdentityUnavailable` when the
/// identity could not be resolved, in which case nothing is to be sent.
pub fn prepare_report(identity: &Result<String, IdentityError>, addresses: &Vec<String>) -> (r:
    Result<String, ReportError>)
    ensures
        identity is Err ==> r == Err::<String, ReportError>(ReportError::IdentityUnavailable),
        identity is Ok ==> r is Ok && r->Ok_0@ == payload_text(
            trimmed(identity->Ok_0@),
            addresses.deep_view(),
        ),
{
    match identity {
        Ok(s) => Ok(report_payload(s.as_str(), addresses)),
        Err(_) => Err(ReportError::IdentityUnavailable),
    }
}

/// The result of a sent report: success for any 2xx status, `RemoteRejected`
/// for any other, `Transport` when no response came (`None`). The body of the
/// response is never inspected.
pub fn report_result(response: Option<u16>) -> (r: Result<(), ReportError>)
    ensures
        response is None ==> r == Err::<(), ReportError>(ReportError::Transport),
        response is Some && is_success(response->Some_0) ==> r == Ok::<(), ReportError>(()),
        response is Some && !is_success(response->Some_0) ==> r == Err::<(), ReportError>(
            ReportError::RemoteRejected,
        ),
{
    match response {
        None => Err(ReportError::Transport),
        Some(status) => if 200 <= status && status < 300 {
            Ok(())
        } else {
            Err(ReportError::RemoteRejected)
        },
    }
}

/// The identity inside a report body neither starts nor ends with whitespace,
/// whatever surrounded it at the source; it is the source's text with only
/// that surrounding whitespace removed.
pub proof fn lemma_payload_identity_trimmed(identity: Seq<char>, addresses: Seq<Seq<char>>)
    ensures
        payload_text(trimmed(identity), addresses) == seq!['{', '"', 'h', 'w', 'i', 'd', '"', ':']
            + json_string(trimmed(identity)) + seq![',', '"', 'i', 'p', '"', ':', '[']
            + json_string_items(addresses) + seq![']', '}'],
        trimmed(identity).len() > 0 ==> !is_space(trimmed(identity)[0]) && !is_space(
            trimmed(identity).last(),
        ),
        exists|lo: int, hi: int|
            0 <= lo <= hi <= identity.len() && trimmed(identity) == identity.subrange(lo, hi)
                && (forall|k: int| 0 <= k < lo ==> is_space(#[trigger] identity[k])) && (forall|
                k: int,
            |
                hi <= k < identity.len() ==> is_space(#[trigger] identity[k])),
{
    lemma_trimmed(identity);
    let lo = crate::identity::first_kept(identity, 0);
    let hi = crate::identity::last_kept(identity, lo, identity.len() as int);
    assert(trimmed(identity) == identity.subrange(lo, hi));
}

} // verus!
