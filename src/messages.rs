use vstd::prelude::*;

use crate::attachment::Attachment;

verus! {

/// Correlation of a message with the request that opened its exchange
/// (`thid`) and with the invitation that the exchange answers (`pthid`).
#[derive(Clone, Debug, PartialEq, Eq)]
pub struct Thread {
    pub thid: String,
    pub pthid: Option<String>,
}

pub open spec fn opt_text(o: Option<String>) -> Option<Seq<char>> {
    match o {
        Some(s) => Some(s@),
        None => None,
    }
}

impl Thread {
    /// A thread with the given ids.
    pub fn new(thid: String, pthid: String) -> (r: Thread)
        ensures
            r.thid == thid,
            r.pthid == Some(pthid),
    {
        Thread { thid, pthid: Some(pthid) }
    }
}

/// The message that opens an exchange.
#[derive(Debug, PartialEq, Eq)]
pub struct Request {
    pub id: String,
    pub label: String,
    pub goal: Option<String>,
    pub goal_code: Option<String>,
    pub did: String,
    pub did_doc: Option<Attachment>,
    pub thread: Option<Thread>,
}

/// The responder's answer to a request.
#[derive(Debug, PartialEq, Eq)]
pub struct Response {
    pub id: String,
    pub did: String,
    pub did_doc: Option<Attachment>,
    pub thread: Thread,
}

/// The requester's acknowledgement of a response; it ends the exchange.
#[derive(Clone, Debug, PartialEq, Eq)]
pub struct Complete {
    pub id: String,
    pub thread: Thread,
}

/// Tells the counterparty that the exchange was abandoned, and why.
#[derive(Clone, Debug, PartialEq, Eq)]
pub struct ProblemReport {
    pub id: String,
    pub code: String,
    pub explanation: String,
    pub thread: Thread,
}

/// Relies on `uuid::Uuid::new_v4` and its `Display`: a fresh random id, in
/// hyphenated form (32 hex digits and 4 hyphens).
#[verifier::external_body]
pub(crate) fn new_message_id() -> (r: String)
    ensures
        r@.len() == 36,
{
    uuid::Uuid::new_v4().to_string()
}

} // verus!
