use vstd::prelude::*;

verus! {

/// The classes of failure that the exchange reports.
#[derive(Clone, Copy, Debug, PartialEq, Eq, Structural)]
pub enum AriesVcxErrorKind {
    /// A thread-id, parent-thread-id or handshake-protocol binding was violated,
    /// or an operation was applied to a state that does not accept it.
    InvalidState,
    /// An attachment could not be decoded into a DID document.
    SerializationError,
    /// An attachment does not hold JSON.
    InvalidJson,
    /// A string is not a DID.
    InvalidDid,
    /// Key material could not be decoded.
    InvalidKey,
    /// The counterparty's DID document is not available.
    ResolutionError,
    /// A document holds no service to deliver to.
    InvalidUrl,
    /// No record is stored under the given id.
    NotFound,
}

/// A typed error together with a human readable explanation.
#[derive(Debug)]
pub struct AriesVcxError {
    pub kind: AriesVcxErrorKind,
    pub msg: String,
}

impl AriesVcxError {
    pub fn from_msg(kind: AriesVcxErrorKind, msg: &str) -> (r: AriesVcxError)
        ensures
            r.kind == kind,
            r.msg@ == msg@,
    {
        AriesVcxError { kind, msg: msg.to_owned() }
    }

    pub fn kind(&self) -> (r: AriesVcxErrorKind)
        ensures
            r == self.kind,
    {
        self.kind
    }
}

} // verus!
