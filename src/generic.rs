use vstd::prelude::*;

use crate::document::{DidDocumentModel, DidDocumentSov};
use crate::error::{AriesVcxError, AriesVcxErrorKind};
use crate::exchange::{
    counterparty_doc, request_error, request_outcome, request_refusal, requester_completes,
    responder_completes, response_outcome, response_refusal, ConstructRequestConfig,
    DidExchangeServiceRequester, DidExchangeServiceResponder, ReceiveRequestConfig,
};
use crate::key::{Key, KeyType};
use crate::messages::{new_message_id, Complete, ProblemReport, Request, Response};
use crate::protocol::{binds, Abandoned, Completed, RequestSent, ResponseSent, TransitionResult};

verus! {

/// An exchange of either role in any state, as kept between messages.
pub enum GenericDidExchange {
    Requester(RequesterState),
    Responder(ResponderState),
}

pub enum RequesterState {
    RequestSent(DidExchangeServiceRequester<RequestSent>),
    Completed(DidExchangeServiceRequester<Completed>),
    Abandoned(DidExchangeServiceRequester<Abandoned>),
}

pub enum ResponderState {
    ResponseSent(DidExchangeServiceResponder<ResponseSent>),
    Completed(DidExchangeServiceResponder<Completed>),
    Abandoned(DidExchangeServiceResponder<Abandoned>),
}

impl From<DidExchangeServiceRequester<RequestSent>> for GenericDidExchange {
    fn from(state: DidExchangeServiceRequester<RequestSent>) -> GenericDidExchange {
        GenericDidExchange::Requester(RequesterState::RequestSent(state))
    }
}

impl vstd::std_specs::convert::FromSpecImpl<DidExchangeServiceRequester<RequestSent>> for GenericDidExchange {
    open spec fn obeys_from_spec() -> bool {
        true
    }

    open spec fn from_spec(state: DidExchangeServiceRequester<RequestSent>) -> GenericDidExchange {
        GenericDidExchange::Requester(RequesterState::RequestSent(state))
    }
}

impl From<DidExchangeServiceRequester<Completed>> for GenericDidExchange {
    fn from(state: DidExchangeServiceRequester<Completed>) -> GenericDidExchange {
        GenericDidExchange::Requester(RequesterState::Completed(state))
    }
}

impl vstd::std_specs::convert::FromSpecImpl<DidExchangeServiceRequester<Completed>> for GenericDidExchange {
    open spec fn obeys_from_spec() -> bool {
        true
    }

    open spec fn from_spec(state: DidExchangeServiceRequester<Completed>) -> GenericDidExchange {
        GenericDidExchange::Requester(RequesterState::Completed(state))
    }
}

impl From<DidExchangeServiceResponder<ResponseSent>> for GenericDidExchange {
    fn from(state: DidExchangeServiceResponder<ResponseSent>) -> GenericDidExchange {
        GenericDidExchange::Responder(ResponderState::ResponseSent(state))
    }
}

impl vstd::std_specs::convert::FromSpecImpl<DidExchangeServiceResponder<ResponseSent>> for GenericDidExchange {
    open spec fn obeys_from_spec() -> bool {
        true
    }

    open spec fn from_spec(state: DidExchangeServiceResponder<ResponseSent>) -> GenericDidExchange {
        GenericDidExchange::Responder(ResponderState::ResponseSent(state))
    }
}

impl From<DidExchangeServiceResponder<Completed>> for GenericDidExchange {
    fn from(state: DidExchangeServiceResponder<Completed>) -> GenericDidExchange {
        GenericDidExchange::Responder(ResponderState::Completed(state))
    }
}

impl vstd::std_specs::convert::FromSpecImpl<DidExchangeServiceResponder<Completed>> for GenericDidExchange {
    open spec fn obeys_from_spec() -> bool {
        true
    }

    open spec fn from_spec(state: DidExchangeServiceResponder<Completed>) -> GenericDidExchange {
        GenericDidExchange::Responder(ResponderState::Completed(state))
    }
}

impl GenericDidExchange {
    pub open spec fn spec_our_verkey(&self) -> (KeyType, Seq<u8>) {
        match self {
            GenericDidExchange::Requester(RequesterState::RequestSent(s)) => s.spec_our_verkey(),
            GenericDidExchange::Requester(RequesterState::Completed(s)) => s.spec_our_verkey(),
            GenericDidExchange::Requester(RequesterState::Abandoned(s)) => s.spec_our_verkey(),
            GenericDidExchange::Responder(ResponderState::ResponseSent(s)) => s.spec_our_verkey(),
            GenericDidExchange::Responder(ResponderState::Completed(s)) => s.spec_our_verkey(),
            GenericDidExchange::Responder(ResponderState::Abandoned(s)) => s.spec_our_verkey(),
        }
    }

    pub open spec fn spec_their_did_doc(&self) -> DidDocumentModel {
        match self {
            GenericDidExchange::Requester(RequesterState::RequestSent(s)) => s.spec_their_did_doc(),
            GenericDidExchange::Requester(RequesterState::Completed(s)) => s.spec_their_did_doc(),
            GenericDidExchange::Requester(RequesterState::Abandoned(s)) => s.spec_their_did_doc(),
            GenericDidExchange::Responder(ResponderState::ResponseSent(s)) => s.spec_their_did_doc(),
            GenericDidExchange::Responder(ResponderState::Completed(s)) => s.spec_their_did_doc(),
            GenericDidExchange::Responder(ResponderState::Abandoned(s)) => s.spec_their_did_doc(),
        }
    }

    pub fn our_verkey(&self) -> (r: &Key)
        ensures
            r@ == self.spec_our_verkey(),
    {
        match self {
            GenericDidExchange::Requester(RequesterState::RequestSent(s)) => s.our_verkey(),
            GenericDidExchange::Requester(RequesterState::Completed(s)) => s.our_verkey(),
            GenericDidExchange::Requester(RequesterState::Abandoned(s)) => s.our_verkey(),
            GenericDidExchange::Responder(ResponderState::ResponseSent(s)) => s.our_verkey(),
            GenericDidExchange::Responder(ResponderState::Completed(s)) => s.our_verkey(),
            GenericDidExchange::Responder(ResponderState::Abandoned(s)) => s.our_verkey(),
        }
    }

    pub fn their_did_doc(&self) -> (r: &DidDocumentSov)
        ensures
            r@ == self.spec_their_did_doc(),
    {
        match self {
            GenericDidExchange::Requester(RequesterState::RequestSent(s)) => s.their_did_doc(),
            GenericDidExchange::Requester(RequesterState::Completed(s)) => s.their_did_doc(),
            GenericDidExchange::Requester(RequesterState::Abandoned(s)) => s.their_did_doc(),
            GenericDidExchange::Responder(ResponderState::ResponseSent(s)) => s.their_did_doc(),
            GenericDidExchange::Responder(ResponderState::Completed(s)) => s.their_did_doc(),
            GenericDidExchange::Responder(ResponderState::Abandoned(s)) => s.their_did_doc(),
        }
    }

    /// Opens an exchange as requester.
    pub fn construct_request(config: ConstructRequestConfig) -> (r: Result<(GenericDidExchange, Request), AriesVcxError>)
        ensures
            r is Ok <==> crate::exchange::config_accepted(config),
            r matches Ok((g, req)) ==> g matches GenericDidExchange::Requester(RequesterState::RequestSent(s))
                && request_outcome(config, req.id@, s, req),
            r matches Err(e) ==> request_error(config, e),
    {
        match DidExchangeServiceRequester::<RequestSent>::construct_request(config) {
            Ok(TransitionResult { state, output }) => Ok(
                (GenericDidExchange::Requester(RequesterState::RequestSent(state)), output),
            ),
            Err(e) => Err(e),
        }
    }

    /// Answers a request as responder.
    pub fn handle_request(config: ReceiveRequestConfig) -> (r: Result<(GenericDidExchange, Response), AriesVcxError>)
        ensures
            r is Ok <==> crate::protocol::request_pthid(config.request) == Some(config.invitation_id@)
                && counterparty_doc(config.request.did_doc, config.resolved) is Some,
            r matches Ok((g, resp)) ==> g matches GenericDidExchange::Responder(ResponderState::ResponseSent(s))
                && response_outcome(config, s, resp),
            r matches Err(e) ==> request_refusal(config, e),
    {
        match DidExchangeServiceResponder::<ResponseSent>::receive_request(config) {
            Ok(TransitionResult { state, output }) => Ok(
                (GenericDidExchange::Responder(ResponderState::ResponseSent(state)), output),
            ),
            Err(e) => Err(e),
        }
    }

    /// Passes a response to a requester waiting for one; any other exchange
    /// refuses it with `InvalidState` and is handed back unchanged.
    pub fn handle_response(self, response: Response, resolved: Option<DidDocumentSov>) -> (r: Result<
        (GenericDidExchange, Complete),
        (GenericDidExchange, AriesVcxError),
    >)
        ensures
            match self {
                GenericDidExchange::Requester(RequesterState::RequestSent(s)) => {
                    &&& r is Ok <==> response.thread.thid@ == s.spec_state().request_id@ && counterparty_doc(
                        response.did_doc,
                        resolved,
                    ) is Some
                    &&& r matches Ok((g, c)) ==> g matches GenericDidExchange::Requester(RequesterState::Completed(t))
                        && requester_completes(s, response, resolved, t, c)
                    &&& r matches Err((_, e)) ==> response_refusal(s, response, e)
                },
                _ => r is Err,
            },
            r matches Err((g, e)) ==> g == self,
            !(self matches GenericDidExchange::Requester(RequesterState::RequestSent(_))) ==> (r matches Err((
                _,
                e,
            )) && e.kind == AriesVcxErrorKind::InvalidState),
    {
        match self {
            GenericDidExchange::Requester(RequesterState::RequestSent(s)) => match s.receive_response(
                response,
                resolved,
            ) {
                Ok(TransitionResult { state, output }) => Ok(
                    (GenericDidExchange::Requester(RequesterState::Completed(state)), output),
                ),
                Err(e) => Err((GenericDidExchange::Requester(RequesterState::RequestSent(e.state)), e.error)),
            },
            other => Err(
                (
                    other,
                    AriesVcxError::from_msg(
                        AriesVcxErrorKind::InvalidState,
                        "only a requester waiting for a response takes one",
                    ),
                ),
            ),
        }
    }

    /// Passes a complete message to a responder waiting for one; any other
    /// exchange refuses it with `InvalidState` and is handed back unchanged.
    pub fn handle_complete(self, complete: &Complete) -> (r: Result<GenericDidExchange, (GenericDidExchange, AriesVcxError)>)
        ensures
            match self {
                GenericDidExchange::Responder(ResponderState::ResponseSent(s)) => {
                    &&& r is Ok <==> binds(
                        complete.thread,
                        s.spec_state().request_id@,
                        s.spec_state().invitation_id@,
                    )
                    &&& r matches Ok(g) ==> g matches GenericDidExchange::Responder(ResponderState::Completed(t))
                        && responder_completes(s, t)
                },
                _ => r is Err,
            },
            r matches Err((g, e)) ==> g == self && e.kind == AriesVcxErrorKind::InvalidState,
    {
        match self {
            GenericDidExchange::Responder(ResponderState::ResponseSent(s)) => match s.receive_complete(complete) {
                Ok(state) => Ok(GenericDidExchange::Responder(ResponderState::Completed(state))),
                Err(e) => Err((GenericDidExchange::Responder(ResponderState::ResponseSent(e.state)), e.error)),
            },
            other => Err(
                (
                    other,
                    AriesVcxError::from_msg(
                        AriesVcxErrorKind::InvalidState,
                        "only a responder waiting for a complete message takes one",
                    ),
                ),
            ),
        }
    }

    /// Abandons an exchange that has not ended; an ended one refuses with
    /// `InvalidState` and is handed back unchanged.
    pub fn fail(self, reason: String, code: String) -> (r: Result<
        (GenericDidExchange, ProblemReport),
        (GenericDidExchange, AriesVcxError),
    >)
        ensures
            r is Ok <==> (self matches GenericDidExchange::Requester(RequesterState::RequestSent(_))
                || self matches GenericDidExchange::Responder(ResponderState::ResponseSent(_))),
            r matches Ok((g, p)) ==> p.explanation@ == reason@ && p.code@ == code@ && match (self, g) {
                (
                    GenericDidExchange::Requester(RequesterState::RequestSent(s)),
                    GenericDidExchange::Requester(RequesterState::Abandoned(a)),
                ) => {
                    &&& a.spec_state().reason@ == reason@
                    &&& a.spec_state().request_id@ == s.spec_state().request_id@
                    &&& a.spec_their_did_doc() == s.spec_their_did_doc()
                    &&& a.spec_our_verkey() == s.spec_our_verkey()
                    &&& binds(p.thread, s.spec_state().request_id@, s.spec_state().invitation_id@)
                },
                (
                    GenericDidExchange::Responder(ResponderState::ResponseSent(s)),
                    GenericDidExchange::Responder(ResponderState::Abandoned(a)),
                ) => {
                    &&& a.spec_state().reason@ == reason@
                    &&& a.spec_state().request_id@ == s.spec_state().request_id@
                    &&& a.spec_their_did_doc() == s.spec_their_did_doc()
                    &&& a.spec_our_verkey() == s.spec_our_verkey()
                    &&& binds(p.thread, s.spec_state().request_id@, s.spec_state().invitation_id@)
                },
                _ => false,
            },
            r matches Err((g, e)) ==> g == self && e.kind == AriesVcxErrorKind::InvalidState,
    {
        match self {
            GenericDidExchange::Requester(RequesterState::RequestSent(s)) => {
                let (a, report) = s.fail(reason, code, new_message_id());
                Ok((GenericDidExchange::Requester(RequesterState::Abandoned(a)), report))
            },
            GenericDidExchange::Responder(ResponderState::ResponseSent(s)) => {
                let (a, report) = s.fail(reason, code, new_message_id());
                Ok((GenericDidExchange::Responder(ResponderState::Abandoned(a)), report))
            },
            other => Err(
                (other, AriesVcxError::from_msg(AriesVcxErrorKind::InvalidState, "the exchange has already ended")),
            ),
        }
    }
}

} // verus!
