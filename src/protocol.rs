use vstd::prelude::*;

use crate::attachment::{ddo_sov_to_attach, Attachment, AttachmentType};
use crate::did::Did;
use crate::document::DidDocumentSov;
use crate::document_json::{doc_json, doc_valid};
use crate::error::{AriesVcxError, AriesVcxErrorKind};
use crate::messages::{opt_text, Complete, ProblemReport, Request, Response, Thread};

verus! {

/// Marks an exchange that this party opened.
#[derive(Clone, Copy, Debug, Default, PartialEq, Eq, Structural)]
pub struct Requester;

/// Marks an exchange that the counterparty opened.
#[derive(Clone, Copy, Debug, Default, PartialEq, Eq, Structural)]
pub struct Responder;

/// The requester has sent its request and waits for the response.
#[derive(Debug, PartialEq, Eq)]
pub struct RequestSent {
    pub request_id: String,
    pub invitation_id: String,
}

/// The responder has sent its response and waits for the complete message.
#[derive(Debug, PartialEq, Eq)]
pub struct ResponseSent {
    pub request_id: String,
    pub invitation_id: String,
}

/// The exchange ended successfully.
#[derive(Debug, PartialEq, Eq)]
pub struct Completed {
    pub invitation_id: String,
    pub request_id: String,
}

/// The exchange was given up.
#[derive(Debug, PartialEq, Eq)]
pub struct Abandoned {
    pub reason: String,
    pub request_id: String,
}

/// Any state of an exchange.
#[derive(Debug, PartialEq, Eq)]
pub enum States {
    RequestSent(RequestSent),
    ResponseSent(ResponseSent),
    Abandoned(Abandoned),
    Completed(Completed),
}

/// The id of the thread that a state belongs to.
pub trait ThreadId {
    spec fn spec_thread_id(&self) -> Seq<char>;

    fn thread_id(&self) -> (r: &str)
        ensures
            r@ == self.spec_thread_id(),
    ;
}

/// The id of the request that opened an exchange.
pub trait RequestId {
    spec fn spec_request_id(&self) -> Seq<char>;

    fn request_id(&self) -> (r: &str)
        ensures
            r@ == self.spec_request_id(),
    ;
}

/// The id of the invitation that an exchange answers.
pub trait InvitationId {
    spec fn spec_invitation_id(&self) -> Seq<char>;

    fn invitation_id(&self) -> (r: &str)
        ensures
            r@ == self.spec_invitation_id(),
    ;
}

/// States from which a problem report may be handled.
pub trait HandleProblem {

}

impl ThreadId for RequestSent {
    open spec fn spec_thread_id(&self) -> Seq<char> {
        self.request_id@
    }

    fn thread_id(&self) -> (r: &str) {
        self.request_id.as_str()
    }
}

impl RequestId for RequestSent {
    open spec fn spec_request_id(&self) -> Seq<char> {
        self.request_id@
    }

    fn request_id(&self) -> (r: &str) {
        self.request_id.as_str()
    }
}

impl InvitationId for RequestSent {
    open spec fn spec_invitation_id(&self) -> Seq<char> {
        self.invitation_id@
    }

    fn invitation_id(&self) -> (r: &str) {
        self.invitation_id.as_str()
    }
}

impl ThreadId for ResponseSent {
    open spec fn spec_thread_id(&self) -> Seq<char> {
        self.request_id@
    }

    fn thread_id(&self) -> (r: &str) {
        self.request_id.as_str()
    }
}

impl RequestId for ResponseSent {
    open spec fn spec_request_id(&self) -> Seq<char> {
        self.request_id@
    }

    fn request_id(&self) -> (r: &str) {
        self.request_id.as_str()
    }
}

impl InvitationId for ResponseSent {
    open spec fn spec_invitation_id(&self) -> Seq<char> {
        self.invitation_id@
    }

    fn invitation_id(&self) -> (r: &str) {
        self.invitation_id.as_str()
    }
}

impl ThreadId for Completed {
    open spec fn spec_thread_id(&self) -> Seq<char> {
        self.request_id@
    }

    fn thread_id(&self) -> (r: &str) {
        self.request_id.as_str()
    }
}

impl ThreadId for Abandoned {
    open spec fn spec_thread_id(&self) -> Seq<char> {
        self.request_id@
    }

    fn thread_id(&self) -> (r: &str) {
        self.request_id.as_str()
    }
}

impl HandleProblem for RequestSent {

}

impl HandleProblem for ResponseSent {

}

/// The new state that a transition reached, and the message it produced.
pub struct TransitionResult<T, U> {
    pub state: T,
    pub output: U,
}

impl<T, U> From<(T, U)> for TransitionResult<T, U> {
    fn from(value: (T, U)) -> TransitionResult<T, U> {
        TransitionResult { state: value.0, output: value.1 }
    }
}

impl<T, U> vstd::std_specs::convert::FromSpecImpl<(T, U)> for TransitionResult<T, U> {
    open spec fn obeys_from_spec() -> bool {
        true
    }

    open spec fn from_spec(v: (T, U)) -> TransitionResult<T, U> {
        TransitionResult { state: v.0, output: v.1 }
    }
}

/// A refused transition: the unchanged state, and why it was refused.
pub struct TransitionError<T> {
    pub state: T,
    pub error: AriesVcxError,
}

/// An exchange in state `S`, opened by the party that `I` marks.
#[derive(Debug, PartialEq, Eq)]
pub struct DidExchangeProtocol<I, S> {
    initiation_type: I,
    state: S,
}

pub type DidExchangeRequester<S> = DidExchangeProtocol<Requester, S>;

pub type DidExchangeResponder<S> = DidExchangeProtocol<Responder, S>;

impl<I, S> DidExchangeProtocol<I, S> {
    pub closed spec fn spec_state(&self) -> S {
        self.state
    }

    pub closed spec fn spec_initiation_type(&self) -> I {
        self.initiation_type
    }

    pub fn from_parts(initiation_type: I, state: S) -> (r: DidExchangeProtocol<I, S>)
        ensures
            r.spec_state() == state,
            r.spec_initiation_type() == initiation_type,
    {
        DidExchangeProtocol { initiation_type, state }
    }

    pub fn into_parts(self) -> (r: (I, S))
        ensures
            r.0 == self.spec_initiation_type(),
            r.1 == self.spec_state(),
    {
        let DidExchangeProtocol { initiation_type, state } = self;
        (initiation_type, state)
    }

    pub fn state(&self) -> (r: &S)
        ensures
            *r == self.spec_state(),
    {
        &self.state
    }
}

impl<I, S: ThreadId> DidExchangeProtocol<I, S> {
    pub fn thread_id(&self) -> (r: &str)
        ensures
            r@ == self.spec_state().spec_thread_id(),
    {
        self.state.thread_id()
    }
}

/// What the requester puts into its request.
pub struct DidExchangeRequestParams {
    pub invitation_id: String,
    pub label: String,
    pub goal: Option<String>,
    pub goal_code: Option<String>,
    pub did: Did,
    pub did_doc: Option<DidDocumentSov>,
}

/// What the responder answers a request with.
pub struct DidExchangeResponseParams {
    pub request: Request,
    pub did: Did,
    pub did_doc: Option<DidDocumentSov>,
    pub invitation_id: String,
}

/// `a` is the JSON attachment of `d`, or both are absent.
pub open spec fn attaches(a: Option<Attachment>, d: Option<DidDocumentSov>) -> bool {
    match (a, d) {
        (None, None) => true,
        (Some(a), Some(d)) => a.data.content matches AttachmentType::Json(j) && j@ == doc_json(d@) && doc_valid(
            d@,
        ),
        _ => false,
    }
}

fn attach_optional(d: &Option<DidDocumentSov>) -> (r: Option<Attachment>)
    ensures
        attaches(r, *d),
{
    match d {
        Some(d) => Some(ddo_sov_to_attach(d)),
        None => None,
    }
}

/// Whether a thread binds to the request `thid` and the invitation `pthid`.
pub open spec fn binds(t: Thread, thid: Seq<char>, pthid: Seq<char>) -> bool {
    t.thid@ == thid && opt_text(t.pthid) == Some(pthid)
}

fn same_text(a: &String, b: &str) -> (r: bool)
    ensures
        r == (a@ == b@),
{
    *a == b.to_owned()
}

fn optional_is(a: &Option<String>, b: &str) -> (r: bool)
    ensures
        r == (opt_text(*a) == Some(b@)),
{
    match a {
        Some(a) => same_text(a, b),
        None => false,
    }
}

/// The complete message under `complete_id` that ends the exchange opened
/// by `request_id` for `invitation_id`.
pub fn construct_complete_message(invitation_id: String, request_id: String, complete_id: String) -> (r: Complete)
    ensures
        r.id == complete_id,
        r.thread.thid == request_id,
        r.thread.pthid == Some(invitation_id),
{
    Complete { id: complete_id, thread: Thread::new(request_id, invitation_id) }
}

impl DidExchangeRequester<RequestSent> {
    /// Opens an exchange: the request carries the given id, our DID (and its
    /// document, if given) and a thread bound to itself and to the invitation.
    pub fn construct_request(params: DidExchangeRequestParams, request_id: String) -> (r: TransitionResult<
        DidExchangeRequester<RequestSent>,
        Request,
    >)
        ensures
            r.output.id@ == request_id@,
            r.output.label == params.label,
            r.output.goal == params.goal,
            r.output.goal_code == params.goal_code,
            r.output.did@ == params.did@,
            attaches(r.output.did_doc, params.did_doc),
            r.output.thread matches Some(t) && binds(t, request_id@, params.invitation_id@),
            r.state.spec_state().request_id@ == request_id@,
            r.state.spec_state().invitation_id@ == params.invitation_id@,
    {
        let DidExchangeRequestParams { invitation_id, label, goal, goal_code, did, did_doc } = params;
        let thread = Thread::new(request_id.clone(), invitation_id.clone());
        let request = Request {
            id: request_id.clone(),
            label,
            goal,
            goal_code,
            did: did.to_string(),
            did_doc: attach_optional(&did_doc),
            thread: Some(thread),
        };
        TransitionResult {
            state: DidExchangeProtocol::from_parts(Requester, RequestSent { request_id, invitation_id }),
            output: request,
        }
    }

    /// Answers a response whose thread is bound to our request with a
    /// complete message; refuses any other response with `InvalidState`,
    /// handing the state back unchanged.
    pub fn construct_complete(self, response: &Response, complete_id: String) -> (r: Result<
        TransitionResult<DidExchangeRequester<Completed>, Complete>,
        TransitionError<DidExchangeRequester<RequestSent>>,
    >)
        ensures
            r is Ok <==> response.thread.thid@ == self.spec_state().request_id@,
            r matches Ok(t) ==> {
                &&& t.output.id@ == complete_id@
                &&& binds(t.output.thread, self.spec_state().request_id@, self.spec_state().invitation_id@)
                &&& t.state.spec_state().request_id@ == self.spec_state().request_id@
                &&& t.state.spec_state().invitation_id@ == self.spec_state().invitation_id@
            },
            r matches Err(e) ==> e.state == self && e.error.kind == AriesVcxErrorKind::InvalidState,
    {
        if !same_text(&response.thread.thid, self.state.request_id()) {
            return Err(TransitionError {
                state: self,
                error: AriesVcxError::from_msg(
                    AriesVcxErrorKind::InvalidState,
                    "thread id of the response does not match the id of the request",
                ),
            });
        }
        let (_, RequestSent { request_id, invitation_id }) = self.into_parts();
        let complete = construct_complete_message(invitation_id.clone(), request_id.clone(), complete_id);
        Ok(TransitionResult {
            state: DidExchangeProtocol::from_parts(Requester, Completed { invitation_id, request_id }),
            output: complete,
        })
    }
}

/// The parent thread id that a request carries, if any.
pub open spec fn request_pthid(request: Request) -> Option<Seq<char>> {
    match request.thread {
        Some(t) => opt_text(t.pthid),
        None => None,
    }
}

impl DidExchangeResponder<ResponseSent> {
    /// Answers a request whose parent thread is the given invitation; the
    /// response is bound to the request and the invitation. Refuses a request
    /// for another invitation with `InvalidState`.
    pub fn construct_response(params: DidExchangeResponseParams) -> (r: Result<
        TransitionResult<DidExchangeResponder<ResponseSent>, Response>,
        AriesVcxError,
    >)
        ensures
            r is Ok <==> request_pthid(params.request) == Some(params.invitation_id@),
            r matches Ok(t) ==> {
                &&& t.output.id@ == params.request.id@
                &&& t.output.did@ == params.did@
                &&& attaches(t.output.did_doc, params.did_doc)
                &&& binds(t.output.thread, params.request.id@, params.invitation_id@)
                &&& t.state.spec_state().request_id@ == params.request.id@
                &&& t.state.spec_state().invitation_id@ == params.invitation_id@
            },
            r matches Err(e) ==> e.kind == AriesVcxErrorKind::InvalidState,
    {
        let DidExchangeResponseParams { request, did, did_doc, invitation_id } = params;
        let bound = match &request.thread {
            Some(t) => optional_is(&t.pthid, invitation_id.as_str()),
            None => false,
        };
        if !bound {
            return Err(AriesVcxError::from_msg(
                AriesVcxErrorKind::InvalidState,
                "parent thread id of the request does not match the id of the invitation",
            ));
        }
        let response = Response {
            id: request.id.clone(),
            did: did.to_string(),
            did_doc: attach_optional(&did_doc),
            thread: Thread::new(request.id.clone(), invitation_id.clone()),
        };
        Ok(TransitionResult {
            state: DidExchangeProtocol::from_parts(
                Responder,
                ResponseSent { request_id: request.id, invitation_id },
            ),
            output: response,
        })
    }

    /// Accepts a complete message bound to our request and to the invitation;
    /// refuses any other with `InvalidState`, handing the state back unchanged.
    pub fn receive_complete(self, complete: &Complete) -> (r: Result<
        DidExchangeResponder<Completed>,
        TransitionError<DidExchangeResponder<ResponseSent>>,
    >)
        ensures
            r is Ok <==> binds(complete.thread, self.spec_state().request_id@, self.spec_state().invitation_id@),
            r matches Ok(s) ==> s.spec_state().request_id@ == self.spec_state().request_id@
                && s.spec_state().invitation_id@ == self.spec_state().invitation_id@,
            r matches Err(e) ==> e.state == self && e.error.kind == AriesVcxErrorKind::InvalidState,
    {
        if !same_text(&complete.thread.thid, self.state.request_id()) {
            return Err(TransitionError {
                state: self,
                error: AriesVcxError::from_msg(
                    AriesVcxErrorKind::InvalidState,
                    "thread id of the complete message does not match the id of the request",
                ),
            });
        }
        if !optional_is(&complete.thread.pthid, self.state.invitation_id()) {
            return Err(TransitionError {
                state: self,
                error: AriesVcxError::from_msg(
                    AriesVcxErrorKind::InvalidState,
                    "parent thread id of the complete message does not match the id of the invitation",
                ),
            });
        }
        let (_, ResponseSent { request_id, invitation_id }) = self.into_parts();
        Ok(DidExchangeProtocol::from_parts(Responder, Completed { invitation_id, request_id }))
    }
}

impl<I, S: RequestId + InvitationId> DidExchangeProtocol<I, S> {
    /// Gives the exchange up: the abandoned state keeps the reason and the
    /// request id, and the problem report tells the counterparty.
    pub fn fail(self, reason: String, code: String, problem_id: String) -> (r: (
        DidExchangeProtocol<I, Abandoned>,
        ProblemReport,
    ))
        ensures
            r.0.spec_state().reason@ == reason@,
            r.0.spec_state().request_id@ == self.spec_state().spec_request_id(),
            r.0.spec_initiation_type() == self.spec_initiation_type(),
            r.1.id@ == problem_id@,
            r.1.code@ == code@,
            r.1.explanation@ == reason@,
            binds(r.1.thread, self.spec_state().spec_request_id(), self.spec_state().spec_invitation_id()),
    {
        let request_id = self.state.request_id().to_owned();
        let invitation_id = self.state.invitation_id().to_owned();
        let report = ProblemReport {
            id: problem_id,
            code,
            explanation: reason.clone(),
            thread: Thread::new(request_id.clone(), invitation_id),
        };
        let (initiation_type, _) = self.into_parts();
        (DidExchangeProtocol::from_parts(initiation_type, Abandoned { reason, request_id }), report)
    }
}

} // verus!
