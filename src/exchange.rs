use vstd::prelude::*;

use crate::attachment::{attach_to_ddo_sov, attached_doc, Attachment};
use crate::did::Did;
use crate::document::{DidDocumentModel, DidDocumentSov, VerificationMethodType};
use crate::document_json::{doc_json, doc_valid};
use crate::error::{AriesVcxError, AriesVcxErrorKind};
use crate::key::{base58_decoding, Key, KeyType};
use crate::messages::{new_message_id, opt_text, Complete, ProblemReport, Request, Response};
use crate::out_of_band::{offers_didexchange, verify_handshake_protocol, OobInvitation};
use crate::peer_did::numalgo2_did;
use crate::protocol::{
    attaches, binds, request_pthid, Abandoned, Completed, DidExchangeProtocol,
    DidExchangeRequestParams, DidExchangeResponseParams, InvitationId, RequestId, RequestSent,
    Requester, Responder, ResponseSent, TransitionError, TransitionResult,
};
use crate::legacy::{did_doc_from_service, service_doc_model, AriesService};
use crate::schema::{texts, Url};
use crate::service::{create_our_did_document, keys_doc_model, our_service_model};

verus! {

/// An exchange in state `S` together with our key and the counterparty's document.
pub struct DidExchangeService<I, S> {
    protocol: DidExchangeProtocol<I, S>,
    our_verkey: Key,
    their_did_document: DidDocumentSov,
}

pub type DidExchangeServiceRequester<S> = DidExchangeService<Requester, S>;

pub type DidExchangeServiceResponder<S> = DidExchangeService<Responder, S>;

impl<I, S> DidExchangeService<I, S> {
    pub closed spec fn spec_state(&self) -> S {
        self.protocol.spec_state()
    }

    pub closed spec fn spec_our_verkey(&self) -> (KeyType, Seq<u8>) {
        self.our_verkey@
    }

    pub closed spec fn spec_their_did_doc(&self) -> DidDocumentModel {
        self.their_did_document@
    }

    pub fn our_verkey(&self) -> (r: &Key)
        ensures
            r@ == self.spec_our_verkey(),
    {
        &self.our_verkey
    }

    pub fn their_did_doc(&self) -> (r: &DidDocumentSov)
        ensures
            r@ == self.spec_their_did_doc(),
    {
        &self.their_did_document
    }

    pub fn state(&self) -> (r: &S)
        ensures
            *r == self.spec_state(),
    {
        self.protocol.state()
    }

    fn from_protocol(protocol: DidExchangeProtocol<I, S>, their_did_document: DidDocumentSov, our_verkey: Key) -> (r:
        DidExchangeService<I, S>)
        ensures
            r.spec_state() == protocol.spec_state(),
            r.spec_their_did_doc() == their_did_document@,
            r.spec_our_verkey() == our_verkey@,
            r.protocol == protocol,
            r.our_verkey == our_verkey,
            r.their_did_document == their_did_document,
    {
        DidExchangeService { protocol, our_verkey, their_did_document }
    }
}

impl<I: Default, S> DidExchangeService<I, S> {
    pub fn from_parts(state: S, their_did_document: DidDocumentSov, our_verkey: Key) -> (r: DidExchangeService<I, S>)
        ensures
            r.spec_state() == state,
            r.spec_their_did_doc() == their_did_document@,
            r.spec_our_verkey() == our_verkey@,
    {
        DidExchangeService {
            protocol: DidExchangeProtocol::from_parts(I::default(), state),
            our_verkey,
            their_did_document,
        }
    }
}

/// What the requester needs to answer an invitation: the invitation, where
/// we are reached, our fresh keys, and the inviter's document as the
/// invitation's service resolves to.
pub struct PairwiseConstructRequestConfig {
    pub invitation: OobInvitation,
    pub service_endpoint: Url,
    pub routing_keys: Vec<String>,
    pub key_ver: Key,
    pub key_enc: Key,
    pub their_did_document: DidDocumentSov,
}

/// What the requester needs to contact a public DID: both DIDs, the
/// counterparty's service from the ledger, and our verification key from
/// the ledger in base58.
pub struct PublicConstructRequestConfig {
    pub their_did: Did,
    pub our_did: Did,
    pub their_service: AriesService,
    pub our_verkey: String,
}

pub enum ConstructRequestConfig {
    Pairwise(PairwiseConstructRequestConfig),
    Public(PublicConstructRequestConfig),
}

/// The configurations from which a request can be built: an invitation
/// that offers did-exchange, or a ledger service with a recipient key and
/// our key in base58.
pub open spec fn config_accepted(config: ConstructRequestConfig) -> bool {
    match config {
        ConstructRequestConfig::Pairwise(c) => offers_didexchange(c.invitation),
        ConstructRequestConfig::Public(c) => c.their_service.recipient_keys@.len() > 0 && base58_decoding(
            c.our_verkey@,
        ) is Some,
    }
}

/// The goal that requests of this library state.
pub open spec fn request_goal() -> Seq<char> {
    "To establish a connection"@
}

/// The goal code that requests of this library state.
pub open spec fn request_goal_code() -> Seq<char> {
    "aries.rel.build"@
}

/// A request carrying our DID (and document, when given), bound to itself
/// and to the invitation.
pub open spec fn is_request_for(
    r: Request,
    request_id: Seq<char>,
    invitation_id: Seq<char>,
    our_did: Seq<char>,
    our_doc: Option<DidDocumentModel>,
) -> bool {
    &&& r.id@ == request_id
    &&& r.did@ == our_did
    &&& opt_text(r.goal) == Some(request_goal())
    &&& opt_text(r.goal_code) == Some(request_goal_code())
    &&& r.label@ == Seq::<char>::empty()
    &&& match (r.did_doc, our_doc) {
        (None, None) => true,
        (Some(a), Some(d)) => a.data.content matches crate::attachment::AttachmentType::Json(j) && j@ == doc_json(d)
            && doc_valid(d) && attached_doc(a) == Some(d),
        _ => false,
    }
    &&& r.thread matches Some(t) && binds(t, request_id, invitation_id)
}

/// A request under `request_id` from `our_did`, attaching our document when
/// given, with the goal and goal code that counterparties expect, bound to
/// itself and to the invitation.
pub fn construct_request(invitation_id: String, our_did: Did, our_did_document: Option<DidDocumentSov>, request_id: String) -> (r:
    TransitionResult<DidExchangeProtocol<Requester, RequestSent>, Request>)
    ensures
        is_request_for(
            r.output,
            request_id@,
            invitation_id@,
            our_did@,
            match our_did_document {
                Some(d) => Some(d@),
                None => None,
            },
        ),
        r.state.spec_state().request_id@ == request_id@,
        r.state.spec_state().invitation_id@ == invitation_id@,
{
    let ghost doc = our_did_document;
    let params = DidExchangeRequestParams {
        invitation_id,
        label: String::new(),
        goal: Some("To establish a connection".to_owned()),
        goal_code: Some("aries.rel.build".to_owned()),
        did: our_did,
        did_doc: our_did_document,
    };
    let r = DidExchangeProtocol::construct_request(params, request_id);
    proof {
        if doc is Some {
            crate::laws::lemma_attachment_round_trip_model(doc->Some_0@);
        }
    }
    r
}

/// The document that a public DID's ledger service gives.
pub open spec fn public_doc_model(did: Seq<char>, service: AriesService) -> DidDocumentModel {
    service_doc_model(did, service, VerificationMethodType::Ed25519VerificationKey2020)
}

/// The document of a public DID built from its ledger service; fails with
/// `ResolutionError` when the service lists no recipient key.
pub fn their_did_doc_from_did(their_did: &Did, service: AriesService) -> (r: Result<DidDocumentSov, AriesVcxError>)
    ensures
        r is Ok <==> service.recipient_keys@.len() > 0,
        r matches Ok(d) ==> d@ == public_doc_model(their_did@, service),
        r matches Err(e) ==> e.kind == AriesVcxErrorKind::ResolutionError,
{
    did_doc_from_service(their_did, service, VerificationMethodType::Ed25519VerificationKey2020)
}

/// Our document for an exchange made with the given keys, endpoint and routing keys.
pub open spec fn our_doc(key_ver: (KeyType, Seq<u8>), key_enc: (KeyType, Seq<u8>), endpoint: Seq<char>, routing: Seq<Seq<char>>) -> DidDocumentModel {
    keys_doc_model(
        numalgo2_did(key_enc.1, key_ver.1),
        key_ver.1,
        key_enc.1,
        our_service_model(endpoint, routing, key_enc),
    )
}

/// The parent thread that a request to a public DID names: the DID and the
/// id of its service.
pub open spec fn public_invitation_id(their_did: Seq<char>, service_id: Seq<char>) -> Seq<char> {
    their_did + "#"@ + service_id
}

pub open spec fn opt_doc(d: Option<DidDocumentSov>) -> Option<DidDocumentModel> {
    match d {
        Some(d) => Some(d@),
        None => None,
    }
}

/// The counterparty's document for a message: the attached one, or else the
/// one that resolving its DID gave.
pub open spec fn counterparty_doc(attached: Option<Attachment>, resolved: Option<DidDocumentSov>) -> Option<DidDocumentModel> {
    match attached {
        Some(a) => attached_doc(a),
        None => opt_doc(resolved),
    }
}

/// Reads the counterparty's document from a message's attachment, or else
/// takes the resolved one; fails with `ResolutionError` when there is
/// neither, and as `attach_to_ddo_sov` does for an unreadable attachment.
pub fn their_document(attached: &Option<Attachment>, resolved: Option<DidDocumentSov>) -> (r: Result<DidDocumentSov, AriesVcxError>)
    ensures
        match counterparty_doc(*attached, resolved) {
            Some(m) => r matches Ok(d) && d@ == m,
            None => r matches Err(e) && (if attached is Some {
                e.kind == AriesVcxErrorKind::SerializationError || e.kind == AriesVcxErrorKind::InvalidJson
            } else {
                e.kind == AriesVcxErrorKind::ResolutionError
            }),
        },
{
    match attached {
        Some(a) => attach_to_ddo_sov(a),
        None => match resolved {
            Some(d) => Ok(d),
            None => Err(AriesVcxError::from_msg(
                AriesVcxErrorKind::ResolutionError,
                "the message attaches no document and none was resolved",
            )),
        },
    }
}

fn same_text(a: &String, b: &String) -> (r: bool)
    ensures
        r == (a@ == b@),
{
    *a == *b
}

/// What building a request from an invitation leaves: the request from our
/// new document (attached), bound to itself and to the invitation; the
/// inviter's document and our key-agreement key kept in the state.
pub open spec fn pairwise_outcome(
    c: PairwiseConstructRequestConfig,
    request_id: Seq<char>,
    s: DidExchangeServiceRequester<RequestSent>,
    req: Request,
) -> bool {
    let d = our_doc(c.key_ver@, c.key_enc@, c.service_endpoint@, texts(c.routing_keys@));
    &&& is_request_for(req, request_id, c.invitation.id@, d.id, Some(d))
    &&& s.spec_state().request_id@ == request_id
    &&& s.spec_state().invitation_id@ == c.invitation.id@
    &&& s.spec_their_did_doc() == c.their_did_document@
    &&& s.spec_our_verkey() == c.key_enc@
}

/// What building a request to a public DID leaves: a request from our DID
/// without a document, bound to itself and to `<their DID>#<service id>`;
/// the document of the ledger service and our ledger key in the state.
pub open spec fn public_outcome(
    c: PublicConstructRequestConfig,
    request_id: Seq<char>,
    s: DidExchangeServiceRequester<RequestSent>,
    req: Request,
) -> bool {
    let inv = public_invitation_id(c.their_did@, c.their_service.id@);
    &&& is_request_for(req, request_id, inv, c.our_did@, None)
    &&& s.spec_state().request_id@ == request_id
    &&& s.spec_state().invitation_id@ == inv
    &&& s.spec_their_did_doc() == public_doc_model(c.their_did@, c.their_service)
    &&& s.spec_our_verkey() == (KeyType::X25519, base58_decoding(c.our_verkey@)->Some_0)
}

/// What building a request leaves, in either mode.
pub open spec fn request_outcome(
    config: ConstructRequestConfig,
    request_id: Seq<char>,
    s: DidExchangeServiceRequester<RequestSent>,
    req: Request,
) -> bool {
    match config {
        ConstructRequestConfig::Pairwise(c) => pairwise_outcome(c, request_id, s, req),
        ConstructRequestConfig::Public(c) => public_outcome(c, request_id, s, req),
    }
}

/// Why building a request failed: an invitation without did-exchange, a
/// ledger service without recipient key, or our ledger key not in base58.
pub open spec fn request_error(config: ConstructRequestConfig, e: AriesVcxError) -> bool {
    match config {
        ConstructRequestConfig::Pairwise(_) => e.kind == AriesVcxErrorKind::InvalidState,
        ConstructRequestConfig::Public(c) => if c.their_service.recipient_keys@.len() == 0 {
            e.kind == AriesVcxErrorKind::ResolutionError
        } else {
            e.kind == AriesVcxErrorKind::InvalidKey
        },
    }
}

/// Why a response was refused: it belongs to another request, its
/// attachment holds no document, or there is no document to be had.
pub open spec fn response_refusal(
    before: DidExchangeServiceRequester<RequestSent>,
    response: Response,
    e: AriesVcxError,
) -> bool {
    if response.thread.thid@ != before.spec_state().request_id@ {
        e.kind == AriesVcxErrorKind::InvalidState
    } else if response.did_doc is Some {
        e.kind == AriesVcxErrorKind::SerializationError || e.kind == AriesVcxErrorKind::InvalidJson
    } else {
        e.kind == AriesVcxErrorKind::ResolutionError
    }
}

/// What accepting a response leaves: a complete message bound to the
/// request and the invitation; the ids and our key kept, and the
/// counterparty's document taken from the response or the resolver.
pub open spec fn requester_completes(
    before: DidExchangeServiceRequester<RequestSent>,
    response: Response,
    resolved: Option<DidDocumentSov>,
    after: DidExchangeServiceRequester<Completed>,
    complete: Complete,
) -> bool {
    &&& binds(complete.thread, before.spec_state().request_id@, before.spec_state().invitation_id@)
    &&& after.spec_state().request_id@ == before.spec_state().request_id@
    &&& after.spec_state().invitation_id@ == before.spec_state().invitation_id@
    &&& Some(after.spec_their_did_doc()) == counterparty_doc(response.did_doc, resolved)
    &&& after.spec_our_verkey() == before.spec_our_verkey()
}

/// What accepting a complete message leaves: ids, counterparty document
/// and our key as they were.
pub open spec fn responder_completes(
    before: DidExchangeServiceResponder<ResponseSent>,
    after: DidExchangeServiceResponder<Completed>,
) -> bool {
    &&& after.spec_state().request_id@ == before.spec_state().request_id@
    &&& after.spec_state().invitation_id@ == before.spec_state().invitation_id@
    &&& after.spec_their_did_doc() == before.spec_their_did_doc()
    &&& after.spec_our_verkey() == before.spec_our_verkey()
}

/// Whether a request names `invitation_id` as its parent thread.
pub fn request_binds(request: &Request, invitation_id: &String) -> (r: bool)
    ensures
        r == (request_pthid(*request) == Some(invitation_id@)),
{
    match &request.thread {
        Some(t) => match &t.pthid {
            Some(p) => same_text(p, invitation_id),
            None => false,
        },
        None => false,
    }
}

impl DidExchangeServiceRequester<RequestSent> {
    /// Answers an invitation that offers did-exchange with a request under
    /// the given id; fails with `InvalidState` for any other invitation.
    pub fn construct_request_pairwise(config: PairwiseConstructRequestConfig, request_id: String) -> (r: Result<
        TransitionResult<DidExchangeServiceRequester<RequestSent>, Request>,
        AriesVcxError,
    >)
        ensures
            r is Ok <==> offers_didexchange(config.invitation),
            r matches Err(e) ==> e.kind == AriesVcxErrorKind::InvalidState,
            r matches Ok(t) ==> pairwise_outcome(config, request_id@, t.state, t.output),
    {
        match verify_handshake_protocol(&config.invitation) {
            Ok(()) => {},
            Err(e) => {
                return Err(e);
            },
        }
        let PairwiseConstructRequestConfig {
            invitation,
            service_endpoint,
            routing_keys,
            key_ver,
            key_enc,
            their_did_document,
        } = config;
        let (our_did_document, our_verkey) = create_our_did_document(&key_ver, key_enc, service_endpoint, routing_keys);
        let our_did = our_did_document.id().clone();
        let t = construct_request(invitation.id.clone(), our_did, Some(our_did_document), request_id);
        Ok(TransitionResult {
            state: DidExchangeService::from_protocol(t.state, their_did_document, our_verkey),
            output: t.output,
        })
    }

    /// Contacts a public DID with a request under the given id; the parent
    /// thread is `<their DID>#<service id>`. Fails with `ResolutionError`
    /// when the ledger service lists no recipient key and with `InvalidKey`
    /// when our key from the ledger is not base58.
    pub fn construct_request_public(config: PublicConstructRequestConfig, request_id: String) -> (r: Result<
        TransitionResult<DidExchangeServiceRequester<RequestSent>, Request>,
        AriesVcxError,
    >)
        ensures
            r is Ok <==> config.their_service.recipient_keys@.len() > 0 && base58_decoding(config.our_verkey@) is Some,
            r matches Err(e) ==> (if config.their_service.recipient_keys@.len() == 0 {
                e.kind == AriesVcxErrorKind::ResolutionError
            } else {
                e.kind == AriesVcxErrorKind::InvalidKey
            }),
            r matches Ok(t) ==> public_outcome(config, request_id@, t.state, t.output),
    {
        let PublicConstructRequestConfig { their_did, our_did, their_service, our_verkey } = config;
        let mut invitation_id = their_did.to_string();
        invitation_id.append("#");
        invitation_id.append(their_service.id.as_str());
        let their_did_document = match their_did_doc_from_did(&their_did, their_service) {
            Ok(d) => d,
            Err(e) => {
                return Err(e);
            },
        };
        let key = match Key::from_base58(our_verkey.as_str(), KeyType::X25519) {
            Ok(k) => k,
            Err(e) => {
                return Err(e);
            },
        };
        let t = construct_request(invitation_id, our_did, None, request_id);
        Ok(TransitionResult {
            state: DidExchangeService::from_protocol(t.state, their_did_document, key),
            output: t.output,
        })
    }

    /// Opens an exchange in either mode, under the given request id.
    pub fn construct_request_with_id(config: ConstructRequestConfig, request_id: String) -> (r: Result<
        TransitionResult<DidExchangeServiceRequester<RequestSent>, Request>,
        AriesVcxError,
    >)
        ensures
            r is Ok <==> config_accepted(config),
            r matches Ok(t) ==> request_outcome(config, request_id@, t.state, t.output),
            r matches Err(e) ==> request_error(config, e),
    {
        match config {
            ConstructRequestConfig::Pairwise(c) => Self::construct_request_pairwise(c, request_id),
            ConstructRequestConfig::Public(c) => Self::construct_request_public(c, request_id),
        }
    }

    /// Opens an exchange in either mode under a fresh random request id.
    pub fn construct_request(config: ConstructRequestConfig) -> (r: Result<
        TransitionResult<DidExchangeServiceRequester<RequestSent>, Request>,
        AriesVcxError,
    >)
        ensures
            r is Ok <==> config_accepted(config),
            r matches Ok(t) ==> request_outcome(config, t.output.id@, t.state, t.output),
            r matches Err(e) ==> request_error(config, e),
    {
        Self::construct_request_with_id(config, new_message_id())
    }

    /// Accepts a response bound to our request: the counterparty's document
    /// comes from the response's attachment, or else from `resolved` (what
    /// resolving the response's DID gave), and the complete message carries
    /// `complete_id`. A response for another request is refused with
    /// `InvalidState`; every refusal hands the state back unchanged.
    pub fn receive_response_with_id(self, response: Response, resolved: Option<DidDocumentSov>, complete_id: String) -> (r:
        Result<
        TransitionResult<DidExchangeServiceRequester<Completed>, Complete>,
        TransitionError<DidExchangeServiceRequester<RequestSent>>,
    >)
        ensures
            r is Ok <==> response.thread.thid@ == self.spec_state().request_id@ && counterparty_doc(
                response.did_doc,
                resolved,
            ) is Some,
            r matches Err(e) ==> e.state == self && response_refusal(self, response, e.error),
            r matches Ok(t) ==> t.output.id@ == complete_id@ && requester_completes(
                self,
                response,
                resolved,
                t.state,
                t.output,
            ),
    {
        if !same_text(&response.thread.thid, &self.protocol.state().request_id) {
            return Err(TransitionError {
                state: self,
                error: AriesVcxError::from_msg(
                    AriesVcxErrorKind::InvalidState,
                    "thread id of the response does not match the id of the request",
                ),
            });
        }
        let their_did_document = match their_document(&response.did_doc, resolved) {
            Ok(d) => d,
            Err(error) => {
                return Err(TransitionError { state: self, error });
            },
        };
        let DidExchangeService { protocol, our_verkey, their_did_document: old_document } = self;
        match protocol.construct_complete(&response, complete_id) {
            Ok(t) => Ok(TransitionResult {
                state: DidExchangeService::from_protocol(t.state, their_did_document, our_verkey),
                output: t.output,
            }),
            Err(e) => Err(TransitionError {
                state: DidExchangeService::from_protocol(e.state, old_document, our_verkey),
                error: e.error,
            }),
        }
    }

    /// `receive_response_with_id` with a fresh random id for the complete message.
    pub fn receive_response(self, response: Response, resolved: Option<DidDocumentSov>) -> (r: Result<
        TransitionResult<DidExchangeServiceRequester<Completed>, Complete>,
        TransitionError<DidExchangeServiceRequester<RequestSent>>,
    >)
        ensures
            r is Ok <==> response.thread.thid@ == self.spec_state().request_id@ && counterparty_doc(
                response.did_doc,
                resolved,
            ) is Some,
            r matches Err(e) ==> e.state == self && response_refusal(self, response, e.error),
            r matches Ok(t) ==> requester_completes(self, response, resolved, t.state, t.output),
    {
        self.receive_response_with_id(response, resolved, new_message_id())
    }
}

/// What the responder needs to answer a request: the request, the
/// invitation it should answer, where we are reached, our fresh keys, and
/// what resolving the requester's DID gave (used when the request attaches
/// no document). Run `request_binds` before making the keys or asking the
/// resolver: a request for another invitation needs neither.
pub struct ReceiveRequestConfig {
    pub request: Request,
    pub service_endpoint: Url,
    pub routing_keys: Vec<String>,
    pub invitation_id: String,
    pub key_ver: Key,
    pub key_enc: Key,
    pub resolved: Option<DidDocumentSov>,
}

/// What answering a request leaves: a response under the request's id from
/// our new document, which it attaches so that it reads back, bound to the
/// request and the invitation; the requester's document and our
/// key-agreement key kept in the state.
pub open spec fn response_outcome(
    config: ReceiveRequestConfig,
    s: DidExchangeServiceResponder<ResponseSent>,
    resp: Response,
) -> bool {
    let d = our_doc(config.key_ver@, config.key_enc@, config.service_endpoint@, texts(config.routing_keys@));
    &&& resp.id@ == config.request.id@
    &&& resp.did@ == d.id
    &&& resp.did_doc matches Some(a) && a.data.content matches crate::attachment::AttachmentType::Json(j) && j@
        == doc_json(d) && attached_doc(a) == Some(d)
    &&& binds(resp.thread, config.request.id@, config.invitation_id@)
    &&& s.spec_state().request_id@ == config.request.id@
    &&& s.spec_state().invitation_id@ == config.invitation_id@
    &&& Some(s.spec_their_did_doc()) == counterparty_doc(config.request.did_doc, config.resolved)
    &&& s.spec_our_verkey() == config.key_enc@
}

/// Why a request was refused: it is for another invitation, its attachment
/// holds no document, or there is no document to be had.
pub open spec fn request_refusal(config: ReceiveRequestConfig, e: AriesVcxError) -> bool {
    if request_pthid(config.request) != Some(config.invitation_id@) {
        e.kind == AriesVcxErrorKind::InvalidState
    } else if config.request.did_doc is Some {
        e.kind == AriesVcxErrorKind::SerializationError || e.kind == AriesVcxErrorKind::InvalidJson
    } else {
        e.kind == AriesVcxErrorKind::ResolutionError
    }
}

impl DidExchangeServiceResponder<ResponseSent> {
    /// Answers a request for our invitation with a response that carries our
    /// new document and is bound to the request and the invitation. A
    /// request for another invitation is refused with `InvalidState` before
    /// anything else; a request whose document cannot be had fails as
    /// `their_document` does.
    pub fn receive_request(config: ReceiveRequestConfig) -> (r: Result<
        TransitionResult<DidExchangeServiceResponder<ResponseSent>, Response>,
        AriesVcxError,
    >)
        ensures
            r is Ok <==> request_pthid(config.request) == Some(config.invitation_id@) && counterparty_doc(
                config.request.did_doc,
                config.resolved,
            ) is Some,
            r matches Err(e) ==> request_refusal(config, e),
            r matches Ok(t) ==> response_outcome(config, t.state, t.output),
    {
        let ReceiveRequestConfig { request, service_endpoint, routing_keys, invitation_id, key_ver, key_enc, resolved } =
            config;
        if !request_binds(&request, &invitation_id) {
            return Err(AriesVcxError::from_msg(
                AriesVcxErrorKind::InvalidState,
                "parent thread id of the request does not match the id of the invitation",
            ));
        }
        let their_did_document = match their_document(&request.did_doc, resolved) {
            Ok(d) => d,
            Err(e) => {
                return Err(e);
            },
        };
        let (our_did_document, our_verkey) = create_our_did_document(&key_ver, key_enc, service_endpoint, routing_keys);
        let our_did = our_did_document.id().clone();
        let ghost dm = our_did_document@;
        let params = DidExchangeResponseParams {
            request,
            did: our_did,
            did_doc: Some(our_did_document),
            invitation_id,
        };
        match DidExchangeProtocol::construct_response(params) {
            Ok(t) => {
                proof {
                    crate::laws::lemma_attachment_round_trip_model(dm);
                }
                Ok(TransitionResult {
                    state: DidExchangeService::from_protocol(t.state, their_did_document, our_verkey),
                    output: t.output,
                })
            },
            Err(e) => Err(e),
        }
    }

    /// Accepts a complete message bound to our request and to the
    /// invitation; refuses any other with `InvalidState`, handing the state
    /// back unchanged.
    pub fn receive_complete(self, complete: &Complete) -> (r: Result<
        DidExchangeServiceResponder<Completed>,
        TransitionError<DidExchangeServiceResponder<ResponseSent>>,
    >)
        ensures
            r is Ok <==> binds(complete.thread, self.spec_state().request_id@, self.spec_state().invitation_id@),
            r matches Err(e) ==> e.state == self && e.error.kind == AriesVcxErrorKind::InvalidState,
            r matches Ok(s) ==> responder_completes(self, s),
    {
        let DidExchangeService { protocol, our_verkey, their_did_document } = self;
        match protocol.receive_complete(complete) {
            Ok(p) => Ok(DidExchangeService::from_protocol(p, their_did_document, our_verkey)),
            Err(e) => Err(TransitionError {
                state: DidExchangeService::from_protocol(e.state, their_did_document, our_verkey),
                error: e.error,
            }),
        }
    }
}

impl<I, S: RequestId + InvitationId> DidExchangeService<I, S> {
    /// Gives the exchange up with a reason and a problem code; the problem
    /// report, bound to the exchange's thread, tells the counterparty.
    pub fn fail(self, reason: String, code: String, problem_id: String) -> (r: (
        DidExchangeService<I, Abandoned>,
        ProblemReport,
    ))
        ensures
            r.0.spec_state().reason@ == reason@,
            r.0.spec_state().request_id@ == self.spec_state().spec_request_id(),
            r.0.spec_their_did_doc() == self.spec_their_did_doc(),
            r.0.spec_our_verkey() == self.spec_our_verkey(),
            r.1.id@ == problem_id@,
            r.1.code@ == code@,
            r.1.explanation@ == reason@,
            binds(r.1.thread, self.spec_state().spec_request_id(), self.spec_state().spec_invitation_id()),
    {
        let DidExchangeService { protocol, our_verkey, their_did_document } = self;
        let (abandoned, report) = protocol.fail(reason, code, problem_id);
        (DidExchangeService::from_protocol(abandoned, their_did_document, our_verkey), report)
    }
}

/// Where messages to the owner of a document are delivered: the endpoint of
/// its first service. Fails with `InvalidUrl` when it has no service.
pub fn delivery_endpoint(did_doc: &DidDocumentSov) -> (r: Result<Url, AriesVcxError>)
    ensures
        r is Ok <==> did_doc@.service.len() > 0,
        r matches Ok(u) ==> u@ == did_doc@.service[0].service_endpoint,
        r matches Err(e) ==> e.kind == AriesVcxErrorKind::InvalidUrl,
{
    let services = did_doc.service();
    if services.len() == 0 {
        return Err(AriesVcxError::from_msg(AriesVcxErrorKind::InvalidUrl, "no service in the document"));
    }
    assert(did_doc@.service[0] == crate::document::service_sov_model(services@[0]@));
    Ok(services[0].service_endpoint().clone())
}

/// What a finished exchange leaves: the counterparty's document and our key.
pub struct ConnectionRecord {
    their_did_document: DidDocumentSov,
    our_verkey: Key,
}

impl ConnectionRecord {
    pub closed spec fn spec_did_document(&self) -> DidDocumentModel {
        self.their_did_document@
    }

    pub closed spec fn spec_our_verkey(&self) -> (KeyType, Seq<u8>) {
        self.our_verkey@
    }

    pub fn from_parts(did_document: DidDocumentSov, our_verkey: Key) -> (r: ConnectionRecord)
        ensures
            r.spec_did_document() == did_document@,
            r.spec_our_verkey() == our_verkey@,
    {
        ConnectionRecord { their_did_document: did_document, our_verkey }
    }

    pub fn did_document(&self) -> (r: &DidDocumentSov)
        ensures
            r@ == self.spec_did_document(),
    {
        &self.their_did_document
    }

    pub fn our_verkey(&self) -> (r: &Key)
        ensures
            r@ == self.spec_our_verkey(),
    {
        &self.our_verkey
    }
}

impl<I> DidExchangeService<I, Completed> {
    /// The record that a completed exchange hands on.
    pub fn to_record(self) -> (r: ConnectionRecord)
        ensures
            r.spec_did_document() == self.spec_their_did_doc(),
            r.spec_our_verkey() == self.spec_our_verkey(),
    {
        ConnectionRecord::from_parts(self.their_did_document, self.our_verkey)
    }
}

} // verus!
