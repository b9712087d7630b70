use did_exchange::did::Did;
use did_exchange::document::DidDocumentSov;
use did_exchange::messages::Request;
use did_exchange::protocol::{
    DidExchangeProtocol, DidExchangeRequestParams, DidExchangeResponseParams, RequestSent, Requester,
    Responder, ResponseSent, TransitionResult,
};
use uuid::Uuid;

fn request_params(invitation_id: String) -> DidExchangeRequestParams {
    DidExchangeRequestParams {
        did: Did::parse("did:peer:2.123".to_string()).unwrap(),
        invitation_id,
        label: "test".to_string(),
        did_doc: None,
        goal: None,
        goal_code: None,
    }
}

fn response_params(request: Request) -> DidExchangeResponseParams {
    let invitation_id = request.thread.clone().unwrap().pthid.unwrap();
    let peer_did = Did::parse("did:peer:1.123".to_string()).unwrap();
    DidExchangeResponseParams {
        invitation_id,
        request,
        did: peer_did.clone(),
        did_doc: Some(DidDocumentSov::builder(peer_did).build()),
    }
}

#[test]
fn test_did_exchange() {
    let invitation_id = Uuid::new_v4().to_string();
    let TransitionResult { state: request_sent_state, output: request } =
        DidExchangeProtocol::<Requester, RequestSent>::construct_request(request_params(invitation_id), Uuid::new_v4().to_string());
    let TransitionResult { state: response_sent_state, output: response } =
        DidExchangeProtocol::<Responder, ResponseSent>::construct_response(response_params(request)).unwrap();
    let TransitionResult { state: _requester_completed, output: complete } = request_sent_state
        .construct_complete(&response, Uuid::new_v4().to_string())
        .ok()
        .unwrap();
    let _responder_completed = response_sent_state.receive_complete(&complete).ok().unwrap();
}

#[test]
fn protocol_response_needs_the_invitation_as_parent() {
    let TransitionResult { output: request, .. } =
        DidExchangeProtocol::<Requester, RequestSent>::construct_request(request_params("inv-1".to_string()), "req-1".to_string());
    let wrong = DidExchangeResponseParams {
        invitation_id: "req-1".to_string(),
        request,
        did: Did::parse("did:peer:1.123".to_string()).unwrap(),
        did_doc: None,
    };
    assert!(DidExchangeProtocol::<Responder, ResponseSent>::construct_response(wrong).is_err());
}
