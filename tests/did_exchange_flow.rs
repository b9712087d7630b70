use did_exchange::attachment::{attach_to_ddo_sov, ddo_sov_to_attach, Attachment, AttachmentData, AttachmentType};
use did_exchange::did::{Did, DidUrl};
use did_exchange::document::{DidDocumentSov, PublicKeyField, VerificationMethod, VerificationMethodKind, VerificationMethodType};
use did_exchange::document_json::{did_doc_from_json, did_doc_to_json};
use did_exchange::error::AriesVcxErrorKind;
use did_exchange::legacy::AriesService;
use did_exchange::exchange::{
    ConstructRequestConfig, DidExchangeServiceRequester, DidExchangeServiceResponder,
    PairwiseConstructRequestConfig, PublicConstructRequestConfig, ReceiveRequestConfig,
};
use did_exchange::generic::{GenericDidExchange, RequesterState, ResponderState};
use did_exchange::json::JsonValue;
use did_exchange::key::{Key, KeyType};
use did_exchange::messages::{Complete, Thread};
use did_exchange::out_of_band::{verify_handshake_protocol, OobInvitation, ServiceOutOfBand};
use did_exchange::peer_did::{generate_numalgo2, numalgo2_from_keys, GenericPeerDid, NumalgoKind};
use did_exchange::protocol::{Abandoned, RequestSent, ResponseSent};
use did_exchange::schema::{Uri, Url};
use did_exchange::service::{construct_service, create_our_did_document, did_doc_from_keys};

fn key(seed: u8, t: KeyType) -> Key {
    Key::new((0..32u8).map(|i| i.wrapping_mul(7).wrapping_add(seed)).collect(), t)
}

fn endpoint(s: &str) -> Url {
    Url::new(s).unwrap()
}

fn alice_keys() -> (Key, Key) {
    (key(1, KeyType::Ed25519), key(2, KeyType::X25519))
}

fn bob_keys() -> (Key, Key) {
    (key(3, KeyType::Ed25519), key(4, KeyType::X25519))
}

fn alice_invitation(id: &str) -> OobInvitation {
    let mut oob = ServiceOutOfBand::new(endpoint("http://alice.example/endpoint"));
    let (_, enc) = alice_keys();
    oob.create_invitation(&enc, Uri::default(), id.to_string());
    oob.get_invitation(&id.to_string()).unwrap().clone()
}

/// The document that resolving Alice's invitation gives Bob.
fn alice_invitation_doc() -> DidDocumentSov {
    let (ver, enc) = alice_keys();
    let service = construct_service(vec![], vec![enc.did_key()], endpoint("http://alice.example/endpoint"));
    did_doc_from_keys(Did::parse("did:peer:2.alice".to_string()).unwrap(), &ver, &enc, service)
}

fn bob_request(invitation: OobInvitation, request_id: &str) -> (DidExchangeServiceRequester<RequestSent>, did_exchange::messages::Request) {
    let (ver, enc) = bob_keys();
    let t = DidExchangeServiceRequester::<RequestSent>::construct_request_pairwise(
        PairwiseConstructRequestConfig {
            invitation,
            service_endpoint: endpoint("http://bob.example/endpoint"),
            routing_keys: vec![],
            key_ver: ver,
            key_enc: enc,
            their_did_document: alice_invitation_doc(),
        },
        request_id.to_string(),
    )
    .unwrap();
    (t.state, t.output)
}

fn receive_config(request: did_exchange::messages::Request, invitation_id: &str) -> ReceiveRequestConfig {
    let (ver, enc) = alice_keys();
    ReceiveRequestConfig {
        request,
        service_endpoint: endpoint("http://alice.example/endpoint"),
        routing_keys: vec![],
        invitation_id: invitation_id.to_string(),
        key_ver: ver,
        key_enc: enc,
        resolved: None,
    }
}

fn base58_key_of(vm: &VerificationMethod) -> String {
    match vm.public_key() {
        PublicKeyField::Base58 { public_key_base58 } => public_key_base58.clone(),
        PublicKeyField::Multibase { public_key_multibase } => public_key_multibase.clone(),
    }
}

fn key_agreement_key(doc: &DidDocumentSov) -> String {
    match &doc.key_agreement()[0] {
        VerificationMethodKind::Resolved(vm) => base58_key_of(vm),
        VerificationMethodKind::Resolvable(_) => panic!("unexpected reference"),
    }
}

#[test]
fn scenario_pairwise_exchange_completes() {
    let invitation = alice_invitation("inv-1");
    assert!(verify_handshake_protocol(&invitation).is_ok());
    let (bob, request) = bob_request(invitation, "req-1");
    let request_id = request.id.clone();
    let request_thread = request.thread.clone().unwrap();
    assert_eq!(request_thread.thid, request_id);
    assert_eq!(request_thread.pthid, Some("inv-1".to_string()));
    assert!(request.did.starts_with("did:peer:2.Ez"));
    assert!(request.did_doc.is_some());

    let t = DidExchangeServiceResponder::<ResponseSent>::receive_request(receive_config(request, "inv-1")).unwrap();
    let (alice, response) = (t.state, t.output);
    assert_eq!(response.thread.thid, request_id);
    assert_eq!(response.thread.pthid, Some("inv-1".to_string()));

    let t = bob.receive_response_with_id(response, None, "complete-1".to_string()).ok().unwrap();
    let (bob_done, complete) = (t.state, t.output);
    assert_eq!(complete.id, "complete-1");
    assert_eq!(complete.thread.thid, request_id);
    assert_eq!(complete.thread.pthid, Some("inv-1".to_string()));

    let alice_done = alice.receive_complete(&complete).ok().unwrap();
    let bob_record = bob_done.to_record();
    let alice_record = alice_done.to_record();

    let (alice_ver, alice_enc) = alice_keys();
    let (bob_ver, bob_enc) = bob_keys();
    assert_eq!(base58_key_of(&bob_record.did_document().verification_method()[0]), alice_ver.base58());
    assert_eq!(key_agreement_key(bob_record.did_document()), alice_record.our_verkey().base58());
    assert_eq!(alice_record.our_verkey().base58(), alice_enc.base58());
    assert_eq!(base58_key_of(&alice_record.did_document().verification_method()[0]), bob_ver.base58());
    assert_eq!(key_agreement_key(alice_record.did_document()), bob_record.our_verkey().base58());
    assert_eq!(bob_record.our_verkey().base58(), bob_enc.base58());
}

#[test]
fn scenario_wrong_invitation_is_refused() {
    let (_, request) = bob_request(alice_invitation("inv-1"), "req-1");
    let r = DidExchangeServiceResponder::<ResponseSent>::receive_request(receive_config(request, "inv-2"));
    match r {
        Err(e) => assert_eq!(e.kind, AriesVcxErrorKind::InvalidState),
        Ok(_) => panic!("a request for another invitation produced a response"),
    }
}

#[test]
fn scenario_public_did_request() {
    let their_key = key(9, KeyType::Ed25519);
    let ours = key(10, KeyType::X25519);
    let config = PublicConstructRequestConfig {
        their_did: Did::parse("did:example:bob".to_string()).unwrap(),
        our_did: Did::parse("did:example:alice".to_string()).unwrap(),
        their_service: AriesService {
            id: "service-1".to_string(),
            recipient_keys: vec![their_key.base58()],
            routing_keys: vec![],
            service_endpoint: "http://bob.example/endpoint".to_string(),
        },
        our_verkey: ours.base58(),
    };
    let t = DidExchangeServiceRequester::<RequestSent>::construct_request_with_id(
        ConstructRequestConfig::Public(config),
        "req-7".to_string(),
    )
    .unwrap();
    let thread = t.output.thread.clone().unwrap();
    assert_eq!(thread.pthid, Some("did:example:bob#service-1".to_string()));
    assert_eq!(t.state.state().invitation_id, "did:example:bob#service-1");
    assert!(t.output.did_doc.is_none());
    assert_eq!(t.output.did, "did:example:alice");
    assert_eq!(t.state.our_verkey().key(), ours.key());
    assert_eq!(t.state.their_did_doc().id().did(), "did:example:bob");
}

#[test]
fn public_request_needs_a_recipient_key() {
    let config = PublicConstructRequestConfig {
        their_did: Did::parse("did:example:bob".to_string()).unwrap(),
        our_did: Did::parse("did:example:alice".to_string()).unwrap(),
        their_service: AriesService {
            id: "service-1".to_string(),
            recipient_keys: vec![],
            routing_keys: vec![],
            service_endpoint: "http://bob.example/endpoint".to_string(),
        },
        our_verkey: key(10, KeyType::X25519).base58(),
    };
    let r = DidExchangeServiceRequester::<RequestSent>::construct_request_public(config, "req-8".to_string());
    assert_eq!(r.err().unwrap().kind, AriesVcxErrorKind::ResolutionError);
}

#[test]
fn public_request_needs_a_base58_verkey() {
    let config = PublicConstructRequestConfig {
        their_did: Did::parse("did:example:bob".to_string()).unwrap(),
        our_did: Did::parse("did:example:alice".to_string()).unwrap(),
        their_service: AriesService {
            id: "service-1".to_string(),
            recipient_keys: vec![key(9, KeyType::Ed25519).base58()],
            routing_keys: vec![],
            service_endpoint: "http://bob.example/endpoint".to_string(),
        },
        our_verkey: "0OIl".to_string(),
    };
    let r = DidExchangeServiceRequester::<RequestSent>::construct_request_public(config, "req-9".to_string());
    assert_eq!(r.err().unwrap().kind, AriesVcxErrorKind::InvalidKey);
}

#[test]
fn invitation_without_didexchange_is_refused() {
    let mut invitation = alice_invitation("inv-1");
    invitation.handshake_protocols = Some(vec!["https://didcomm.org/connections/1.0".to_string()]);
    assert_eq!(verify_handshake_protocol(&invitation).err().unwrap().kind, AriesVcxErrorKind::InvalidState);
    let (ver, enc) = bob_keys();
    let r = DidExchangeServiceRequester::<RequestSent>::construct_request_pairwise(
        PairwiseConstructRequestConfig {
            invitation,
            service_endpoint: endpoint("http://bob.example/endpoint"),
            routing_keys: vec![],
            key_ver: ver,
            key_enc: enc,
            their_did_document: alice_invitation_doc(),
        },
        "req-1".to_string(),
    );
    assert_eq!(r.err().unwrap().kind, AriesVcxErrorKind::InvalidState);
    let mut none = alice_invitation("inv-1");
    none.handshake_protocols = None;
    assert!(verify_handshake_protocol(&none).is_err());
}

fn responder_waiting() -> (DidExchangeServiceResponder<ResponseSent>, String) {
    let (_, request) = bob_request(alice_invitation("inv-1"), "req-1");
    let t = DidExchangeServiceResponder::<ResponseSent>::receive_request(receive_config(request, "inv-1")).unwrap();
    (t.state, "req-1".to_string())
}

#[test]
fn complete_for_another_request_leaves_state_unchanged() {
    let (alice, _) = responder_waiting();
    let wrong = Complete {
        id: "c".to_string(),
        thread: Thread { thid: "req-other".to_string(), pthid: Some("inv-1".to_string()) },
    };
    let e = alice.receive_complete(&wrong).err().unwrap();
    assert_eq!(e.error.kind, AriesVcxErrorKind::InvalidState);
    assert_eq!(e.state.state(), &ResponseSent { request_id: "req-1".to_string(), invitation_id: "inv-1".to_string() });
    let wrong_parent = Complete {
        id: "c".to_string(),
        thread: Thread { thid: "req-1".to_string(), pthid: Some("inv-9".to_string()) },
    };
    let e = e.state.receive_complete(&wrong_parent).err().unwrap();
    assert_eq!(e.error.kind, AriesVcxErrorKind::InvalidState);
    let right = Complete { id: "c".to_string(), thread: Thread { thid: "req-1".to_string(), pthid: Some("inv-1".to_string()) } };
    assert!(e.state.receive_complete(&right).is_ok());
}

#[test]
fn response_for_another_request_leaves_state_unchanged() {
    let (bob, _) = bob_request(alice_invitation("inv-1"), "req-1");
    let response = did_exchange::messages::Response {
        id: "x".to_string(),
        did: "did:example:x".to_string(),
        did_doc: None,
        thread: Thread { thid: "req-2".to_string(), pthid: Some("inv-1".to_string()) },
    };
    let e = bob.receive_response_with_id(response, Some(alice_invitation_doc()), "c".to_string()).err().unwrap();
    assert_eq!(e.error.kind, AriesVcxErrorKind::InvalidState);
    assert_eq!(e.state.state(), &RequestSent { request_id: "req-1".to_string(), invitation_id: "inv-1".to_string() });
}

#[test]
fn response_without_document_needs_resolution() {
    let (bob, _) = bob_request(alice_invitation("inv-1"), "req-1");
    let response = did_exchange::messages::Response {
        id: "x".to_string(),
        did: "did:example:x".to_string(),
        did_doc: None,
        thread: Thread { thid: "req-1".to_string(), pthid: Some("inv-1".to_string()) },
    };
    let e = bob.receive_response_with_id(response, None, "c".to_string()).err().unwrap();
    assert_eq!(e.error.kind, AriesVcxErrorKind::ResolutionError);
    let response = did_exchange::messages::Response {
        id: "x".to_string(),
        did: "did:example:x".to_string(),
        did_doc: None,
        thread: Thread { thid: "req-1".to_string(), pthid: Some("inv-1".to_string()) },
    };
    let t = e.state.receive_response_with_id(response, Some(alice_invitation_doc()), "c".to_string()).ok().unwrap();
    assert_eq!(t.state.their_did_doc(), &alice_invitation_doc());
}

#[test]
fn fail_on_copies_gives_equal_abandoned_states() {
    let (a, _) = responder_waiting();
    let (b, _) = responder_waiting();
    let (fa, ra) = a.fail("timeout".to_string(), "request_processing_error".to_string(), "p-1".to_string());
    let (fb, rb) = b.fail("timeout".to_string(), "request_processing_error".to_string(), "p-1".to_string());
    assert_eq!(fa.state(), fb.state());
    assert_eq!(fa.state(), &Abandoned { reason: "timeout".to_string(), request_id: "req-1".to_string() });
    assert_eq!(ra, rb);
    assert_eq!(ra.thread.thid, "req-1");
    assert_eq!(ra.thread.pthid, Some("inv-1".to_string()));
    assert_eq!(ra.explanation, "timeout");
}

#[test]
fn attachment_round_trip_gives_the_document() {
    let (ver, enc) = alice_keys();
    let (doc, _) = create_our_did_document(&ver, enc, endpoint("http://alice.example/endpoint"), vec!["route-1".to_string()]);
    let attachment = ddo_sov_to_attach(&doc);
    assert_eq!(attach_to_ddo_sov(&attachment).unwrap(), doc);
    let base64_form = Attachment { data: AttachmentData { content: AttachmentType::Base64(did_doc_to_json(&doc)) } };
    assert_eq!(attach_to_ddo_sov(&base64_form).unwrap(), doc);
}

#[test]
fn attachment_that_is_no_document_is_refused() {
    let a = Attachment { data: AttachmentData { content: AttachmentType::Json(JsonValue::Str("x".to_string())) } };
    assert_eq!(attach_to_ddo_sov(&a).err().unwrap().kind, AriesVcxErrorKind::SerializationError);
    let l = Attachment { data: AttachmentData { content: AttachmentType::Links(vec!["http://x".to_string()]) } };
    assert_eq!(attach_to_ddo_sov(&l).err().unwrap().kind, AriesVcxErrorKind::InvalidJson);
    let no_did = JsonValue::Object(vec![("id".to_string(), JsonValue::Str("not-a-did".to_string()))]);
    assert_eq!(did_doc_from_json(&no_did).err().unwrap().kind, AriesVcxErrorKind::SerializationError);
    let minimal = JsonValue::Object(vec![("id".to_string(), JsonValue::Str("did:example:1".to_string()))]);
    let doc = did_doc_from_json(&minimal).unwrap();
    assert_eq!(doc.id().did(), "did:example:1");
    assert!(doc.verification_method().is_empty());
    assert!(doc.controller().is_none());
}

#[test]
fn our_document_describes_itself() {
    let (ver, enc) = bob_keys();
    let (doc, our_key) = create_our_did_document(&ver, enc, endpoint("http://bob.example/endpoint"), vec![]);
    let (_, enc) = bob_keys();
    assert_eq!(our_key.key(), enc.key());
    let expected = numalgo2_from_keys(&enc, &ver);
    assert_eq!(doc.id(), &expected);
    assert_eq!(generate_numalgo2(&doc).unwrap(), expected);
    assert_eq!(doc.verification_method()[0].id().as_str(), expected.did());
    assert_eq!(doc.service()[0].extra().recipient_keys, vec![enc.did_key()]);
    assert!(enc.did_key().starts_with("did:key:z"));
    let parsed = GenericPeerDid::parse(expected).unwrap();
    assert!(matches!(parsed.numalgo(), NumalgoKind::MultipleInceptionKeys(_)));
}

#[test]
fn peer_did_needs_base58_keys() {
    let doc = DidDocumentSov::builder(Did::parse("did:example:1".to_string()).unwrap()).build();
    assert_eq!(generate_numalgo2(&doc).err().unwrap().kind, AriesVcxErrorKind::InvalidKey);
}

#[test]
fn did_parse_accepts_only_dids() {
    let d = Did::parse("did:example:123456".to_string()).unwrap();
    assert_eq!(d.method(), "example");
    assert_eq!(d.id(), "123456");
    for bad in ["", "did:", "did::x", "did:Example:x", "did:example:", "did:example:a#b", "dix:example:a", "did:example"] {
        assert_eq!(Did::parse(bad.to_string()).err().unwrap().kind, AriesVcxErrorKind::InvalidDid, "{bad}");
    }
    assert!(GenericPeerDid::parse(Did::parse("did:example:2".to_string()).unwrap()).is_err());
    assert!(GenericPeerDid::parse(Did::parse("did:peer:1.123".to_string()).unwrap()).is_err());
    let p3 = GenericPeerDid::parse(Did::parse("did:peer:3.zabc".to_string()).unwrap()).unwrap();
    assert!(matches!(p3.numalgo(), NumalgoKind::DidShortening(_)));
}

#[test]
fn key_encodings() {
    let k = Key::new(vec![0, 0, 1], KeyType::Ed25519);
    assert_eq!(k.base58(), "112");
    assert_eq!(Key::from_base58("112", KeyType::Ed25519).unwrap().key(), &vec![0u8, 0, 1]);
    assert_eq!(Key::from_base58("0", KeyType::Ed25519).err().unwrap().kind, AriesVcxErrorKind::InvalidKey);
    assert_eq!(k.prefixed_bytes(), vec![0xed, 0x01, 0, 0, 1]);
    let x = Key::new(vec![7], KeyType::X25519);
    assert_eq!(x.prefixed_bytes(), vec![0xec, 0x01, 7]);
    assert!(k.fingerprint().starts_with('z'));
    assert_eq!(k.did_key(), format!("did:key:{}", k.fingerprint()));
}

#[test]
fn dereference_key_finds_first_match() {
    let did = Did::parse("did:example:1".to_string()).unwrap();
    let (ver, enc) = alice_keys();
    let service = construct_service(vec![], vec![], endpoint("http://x.example"));
    let doc = did_doc_from_keys(did, &ver, &enc, service);
    let found = doc.dereference_key(&DidUrl::new("did:example:1".to_string())).unwrap();
    assert_eq!(found.verification_method_type(), VerificationMethodType::Ed25519VerificationKey2020);
    assert!(doc.dereference_key(&DidUrl::new("did:example:2".to_string())).is_none());
}

#[test]
fn generic_dispatch_routes_and_refuses() {
    let (bob, request) = bob_request(alice_invitation("inv-1"), "req-1");
    let (alice, response) = match GenericDidExchange::handle_request(receive_config(request, "inv-1")) {
        Ok(x) => x,
        Err(_) => panic!("request refused"),
    };
    let wrong = Complete { id: "c".to_string(), thread: Thread { thid: "req-1".to_string(), pthid: Some("inv-1".to_string()) } };
    let bob = GenericDidExchange::Requester(RequesterState::RequestSent(bob));
    let (bob, e) = match bob.handle_complete(&wrong) {
        Err(x) => x,
        Ok(_) => panic!("a requester took a complete message"),
    };
    assert_eq!(e.kind, AriesVcxErrorKind::InvalidState);
    let (bob, complete) = match bob.handle_response(response, None) {
        Ok(x) => x,
        Err(_) => panic!("response refused"),
    };
    assert!(matches!(bob, GenericDidExchange::Requester(RequesterState::Completed(_))));
    let alice = match alice.handle_complete(&complete) {
        Ok(x) => x,
        Err(_) => panic!("complete refused"),
    };
    assert!(matches!(alice, GenericDidExchange::Responder(ResponderState::Completed(_))));
    assert!(alice.fail("late".to_string(), "x".to_string()).is_err());
}

#[test]
fn typed_states_convert_into_the_generic_form() {
    let (bob, _) = bob_request(alice_invitation("inv-1"), "req-1");
    let g = GenericDidExchange::from(bob);
    assert!(matches!(g, GenericDidExchange::Requester(RequesterState::RequestSent(_))));
    assert_eq!(g.our_verkey().base58(), bob_keys().1.base58());
    assert_eq!(g.their_did_doc(), &alice_invitation_doc());
    let (alice, _) = responder_waiting();
    let g: GenericDidExchange = alice.into();
    assert!(matches!(g, GenericDidExchange::Responder(ResponderState::ResponseSent(_))));
}

#[test]
fn out_of_band_store_keeps_invitations_by_id() {
    let mut oob = ServiceOutOfBand::new(endpoint("http://alice.example/endpoint"));
    assert!(!oob.exists_by_id(&"inv-1".to_string()));
    assert_eq!(oob.get_invitation(&"inv-1".to_string()).err().unwrap().kind, AriesVcxErrorKind::NotFound);
    let (_, enc) = alice_keys();
    let id = oob.create_invitation(&enc, Uri::default(), "inv-1".to_string());
    assert_eq!(id, "inv-1");
    assert!(oob.exists_by_id(&"inv-1".to_string()));
    let received = OobInvitation { id: "inv-2".to_string(), label: None, handshake_protocols: None, services: vec![] };
    assert_eq!(oob.receive_invitation(received.clone()).unwrap(), "inv-2");
    assert_eq!(oob.get_invitation(&"inv-2".to_string()).unwrap(), &received);
    let replaced = OobInvitation { id: "inv-2".to_string(), label: Some("again".to_string()), handshake_protocols: None, services: vec![] };
    oob.receive_invitation(replaced.clone()).unwrap();
    assert_eq!(oob.get_invitation(&"inv-2".to_string()).unwrap(), &replaced);
}
