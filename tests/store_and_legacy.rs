use did_exchange::attachment::decode_base64_payload;
use did_exchange::exchange::request_binds;
use did_exchange::attachment::{attach_to_ddo_sov, Attachment, AttachmentData, AttachmentType};
use did_exchange::did::Did;
use did_exchange::document::{DidDocumentSov, PublicKeyField, VerificationMethodType};
use did_exchange::error::AriesVcxErrorKind;
use did_exchange::exchange::{delivery_endpoint, PairwiseConstructRequestConfig, PublicConstructRequestConfig, ReceiveRequestConfig};
use did_exchange::exchange_store::ServiceDidExchange;
use did_exchange::generic::{GenericDidExchange, RequesterState, ResponderState};
use did_exchange::json::JsonValue;
use did_exchange::key::{Key, KeyType};
use did_exchange::legacy::{
    from_did_doc_sov_to_legacy, from_legacy_did_doc_to_sov, from_legacy_service_to_service_sov,
    from_service_sov_to_legacy, legacy_did_doc_from_json, AriesDidDoc, AriesService,
};
use did_exchange::messages::{Complete, Thread};
use did_exchange::out_of_band::ServiceOutOfBand;
use did_exchange::protocol::TransitionResult;
use did_exchange::schema::{OneOrList, Uri, Url};
use did_exchange::service::{construct_service, did_doc_from_keys};

fn key(seed: u8, t: KeyType) -> Key {
    Key::new((0..32u8).map(|i| i.wrapping_mul(5).wrapping_add(seed)).collect(), t)
}

fn legacy_service() -> AriesService {
    AriesService {
        id: "did:example:legacy;indy".to_string(),
        recipient_keys: vec!["8HH5gYEeNc3z7PYXmd54d4x6qAfCNrqQqEB3nS7Zfu7K".to_string()],
        routing_keys: vec!["route".to_string()],
        service_endpoint: "http://legacy.example/endpoint".to_string(),
    }
}

#[test]
fn legacy_document_converts() {
    let doc = from_legacy_did_doc_to_sov(AriesDidDoc { id: "did:example:legacy".to_string(), service: vec![legacy_service()] }).unwrap();
    assert_eq!(doc.id().did(), "did:example:legacy");
    let vm = &doc.verification_method()[0];
    assert_eq!(vm.verification_method_type(), VerificationMethodType::Ed25519VerificationKey2018);
    assert_eq!(vm.public_key(), &PublicKeyField::Base58 { public_key_base58: "8HH5gYEeNc3z7PYXmd54d4x6qAfCNrqQqEB3nS7Zfu7K".to_string() });
    assert_eq!(doc.service()[0].service_endpoint().as_str(), "http://legacy.example/endpoint");
    assert_eq!(doc.service()[0].extra().routing_keys, vec!["route".to_string()]);
    assert_eq!(doc.controller(), Some(&OneOrList::List(vec![Did::parse("did:example:legacy".to_string()).unwrap()])));

    let no_service = from_legacy_did_doc_to_sov(AriesDidDoc { id: "did:example:legacy".to_string(), service: vec![] });
    assert_eq!(no_service.err().unwrap().kind, AriesVcxErrorKind::ResolutionError);
    let bad_id = from_legacy_did_doc_to_sov(AriesDidDoc { id: "legacy".to_string(), service: vec![legacy_service()] });
    assert_eq!(bad_id.err().unwrap().kind, AriesVcxErrorKind::InvalidDid);
}

#[test]
fn services_convert_both_ways() {
    let sov = from_legacy_service_to_service_sov(legacy_service());
    assert_eq!(sov.id().as_str(), "did:example:legacy;indy");
    assert_eq!(sov.service_type(), &OneOrList::One("did-communication".to_string()));
    let back = from_service_sov_to_legacy(&sov);
    assert_eq!(back, legacy_service());
}

#[test]
fn document_to_legacy_needs_a_service() {
    let did = Did::parse("did:example:1".to_string()).unwrap();
    let ver = key(1, KeyType::Ed25519);
    let enc = key(2, KeyType::X25519);
    let service = construct_service(vec![], vec![enc.did_key()], Url::new("http://one.example/e").unwrap());
    let doc = did_doc_from_keys(did, &ver, &enc, service);
    let legacy = from_did_doc_sov_to_legacy(&doc).unwrap();
    assert_eq!(legacy.id, "did:example:1");
    assert_eq!(legacy.service[0].service_endpoint, "http://one.example/e");
    assert_eq!(legacy.service[0].recipient_keys, vec![ver.base58()]);
    assert_eq!(delivery_endpoint(&doc).unwrap().as_str(), "http://one.example/e");

    let bare = DidDocumentSov::builder(Did::parse("did:example:2".to_string()).unwrap()).build();
    assert_eq!(from_did_doc_sov_to_legacy(&bare).err().unwrap().kind, AriesVcxErrorKind::InvalidState);
    assert_eq!(delivery_endpoint(&bare).err().unwrap().kind, AriesVcxErrorKind::InvalidUrl);
}

fn legacy_json() -> JsonValue {
    JsonValue::Object(vec![
        ("@context".to_string(), JsonValue::Str("https://w3id.org/did/v1".to_string())),
        ("id".to_string(), JsonValue::Str("did:example:legacy".to_string())),
        (
            "authentication".to_string(),
            JsonValue::Array(vec![JsonValue::Object(vec![
                ("type".to_string(), JsonValue::Str("Ed25519SignatureAuthentication2018".to_string())),
                ("publicKey".to_string(), JsonValue::Str("did:example:legacy#1".to_string())),
            ])]),
        ),
        (
            "service".to_string(),
            JsonValue::Array(vec![JsonValue::Object(vec![
                ("id".to_string(), JsonValue::Str("did:example:legacy;indy".to_string())),
                ("type".to_string(), JsonValue::Str("IndyAgent".to_string())),
                ("priority".to_string(), JsonValue::Number(0)),
                ("recipientKeys".to_string(), JsonValue::Array(vec![JsonValue::Str("8HH5gYEeNc3z7PYXmd54d4x6qAfCNrqQqEB3nS7Zfu7K".to_string())])),
                ("routingKeys".to_string(), JsonValue::Array(vec![JsonValue::Str("route".to_string())])),
                ("serviceEndpoint".to_string(), JsonValue::Str("http://legacy.example/endpoint".to_string())),
            ])]),
        ),
    ])
}

#[test]
fn base64_attachment_falls_back_to_the_older_format() {
    let parsed = legacy_did_doc_from_json(&legacy_json()).unwrap();
    assert_eq!(parsed.service, vec![legacy_service()]);
    let a = Attachment { data: AttachmentData { content: AttachmentType::Base64(legacy_json()) } };
    let doc = attach_to_ddo_sov(&a).unwrap();
    assert_eq!(doc.id().did(), "did:example:legacy");
    assert_eq!(doc.service()[0].service_endpoint().as_str(), "http://legacy.example/endpoint");
    let json = Attachment { data: AttachmentData { content: AttachmentType::Json(legacy_json()) } };
    assert_eq!(attach_to_ddo_sov(&json).err().unwrap().kind, AriesVcxErrorKind::SerializationError);
}

#[test]
fn exchange_store_public_request_gets_a_fresh_id() {
    let mut store = ServiceDidExchange::new();
    let config = PublicConstructRequestConfig {
        their_did: Did::parse("did:example:bob".to_string()).unwrap(),
        our_did: Did::parse("did:example:alice".to_string()).unwrap(),
        their_service: legacy_service(),
        our_verkey: key(10, KeyType::X25519).base58(),
    };
    let (id, request) = store.send_request_public(config).unwrap();
    assert_eq!(id.len(), 36);
    assert!(store.exists_by_id(&id));
    assert_eq!(request.thread.unwrap().pthid, Some("did:example:bob#did:example:legacy;indy".to_string()));
}

#[test]
fn transition_result_from_pair() {
    let t: TransitionResult<u8, &str> = TransitionResult::from((1u8, "out"));
    assert_eq!(t.state, 1);
    assert_eq!(t.output, "out");
}

#[test]
fn exchange_store_runs_both_sides() {
    let alice_ver = key(1, KeyType::Ed25519);
    let alice_enc = key(2, KeyType::X25519);
    let mut oob = ServiceOutOfBand::new(Url::new("http://alice.example/endpoint").unwrap());
    oob.create_invitation(&alice_enc, Uri::default(), "inv-1".to_string());
    let invitation = oob.get_invitation(&"inv-1".to_string()).unwrap().clone();
    let alice_doc = did_doc_from_keys(
        Did::parse("did:peer:2.alice".to_string()).unwrap(),
        &alice_ver,
        &alice_enc,
        construct_service(vec![], vec![alice_enc.did_key()], Url::new("http://alice.example/endpoint").unwrap()),
    );

    let mut bob_store = ServiceDidExchange::new();
    let (exchange_id, request) = bob_store
        .send_request_pairwise(PairwiseConstructRequestConfig {
            invitation,
            service_endpoint: Url::new("http://bob.example/endpoint").unwrap(),
            routing_keys: vec![],
            key_ver: key(3, KeyType::Ed25519),
            key_enc: key(4, KeyType::X25519),
            their_did_document: alice_doc,
        })
        .unwrap();
    assert_eq!(exchange_id, "inv-1");
    assert!(bob_store.exists_by_id(&"inv-1".to_string()));
    assert!(matches!(bob_store.get(&"inv-1".to_string()).unwrap(), GenericDidExchange::Requester(RequesterState::RequestSent(_))));
    let request_id = request.id.clone();

    let mut alice_store = ServiceDidExchange::new();
    let response = alice_store
        .send_response(ReceiveRequestConfig {
            request,
            service_endpoint: Url::new("http://alice.example/endpoint").unwrap(),
            routing_keys: vec![],
            invitation_id: "inv-1".to_string(),
            key_ver: key(1, KeyType::Ed25519),
            key_enc: key(2, KeyType::X25519),
            resolved: None,
        })
        .unwrap();
    assert!(alice_store.exists_by_id(&request_id));

    let wrong = Complete { id: "c".to_string(), thread: Thread { thid: "other".to_string(), pthid: Some("inv-1".to_string()) } };
    assert_eq!(alice_store.receive_complete(&request_id, &wrong).err().unwrap().kind, AriesVcxErrorKind::InvalidState);
    assert!(matches!(alice_store.get(&request_id).unwrap(), GenericDidExchange::Responder(ResponderState::ResponseSent(_))));
    assert_eq!(alice_store.receive_complete(&"nothing".to_string(), &wrong).err().unwrap().kind, AriesVcxErrorKind::NotFound);

    let complete = bob_store.send_complete(&"inv-1".to_string(), response, None).unwrap();
    assert!(matches!(bob_store.get(&"inv-1".to_string()).unwrap(), GenericDidExchange::Requester(RequesterState::Completed(_))));
    alice_store.receive_complete(&request_id, &complete).unwrap();
    assert!(matches!(alice_store.get(&request_id).unwrap(), GenericDidExchange::Responder(ResponderState::Completed(_))));
}

#[test]
fn multibase_keys_are_written_in_base58_for_the_older_format() {
    let did = Did::parse("did:example:mb".to_string()).unwrap();
    let k = key(7, KeyType::Ed25519);
    let vm = did_exchange::document::VerificationMethod::new(
        did_exchange::did::DidUrl::from_did(&did),
        did.clone(),
        VerificationMethodType::Ed25519VerificationKey2020,
        PublicKeyField::Multibase { public_key_multibase: k.fingerprint() },
    );
    let doc = DidDocumentSov::builder(did)
        .add_service(construct_service(vec![], vec![], Url::new("http://mb.example/e").unwrap()))
        .add_verification_method(vm)
        .build();
    let legacy = from_did_doc_sov_to_legacy(&doc).unwrap();
    assert_eq!(legacy.service[0].recipient_keys, vec![k.base58()]);
    let bad = PublicKeyField::Multibase { public_key_multibase: "m0000".to_string() };
    assert_eq!(bad.base58().err().unwrap().kind, AriesVcxErrorKind::InvalidKey);
}

#[test]
fn base64_payloads_decode_in_the_library() {
    assert_eq!(decode_base64_payload("aGk=").unwrap(), b"hi".to_vec());
    assert_eq!(decode_base64_payload("not base64!").err().unwrap().kind, AriesVcxErrorKind::SerializationError);
}

#[test]
fn request_binding_can_be_checked_first() {
    let request = did_exchange::messages::Request {
        id: "req-1".to_string(),
        label: String::new(),
        goal: None,
        goal_code: None,
        did: "did:example:1".to_string(),
        did_doc: None,
        thread: Some(Thread { thid: "req-1".to_string(), pthid: Some("inv-1".to_string()) }),
    };
    assert!(request_binds(&request, &"inv-1".to_string()));
    assert!(!request_binds(&request, &"inv-2".to_string()));
}

#[test]
fn unknown_invitations_stay_unknown() {
    let mut oob = ServiceOutOfBand::new(Url::new("http://alice.example/endpoint").unwrap());
    oob.receive_invitation(did_exchange::out_of_band::OobInvitation {
        id: "inv-1".to_string(),
        label: None,
        handshake_protocols: None,
        services: vec![],
    })
    .unwrap();
    assert_eq!(oob.get_invitation(&"inv-9".to_string()).err().unwrap().kind, AriesVcxErrorKind::NotFound);
}
