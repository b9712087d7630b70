use vstd::prelude::*;
use vstd::string::*;

use crate::did::{is_did, Did, DidUrl};
use crate::document::{
    built_model, service_sov_model, DidDocumentModel, DidDocumentSov, DidDocumentSovBuilderModel,
    ExtraFieldsSov, PublicKeyField, PublicKeyModel, ServiceSov, ServiceSovModel,
    VerificationMethod, VerificationMethodKindModel, VerificationMethodModel,
    VerificationMethodType,
};
use crate::key::{base58_decoding, base58_encoding, key_fingerprint, Key, KeyType};
use crate::peer_did::{generate_numalgo2, numalgo2_did, numalgo2_keys};
use crate::schema::{texts, OneOrList, OneOrListView, Service, Uri, Url};

verus! {

/// The DIDComm service that our documents carry: no id of its own, one
/// `did-communication` type, priority 0.
pub open spec fn service_model(
    endpoint: Seq<char>,
    routing_keys: Seq<Seq<char>>,
    recipient_keys: Seq<Seq<char>>,
) -> ServiceSovModel {
    ServiceSovModel {
        id: Seq::empty(),
        service_type: OneOrListView::One("did-communication"@),
        service_endpoint: endpoint,
        priority: 0,
        recipient_keys,
        routing_keys,
        accept: Seq::empty(),
    }
}

/// A DIDComm service reaching `service_endpoint` through the routing keys.
pub fn construct_service(routing_keys: Vec<String>, recipient_keys: Vec<String>, service_endpoint: Url) -> (r:
    ServiceSov)
    ensures
        service_sov_model(r@) == service_model(service_endpoint@, texts(routing_keys@), texts(recipient_keys@)),
{
    let extra = ExtraFieldsSov { priority: 0, recipient_keys, routing_keys, accept: Vec::new() };
    let r = Service::from_parts(
        Uri::default(),
        OneOrList::One("did-communication".to_owned()),
        service_endpoint,
        extra,
    );
    assert(service_sov_model(r@).accept =~= Seq::empty());
    r
}

/// A verification method of `did` holding a key in base58.
pub open spec fn key_method(did: Seq<char>, t: VerificationMethodType, key: Seq<u8>) -> VerificationMethodModel {
    VerificationMethodModel {
        id: did,
        controller: did,
        method_type: t,
        public_key: PublicKeyModel::Base58(base58_encoding(key)),
    }
}

/// The document of `did` with one signing key, one key-agreement key and
/// one service.
pub open spec fn keys_doc_model(did: Seq<char>, ver: Seq<u8>, enc: Seq<u8>, service: ServiceSovModel) -> DidDocumentModel {
    built_model(
        DidDocumentSovBuilderModel {
            id: did,
            controller: Seq::empty(),
            verification_method: seq![key_method(did, VerificationMethodType::Ed25519VerificationKey2020, ver)],
            key_agreement: seq![
                VerificationMethodKindModel::Resolved(
                    key_method(did, VerificationMethodType::X25519KeyAgreementKey2020, enc),
                ),
            ],
            service: seq![service],
        },
    )
}

fn key_method_of(did: &Did, t: VerificationMethodType, key: &Key) -> (r: VerificationMethod)
    ensures
        r@ == key_method(did@, t, key@.1),
        base58_decoding(base58_encoding(key@.1)) == Some(key@.1),
{
    VerificationMethod::new(
        DidUrl::from_did(did),
        did.clone(),
        t,
        PublicKeyField::Base58 { public_key_base58: key.base58() },
    )
}

/// The document of `did` with the given signing key, key-agreement key and service.
pub fn did_doc_from_keys(did: Did, key_ver: &Key, key_enc: &Key, service: ServiceSov) -> (r: DidDocumentSov)
    ensures
        r@ == keys_doc_model(did@, key_ver@.1, key_enc@.1, service_sov_model(service@)),
        base58_decoding(base58_encoding(key_ver@.1)) == Some(key_ver@.1),
        base58_decoding(base58_encoding(key_enc@.1)) == Some(key_enc@.1),
{
    let vm_ver = key_method_of(&did, VerificationMethodType::Ed25519VerificationKey2020, key_ver);
    let vm_ka = key_method_of(&did, VerificationMethodType::X25519KeyAgreementKey2020, key_enc);
    let r = DidDocumentSov::builder(did).add_service(service).add_verification_method(vm_ver).add_key_agreement(
        vm_ka,
    ).build();
    r
}

/// The id that a document stands under before its peer DID is known.
fn provisional_did() -> (r: Did)
    ensures
        r@ == "did:peer:2"@,
{
    let s = "did:peer:2".to_owned();
    proof {
        reveal_strlit("did:peer:2");
        assert(crate::did::did_colon(s@, 8));
        assert(is_did(s@));
    }
    Did::parse(s).unwrap()
}

/// The service of a document of ours: our key-agreement key, as a `did:key`,
/// is its recipient.
pub open spec fn our_service_model(endpoint: Seq<char>, routing_keys: Seq<Seq<char>>, enc: (KeyType, Seq<u8>)) -> ServiceSovModel {
    service_model(endpoint, routing_keys, seq!["did:key:"@ + key_fingerprint(enc.0, enc.1)])
}

/// Our document for one exchange: built once to derive the peer DID from
/// its keys, then again under that DID. Returns the document and our
/// key-agreement key.
pub fn create_our_did_document(key_ver: &Key, key_enc: Key, service_endpoint: Url, routing_keys: Vec<String>) -> (r: (
    DidDocumentSov,
    Key,
))
    ensures
        r.0@ == keys_doc_model(
            numalgo2_did(key_enc@.1, key_ver@.1),
            key_ver@.1,
            key_enc@.1,
            our_service_model(service_endpoint@, texts(routing_keys@), key_enc@),
        ),
        r.1@ == key_enc@,
{
    let endpoint_again = service_endpoint.clone();
    let routing_again = routing_keys.clone();
    assert(routing_again@ =~= routing_keys@);
    let recipients = vec![key_enc.did_key()];
    assert(texts(recipients@) =~= seq!["did:key:"@ + key_fingerprint(key_enc@.0, key_enc@.1)]);
    let service = construct_service(routing_keys, recipients, service_endpoint);
    let provisional = did_doc_from_keys(provisional_did(), key_ver, &key_enc, service);
    let peer_did = match generate_numalgo2(&provisional) {
        Ok(d) => d,
        Err(_) => {
            proof {
                assert(numalgo2_keys(provisional@) == Some((key_enc@.1, key_ver@.1)));
            }
            provisional_did()
        },
    };
    let recipients = vec![key_enc.did_key()];
    assert(texts(recipients@) =~= seq!["did:key:"@ + key_fingerprint(key_enc@.0, key_enc@.1)]);
    let service = construct_service(routing_again, recipients, endpoint_again);
    let doc = did_doc_from_keys(peer_did, key_ver, &key_enc, service);
    (doc, key_enc)
}

} // verus!
