use vstd::prelude::*;

use crate::did::{Did, DidUrl};
use crate::document::{
    key_base58,
    service_sov_model, DidDocumentModel, DidDocumentSov, ExtraFieldsSov, PublicKeyField,
    PublicKeyModel, ServiceSov, ServiceSovModel, VerificationMethod, VerificationMethodModel,
    VerificationMethodType,
};
use crate::document_json::{read_optional_strs, read_str_field, str_field};
use crate::error::{AriesVcxError, AriesVcxErrorKind};
use crate::json::{field, get_field, optional_strs, Json, JsonValue};
use crate::schema::{texts, OneOrList, OneOrListView, Service, Uri, Url};

verus! {

/// A service entry in the older document format, as ledgers also hold it.
#[derive(Clone, Debug, PartialEq, Eq)]
pub struct AriesService {
    pub id: String,
    pub recipient_keys: Vec<String>,
    pub routing_keys: Vec<String>,
    pub service_endpoint: String,
}

/// A DID document in the older format: an id and its services.
#[derive(Clone, Debug, PartialEq, Eq)]
pub struct AriesDidDoc {
    pub id: String,
    pub service: Vec<AriesService>,
}

/// An older-format service, given by its parts, as a DIDComm service.
pub open spec fn parts_service_model(
    id: Seq<char>,
    recipient_keys: Seq<Seq<char>>,
    routing_keys: Seq<Seq<char>>,
    endpoint: Seq<char>,
) -> ServiceSovModel {
    ServiceSovModel {
        id,
        service_type: OneOrListView::One("did-communication"@),
        service_endpoint: endpoint,
        priority: 0,
        recipient_keys,
        routing_keys,
        accept: Seq::empty(),
    }
}

/// An older-format service as a DIDComm service.
pub open spec fn legacy_service_model(service: AriesService) -> ServiceSovModel {
    parts_service_model(
        service.id@,
        texts(service.recipient_keys@),
        texts(service.routing_keys@),
        service.service_endpoint@,
    )
}

/// The document that a DID and its older-format service make: the DID
/// controls itself, holds the service's first recipient key as a method of
/// type `t`, and the service.
pub open spec fn parts_doc_model(
    did: Seq<char>,
    service: (Seq<char>, Seq<Seq<char>>, Seq<Seq<char>>, Seq<char>),
    t: VerificationMethodType,
) -> DidDocumentModel {
    DidDocumentModel {
        id: did,
        also_known_as: Seq::empty(),
        controller: Some(OneOrListView::List(seq![did])),
        verification_method: seq![
            VerificationMethodModel {
                id: did,
                controller: did,
                method_type: t,
                public_key: PublicKeyModel::Base58(service.1[0]),
            },
        ],
        authentication: Seq::empty(),
        assertion_method: Seq::empty(),
        key_agreement: Seq::empty(),
        capability_invocation: Seq::empty(),
        capability_delegation: Seq::empty(),
        service: seq![parts_service_model(service.0, service.1, service.2, service.3)],
    }
}

pub open spec fn service_parts(s: AriesService) -> (Seq<char>, Seq<Seq<char>>, Seq<Seq<char>>, Seq<char>) {
    (s.id@, texts(s.recipient_keys@), texts(s.routing_keys@), s.service_endpoint@)
}

pub open spec fn service_doc_model(did: Seq<char>, service: AriesService, t: VerificationMethodType) -> DidDocumentModel {
    parts_doc_model(did, service_parts(service), t)
}

/// The document that an older-format document read from JSON converts to.
pub open spec fn legacy_attached_doc(j: Json) -> Option<DidDocumentModel> {
    match legacy_doc_of(j) {
        Some((id, parts)) => if crate::did::is_did(id) && parts.1.len() > 0 {
            Some(parts_doc_model(id, parts, VerificationMethodType::Ed25519VerificationKey2018))
        } else {
            None
        },
        None => None,
    }
}

/// Converts an older-format service into a DIDComm service.
pub fn from_legacy_service_to_service_sov(service: AriesService) -> (r: ServiceSov)
    ensures
        service_sov_model(r@) == legacy_service_model(service),
{
    let AriesService { id, recipient_keys, routing_keys, service_endpoint } = service;
    let extra = ExtraFieldsSov { priority: 0, recipient_keys, routing_keys, accept: Vec::new() };
    let r = Service::from_parts(
        Uri::from_text(id),
        OneOrList::One("did-communication".to_owned()),
        Url::from_text(service_endpoint),
        extra,
    );
    assert(service_sov_model(r@).accept =~= Seq::empty());
    r
}

/// Converts a DIDComm service into the older format.
pub fn from_service_sov_to_legacy(service: &ServiceSov) -> (r: AriesService)
    ensures
        r.id@ == service@.id,
        r.service_endpoint@ == service@.service_endpoint,
        texts(r.recipient_keys@) == service_sov_model(service@).recipient_keys,
        texts(r.routing_keys@) == service_sov_model(service@).routing_keys,
{
    let extra = service.extra();
    let recipient_keys = extra.recipient_keys.clone();
    let routing_keys = extra.routing_keys.clone();
    assert(recipient_keys@ =~= extra.recipient_keys@);
    assert(routing_keys@ =~= extra.routing_keys@);
    AriesService {
        id: service.id().to_string(),
        recipient_keys,
        routing_keys,
        service_endpoint: service.service_endpoint().to_string(),
    }
}

/// The document of `did` built from its older-format service; fails with
/// `ResolutionError` when the service lists no recipient key.
pub fn did_doc_from_service(did: &Did, service: AriesService, t: VerificationMethodType) -> (r: Result<DidDocumentSov, AriesVcxError>)
    ensures
        r is Ok <==> service.recipient_keys@.len() > 0,
        r matches Ok(d) ==> d@ == service_doc_model(did@, service, t),
        r matches Err(e) ==> e.kind == AriesVcxErrorKind::ResolutionError,
{
    if service.recipient_keys.len() == 0 {
        return Err(AriesVcxError::from_msg(AriesVcxErrorKind::ResolutionError, "the service lists no recipient key"));
    }
    let vm = VerificationMethod::new(
        DidUrl::from_did(did),
        did.clone(),
        t,
        PublicKeyField::Base58 { public_key_base58: service.recipient_keys[0].clone() },
    );
    let ghost s = service;
    let sov_service = from_legacy_service_to_service_sov(service);
    let doc = DidDocumentSov::builder(did.clone()).add_service(sov_service).add_controller(did.clone()).add_verification_method(vm).build();
    assert(texts(s.recipient_keys@)[0] == s.recipient_keys@[0]@);
    assert(doc@.verification_method =~= service_doc_model(did@, s, t).verification_method);
    assert(doc@.service =~= service_doc_model(did@, s, t).service);
    assert(doc@.controller->Some_0->List_0 =~= seq![did@]);
    assert(doc@ =~= service_doc_model(did@, s, t));
    Ok(doc)
}

/// Converts an older-format document: its first service, and that
/// service's first recipient key as signing key. Fails with `InvalidDid`
/// when the id is no DID and with `ResolutionError` when there is no
/// service or no recipient key.
pub fn from_legacy_did_doc_to_sov(ddo: AriesDidDoc) -> (r: Result<DidDocumentSov, AriesVcxError>)
    ensures
        r is Ok <==> crate::did::is_did(ddo.id@) && ddo.service@.len() > 0 && ddo.service@[0].recipient_keys@.len() > 0,
        r matches Ok(d) ==> d@ == service_doc_model(ddo.id@, ddo.service@[0], VerificationMethodType::Ed25519VerificationKey2018),
        r matches Err(e) ==> (if !crate::did::is_did(ddo.id@) {
            e.kind == AriesVcxErrorKind::InvalidDid
        } else {
            e.kind == AriesVcxErrorKind::ResolutionError
        }),
{
    let AriesDidDoc { id, service } = ddo;
    let did = match Did::parse(id) {
        Ok(d) => d,
        Err(e) => {
            return Err(e);
        },
    };
    if service.len() == 0 {
        return Err(AriesVcxError::from_msg(AriesVcxErrorKind::ResolutionError, "the document holds no service"));
    }
    let mut service = service;
    let first = service.swap_remove(0);
    did_doc_from_service(&did, first, VerificationMethodType::Ed25519VerificationKey2018)
}

/// The older-format document that delivery to `ddo` needs: its id, and one
/// service with the endpoint of its first service and, as recipient, the
/// key of its first verification method in base58. Fails with
/// `InvalidState` when the document holds no service and with `InvalidKey`
/// when that key cannot be had in base58.
pub fn from_did_doc_sov_to_legacy(ddo: &DidDocumentSov) -> (r: Result<AriesDidDoc, AriesVcxError>)
    ensures
        r is Ok <==> ddo@.service.len() > 0 && (ddo@.verification_method.len() == 0 || key_base58(
            ddo@.verification_method[0].public_key,
        ) is Some),
        r matches Ok(l) ==> {
            &&& l.id@ == ddo@.id
            &&& l.service@.len() == 1
            &&& l.service@[0].service_endpoint@ == ddo@.service[0].service_endpoint
            &&& l.service@[0].routing_keys@.len() == 0
            &&& texts(l.service@[0].recipient_keys@) == if ddo@.verification_method.len() > 0 {
                seq![key_base58(ddo@.verification_method[0].public_key)->Some_0]
            } else {
                Seq::empty()
            }
        },
        r matches Err(e) ==> (if ddo@.service.len() == 0 {
            e.kind == AriesVcxErrorKind::InvalidState
        } else {
            e.kind == AriesVcxErrorKind::InvalidKey
        }),
{
    let services = ddo.service();
    if services.len() == 0 {
        return Err(AriesVcxError::from_msg(AriesVcxErrorKind::InvalidState, "no service present in the document"));
    }
    assert(ddo@.service[0] == service_sov_model(services@[0]@));
    let mut recipient_keys: Vec<String> = Vec::new();
    let vms = ddo.verification_method();
    if vms.len() > 0 {
        assert(ddo@.verification_method[0] == vms@[0]@);
        let k = vms[0].public_key().base58()?;
        recipient_keys.push(k);
    }
    let r = AriesDidDoc {
        id: ddo.id().to_string(),
        service: vec![
            AriesService {
                id: String::new(),
                recipient_keys,
                routing_keys: Vec::new(),
                service_endpoint: services[0].service_endpoint().to_string(),
            },
        ],
    };
    assert(texts(r.service@[0].recipient_keys@) =~= if ddo@.verification_method.len() > 0 {
        seq![key_base58(ddo@.verification_method[0].public_key)->Some_0]
    } else {
        Seq::empty()
    });
    Ok(r)
}

/// An older-format service read from JSON: `id`, `recipientKeys`,
/// `routingKeys` (may be left out) and `serviceEndpoint`.
pub open spec fn legacy_service_of(j: Json) -> Option<(Seq<char>, Seq<Seq<char>>, Seq<Seq<char>>, Seq<char>)> {
    match (
        str_field(j, "id"@),
        optional_strs(field(j, "recipientKeys"@)),
        optional_strs(field(j, "routingKeys"@)),
        str_field(j, "serviceEndpoint"@),
    ) {
        (Some(id), Some(rk), Some(rt), Some(ep)) => Some((id, rk, rt, ep)),
        _ => None,
    }
}

/// An older-format document read from JSON: its `id` and its first service.
pub open spec fn legacy_doc_of(j: Json) -> Option<(Seq<char>, (Seq<char>, Seq<Seq<char>>, Seq<Seq<char>>, Seq<char>))> {
    match (str_field(j, "id"@), field(j, "service"@)) {
        (Some(id), Some(Json::Array(a))) => if a.len() > 0 {
            match legacy_service_of(a[0]) {
                Some(s) => Some((id, s)),
                None => None,
            }
        } else {
            None
        },
        _ => None,
    }
}

pub open spec fn legacy_parts(d: AriesDidDoc) -> (Seq<char>, (Seq<char>, Seq<Seq<char>>, Seq<Seq<char>>, Seq<char>)) {
    (d.id@, service_parts(d.service@[0]))
}

fn read_legacy_service(j: &JsonValue) -> (r: Option<AriesService>)
    ensures
        match legacy_service_of(j@) {
            Some((id, rk, rt, ep)) => r matches Some(s) && s.id@ == id && texts(s.recipient_keys@) == rk
                && texts(s.routing_keys@) == rt && s.service_endpoint@ == ep,
            None => r is None,
        },
{
    let id = read_str_field(j, "id")?;
    let recipient_keys = read_optional_strs(get_field(j, &"recipientKeys".to_owned()))?;
    let routing_keys = read_optional_strs(get_field(j, &"routingKeys".to_owned()))?;
    let service_endpoint = read_str_field(j, "serviceEndpoint")?;
    Some(AriesService { id, recipient_keys, routing_keys, service_endpoint })
}

/// Reads an older-format document (its id and first service) from JSON.
pub fn legacy_did_doc_from_json(j: &JsonValue) -> (r: Option<AriesDidDoc>)
    ensures
        match legacy_doc_of(j@) {
            Some(parts) => r matches Some(d) && d.service@.len() == 1 && legacy_parts(d) == parts,
            None => r is None,
        },
{
    let id = read_str_field(j, "id")?;
    match get_field(j, &"service".to_owned()) {
        Some(JsonValue::Array(a)) => {
            if a.len() == 0 {
                return None;
            }
            let ghost av = field(j@, "service"@)->Some_0->Array_0;
            assert(av[0] == a@[0]@);
            let s = read_legacy_service(&a[0])?;
            Some(AriesDidDoc { id, service: vec![s] })
        },
        _ => None,
    }
}

} // verus!
