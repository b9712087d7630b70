use vstd::prelude::*;

use vstd::string::*;

use crate::did::{is_did, Did, DidUrl};
use crate::document::{
    controller_model, did_texts, service_models, service_sov_model, uri_texts, vm_kind_models,
    vm_models, DidDocumentModel, DidDocumentSov, ExtraFieldsSov, PublicKeyField, PublicKeyModel,
    ServiceSov, ServiceSovModel, VerificationMethod, VerificationMethodKind,
    VerificationMethodKindModel, VerificationMethodModel, VerificationMethodType,
};
use crate::error::{AriesVcxError, AriesVcxErrorKind};
use crate::json::{
    field, get_field, lemma_obj_get_absent, lemma_obj_get_found, lemma_strs_round_trip, obj_get,
    optional_strs, read_strs, strs_json, strs_of, write_strs, Json, JsonValue,
};
use crate::schema::{texts, OneOrList, OneOrListView, Service, Uri, Url};

verus! {

// The JSON form of DID documents.

pub open spec fn vm_type_name(t: VerificationMethodType) -> Seq<char> {
    match t {
        VerificationMethodType::Ed25519VerificationKey2018 => "Ed25519VerificationKey2018"@,
        VerificationMethodType::Ed25519VerificationKey2020 => "Ed25519VerificationKey2020"@,
        VerificationMethodType::X25519KeyAgreementKey2020 => "X25519KeyAgreementKey2020"@,
    }
}

pub open spec fn vm_type_of(s: Seq<char>) -> Option<VerificationMethodType> {
    if s == vm_type_name(VerificationMethodType::Ed25519VerificationKey2018) {
        Some(VerificationMethodType::Ed25519VerificationKey2018)
    } else if s == vm_type_name(VerificationMethodType::Ed25519VerificationKey2020) {
        Some(VerificationMethodType::Ed25519VerificationKey2020)
    } else if s == vm_type_name(VerificationMethodType::X25519KeyAgreementKey2020) {
        Some(VerificationMethodType::X25519KeyAgreementKey2020)
    } else {
        None
    }
}

/// The string member `k` of an object.
pub open spec fn str_field(j: Json, k: Seq<char>) -> Option<Seq<char>> {
    match field(j, k) {
        Some(Json::Str(s)) => Some(s),
        _ => None,
    }
}

pub open spec fn key_entry(k: PublicKeyModel) -> (Seq<char>, Json) {
    match k {
        PublicKeyModel::Base58(s) => ("publicKeyBase58"@, Json::Str(s)),
        PublicKeyModel::Multibase(s) => ("publicKeyMultibase"@, Json::Str(s)),
    }
}

pub open spec fn public_key_of(j: Json) -> Option<PublicKeyModel> {
    match str_field(j, "publicKeyBase58"@) {
        Some(s) => Some(PublicKeyModel::Base58(s)),
        None => match str_field(j, "publicKeyMultibase"@) {
            Some(s) => Some(PublicKeyModel::Multibase(s)),
            None => None,
        },
    }
}

pub open spec fn vm_json(m: VerificationMethodModel) -> Json {
    Json::Object(
        seq![
            ("id"@, Json::Str(m.id)),
            ("type"@, Json::Str(vm_type_name(m.method_type))),
            ("controller"@, Json::Str(m.controller)),
            key_entry(m.public_key),
        ],
    )
}

pub open spec fn vm_of(j: Json) -> Option<VerificationMethodModel> {
    match (str_field(j, "id"@), str_field(j, "type"@), str_field(j, "controller"@), public_key_of(j)) {
        (Some(id), Some(t), Some(c), Some(pk)) => match vm_type_of(t) {
            Some(mt) => if is_did(c) {
                Some(VerificationMethodModel { id, controller: c, method_type: mt, public_key: pk })
            } else {
                None
            },
            None => None,
        },
        _ => None,
    }
}

pub open spec fn vm_kind_json(k: VerificationMethodKindModel) -> Json {
    match k {
        VerificationMethodKindModel::Resolved(m) => vm_json(m),
        VerificationMethodKindModel::Resolvable(u) => Json::Str(u),
    }
}

pub open spec fn vm_kind_of(j: Json) -> Option<VerificationMethodKindModel> {
    match j {
        Json::Str(u) => Some(VerificationMethodKindModel::Resolvable(u)),
        Json::Object(_) => match vm_of(j) {
            Some(m) => Some(VerificationMethodKindModel::Resolved(m)),
            None => None,
        },
        _ => None,
    }
}

pub open spec fn type_json(o: OneOrListView<Seq<char>>) -> Json {
    match o {
        OneOrListView::One(s) => Json::Str(s),
        OneOrListView::List(v) => strs_json(v),
    }
}

pub open spec fn type_of(j: Json) -> Option<OneOrListView<Seq<char>>> {
    match j {
        Json::Str(s) => Some(OneOrListView::One(s)),
        _ => match strs_of(j) {
            Some(v) => Some(OneOrListView::List(v)),
            None => None,
        },
    }
}

pub open spec fn priority_of(j: Option<Json>) -> Option<u32> {
    match j {
        None => Some(0),
        Some(Json::Number(n)) => if n <= u32::MAX as u64 {
            Some(n as u32)
        } else {
            None
        },
        _ => None,
    }
}

pub open spec fn service_json(s: ServiceSovModel) -> Json {
    Json::Object(
        seq![
            ("id"@, Json::Str(s.id)),
            ("type"@, type_json(s.service_type)),
            ("serviceEndpoint"@, Json::Str(s.service_endpoint)),
            ("priority"@, Json::Number(s.priority as u64)),
            ("recipientKeys"@, strs_json(s.recipient_keys)),
            ("routingKeys"@, strs_json(s.routing_keys)),
            ("accept"@, strs_json(s.accept)),
        ],
    )
}

pub open spec fn service_of(j: Json) -> Option<ServiceSovModel> {
    match (
        str_field(j, "id"@),
        field(j, "type"@),
        str_field(j, "serviceEndpoint"@),
        priority_of(field(j, "priority"@)),
        optional_strs(field(j, "recipientKeys"@)),
        optional_strs(field(j, "routingKeys"@)),
        optional_strs(field(j, "accept"@)),
    ) {
        (Some(id), Some(t), Some(ep), Some(p), Some(rk), Some(rt), Some(acc)) => match type_of(t) {
            Some(st) => Some(
                ServiceSovModel {
                    id,
                    service_type: st,
                    service_endpoint: ep,
                    priority: p,
                    recipient_keys: rk,
                    routing_keys: rt,
                    accept: acc,
                },
            ),
            None => None,
        },
        _ => None,
    }
}

/// A list written with `f` as a JSON array.
pub open spec fn list_json<T>(v: Seq<T>, f: spec_fn(T) -> Json) -> Json {
    Json::Array(v.map_values(f))
}

/// The items of a JSON array read with `f`; `None` when one fails to read.
pub open spec fn list_of<T>(j: Json, f: spec_fn(Json) -> Option<T>) -> Option<Seq<T>> {
    match j {
        Json::Array(a) => if forall|i: int| 0 <= i < a.len() ==> #[trigger] f(a[i]) is Some {
            Some(a.map_values(|x: Json| f(x)->Some_0))
        } else {
            None
        },
        _ => None,
    }
}

/// A list that may be left out: absent reads as empty.
pub open spec fn optional_list<T>(j: Option<Json>, f: spec_fn(Json) -> Option<T>) -> Option<Seq<T>> {
    match j {
        None => Some(Seq::empty()),
        Some(j) => list_of(j, f),
    }
}

pub open spec fn controller_json(c: Option<OneOrListView<Seq<char>>>) -> Json {
    match c {
        None => Json::Null,
        Some(OneOrListView::One(d)) => Json::Str(d),
        Some(OneOrListView::List(v)) => strs_json(v),
    }
}

pub open spec fn controller_of(j: Option<Json>) -> Option<Option<OneOrListView<Seq<char>>>> {
    match j {
        None => Some(None),
        Some(Json::Null) => Some(None),
        Some(Json::Str(d)) => if is_did(d) {
            Some(Some(OneOrListView::One(d)))
        } else {
            None
        },
        Some(j) => match strs_of(j) {
            Some(v) => if forall|i: int| 0 <= i < v.len() ==> is_did(#[trigger] v[i]) {
                Some(Some(OneOrListView::List(v)))
            } else {
                None
            },
            None => None,
        },
    }
}

pub open spec fn doc_json(d: DidDocumentModel) -> Json {
    Json::Object(
        seq![
            ("id"@, Json::Str(d.id)),
            ("alsoKnownAs"@, strs_json(d.also_known_as)),
            ("controller"@, controller_json(d.controller)),
            ("verificationMethod"@, list_json(d.verification_method, |m| vm_json(m))),
            ("authentication"@, list_json(d.authentication, |k| vm_kind_json(k))),
            ("assertionMethod"@, list_json(d.assertion_method, |k| vm_kind_json(k))),
            ("keyAgreement"@, list_json(d.key_agreement, |k| vm_kind_json(k))),
            ("capabilityInvocation"@, list_json(d.capability_invocation, |k| vm_kind_json(k))),
            ("capabilityDelegation"@, list_json(d.capability_delegation, |k| vm_kind_json(k))),
            ("service"@, list_json(d.service, |s| service_json(s))),
        ],
    )
}

pub open spec fn doc_of(j: Json) -> Option<DidDocumentModel> {
    match (
        str_field(j, "id"@),
        optional_strs(field(j, "alsoKnownAs"@)),
        controller_of(field(j, "controller"@)),
        optional_list(field(j, "verificationMethod"@), |x| vm_of(x)),
        optional_list(field(j, "authentication"@), |x| vm_kind_of(x)),
        optional_list(field(j, "assertionMethod"@), |x| vm_kind_of(x)),
        optional_list(field(j, "keyAgreement"@), |x| vm_kind_of(x)),
        optional_list(field(j, "capabilityInvocation"@), |x| vm_kind_of(x)),
        optional_list(field(j, "capabilityDelegation"@), |x| vm_kind_of(x)),
        optional_list(field(j, "service"@), |x| service_of(x)),
    ) {
        (Some(id), Some(aka), Some(c), Some(vms), Some(auth), Some(am), Some(ka), Some(ci), Some(cd), Some(svc)) =>
            if is_did(id) {
            Some(
                DidDocumentModel {
                    id,
                    also_known_as: aka,
                    controller: c,
                    verification_method: vms,
                    authentication: auth,
                    assertion_method: am,
                    key_agreement: ka,
                    capability_invocation: ci,
                    capability_delegation: cd,
                    service: svc,
                },
            )
        } else {
            None
        },
        _ => None,
    }
}

// Which documents the JSON form carries exactly: those whose DIDs are DIDs.

pub open spec fn vm_valid(m: VerificationMethodModel) -> bool {
    is_did(m.controller)
}

pub open spec fn vm_kind_valid(k: VerificationMethodKindModel) -> bool {
    match k {
        VerificationMethodKindModel::Resolved(m) => vm_valid(m),
        VerificationMethodKindModel::Resolvable(_) => true,
    }
}

pub open spec fn vm_kinds_valid(v: Seq<VerificationMethodKindModel>) -> bool {
    forall|i: int| 0 <= i < v.len() ==> vm_kind_valid(#[trigger] v[i])
}

pub open spec fn controller_valid(c: Option<OneOrListView<Seq<char>>>) -> bool {
    match c {
        None => true,
        Some(OneOrListView::One(d)) => is_did(d),
        Some(OneOrListView::List(v)) => forall|i: int| 0 <= i < v.len() ==> is_did(#[trigger] v[i]),
    }
}

/// Every DID that the document holds is a DID.
pub open spec fn doc_valid(d: DidDocumentModel) -> bool {
    &&& is_did(d.id)
    &&& controller_valid(d.controller)
    &&& forall|i: int| 0 <= i < d.verification_method.len() ==> vm_valid(#[trigger] d.verification_method[i])
    &&& vm_kinds_valid(d.authentication)
    &&& vm_kinds_valid(d.assertion_method)
    &&& vm_kinds_valid(d.key_agreement)
    &&& vm_kinds_valid(d.capability_invocation)
    &&& vm_kinds_valid(d.capability_delegation)
}

proof fn lemma_lookup(e: Seq<(Seq<char>, Json)>, i: int)
    requires
        0 <= i < e.len(),
        forall|j: int| 0 <= j < i ==> #[trigger] e[j].0 != e[i].0,
    ensures
        obj_get(e, e[i].0) == Some(e[i].1),
{
    lemma_obj_get_found(e, e[i].0, i);
}

pub proof fn lemma_list_round_trip<T>(v: Seq<T>, f: spec_fn(T) -> Json, g: spec_fn(Json) -> Option<T>)
    requires
        forall|i: int| 0 <= i < v.len() ==> g(f(#[trigger] v[i])) == Some(v[i]),
    ensures
        list_of(list_json(v, f), g) == Some(v),
{
    let a = v.map_values(f);
    assert forall|i: int| 0 <= i < a.len() implies #[trigger] g(a[i]) is Some by {
        assert(a[i] == f(v[i]));
    }
    assert(a.map_values(|x: Json| g(x)->Some_0) =~= v);
}

proof fn lemma_list_of_fails<T>(a: Seq<Json>, f: spec_fn(Json) -> Option<T>, i: int)
    requires
        0 <= i < a.len(),
        f(a[i]) is None,
    ensures
        list_of(Json::Array(a), f) is None,
{
}

pub proof fn lemma_vm_type_round_trip(t: VerificationMethodType)
    ensures
        vm_type_of(vm_type_name(t)) == Some(t),
{
    reveal_strlit("Ed25519VerificationKey2018");
    reveal_strlit("Ed25519VerificationKey2020");
    reveal_strlit("X25519KeyAgreementKey2020");
    assert("Ed25519VerificationKey2018"@[24] != "Ed25519VerificationKey2020"@[24]);
}

pub proof fn lemma_vm_round_trip(m: VerificationMethodModel)
    requires
        vm_valid(m),
    ensures
        vm_of(vm_json(m)) == Some(m),
{
        reveal_strlit("accept");
        reveal_strlit("alsoKnownAs");
        reveal_strlit("assertionMethod");
        reveal_strlit("authentication");
        reveal_strlit("capabilityDelegation");
        reveal_strlit("capabilityInvocation");
        reveal_strlit("controller");
        reveal_strlit("id");
        reveal_strlit("keyAgreement");
        reveal_strlit("priority");
        reveal_strlit("publicKeyBase58");
        reveal_strlit("publicKeyMultibase");
        reveal_strlit("recipientKeys");
        reveal_strlit("routingKeys");
        reveal_strlit("service");
        reveal_strlit("serviceEndpoint");
        reveal_strlit("type");
        reveal_strlit("verificationMethod");
    let e = vm_json(m)->Object_0;
    assert(e[0].0 == "id"@ && "id"@.len() == 2);
    assert(e[1].0 == "type"@ && "type"@.len() == 4);
    assert(e[2].0 == "controller"@ && "controller"@.len() == 10);
    assert(e[3].0 == "publicKeyBase58"@ || e[3].0 == "publicKeyMultibase"@);
    assert("publicKeyBase58"@.len() == 15 && "publicKeyMultibase"@.len() == 18);
        lemma_lookup(e, 0);
        assert forall|j: int| 0 <= j < 1 implies #[trigger] e[j].0 != e[1].0 by {
            {}
        }
        lemma_lookup(e, 1);
        assert forall|j: int| 0 <= j < 2 implies #[trigger] e[j].0 != e[2].0 by {
            if j == 0 {} else {}
        }
        lemma_lookup(e, 2);
    lemma_vm_type_round_trip(m.method_type);
    match m.public_key {
        PublicKeyModel::Base58(s) => {
            lemma_lookup(e, 3);
            assert(forall|j: int| 0 <= j < 3 ==> #[trigger] e[j].0 != e[3].0) by {
                assert(e[0].0 != e[3].0);
                assert(e[1].0 != e[3].0);
                assert(e[2].0 != e[3].0);
            }
            lemma_lookup(e, 3);
        },
        PublicKeyModel::Multibase(s) => {
            assert(forall|j: int| 0 <= j < 4 ==> #[trigger] e[j].0 != "publicKeyBase58"@) by {
                assert(e[3].0 == "publicKeyMultibase"@);
            }
            lemma_obj_get_absent(e, "publicKeyBase58"@);
            assert(forall|j: int| 0 <= j < 3 ==> #[trigger] e[j].0 != e[3].0) by {
                assert(e[0].0 != e[3].0);
                assert(e[1].0 != e[3].0);
                assert(e[2].0 != e[3].0);
            }
            lemma_lookup(e, 3);
        },
    }
}

pub proof fn lemma_vm_kind_round_trip(k: VerificationMethodKindModel)
    requires
        vm_kind_valid(k),
    ensures
        vm_kind_of(vm_kind_json(k)) == Some(k),
{
    match k {
        VerificationMethodKindModel::Resolved(m) => lemma_vm_round_trip(m),
        VerificationMethodKindModel::Resolvable(u) => {},
    }
}

pub proof fn lemma_vm_kinds_round_trip(v: Seq<VerificationMethodKindModel>)
    requires
        vm_kinds_valid(v),
    ensures
        list_of(list_json(v, |k| vm_kind_json(k)), |x| vm_kind_of(x)) == Some(v),
{
    assert forall|i: int| 0 <= i < v.len() implies (|x| vm_kind_of(x))((|k| vm_kind_json(k))(#[trigger] v[i])) == Some(v[i]) by {
        lemma_vm_kind_round_trip(v[i]);
    }
    lemma_list_round_trip(v, |k| vm_kind_json(k), |x| vm_kind_of(x));
}

pub proof fn lemma_type_round_trip(o: OneOrListView<Seq<char>>)
    ensures
        type_of(type_json(o)) == Some(o),
{
    match o {
        OneOrListView::One(s) => {},
        OneOrListView::List(v) => lemma_strs_round_trip(v),
    }
}

pub proof fn lemma_service_round_trip(s: ServiceSovModel)
    ensures
        service_of(service_json(s)) == Some(s),
{
        reveal_strlit("accept");
        reveal_strlit("alsoKnownAs");
        reveal_strlit("assertionMethod");
        reveal_strlit("authentication");
        reveal_strlit("capabilityDelegation");
        reveal_strlit("capabilityInvocation");
        reveal_strlit("controller");
        reveal_strlit("id");
        reveal_strlit("keyAgreement");
        reveal_strlit("priority");
        reveal_strlit("publicKeyBase58");
        reveal_strlit("publicKeyMultibase");
        reveal_strlit("recipientKeys");
        reveal_strlit("routingKeys");
        reveal_strlit("service");
        reveal_strlit("serviceEndpoint");
        reveal_strlit("type");
        reveal_strlit("verificationMethod");
    let e = service_json(s)->Object_0;
    assert(e[0].0 == "id"@ && "id"@.len() == 2);
    assert(e[1].0 == "type"@ && "type"@.len() == 4);
    assert(e[2].0 == "serviceEndpoint"@ && "serviceEndpoint"@.len() == 15);
    assert(e[3].0 == "priority"@ && "priority"@.len() == 8);
    assert(e[4].0 == "recipientKeys"@ && "recipientKeys"@.len() == 13);
    assert(e[5].0 == "routingKeys"@ && "routingKeys"@.len() == 11);
    assert(e[6].0 == "accept"@ && "accept"@.len() == 6);
        lemma_lookup(e, 0);
        assert forall|j: int| 0 <= j < 1 implies #[trigger] e[j].0 != e[1].0 by {
            {}
        }
        lemma_lookup(e, 1);
        assert forall|j: int| 0 <= j < 2 implies #[trigger] e[j].0 != e[2].0 by {
            if j == 0 {} else {}
        }
        lemma_lookup(e, 2);
        assert forall|j: int| 0 <= j < 3 implies #[trigger] e[j].0 != e[3].0 by {
            if j == 0 {} else if j == 1 {} else {}
        }
        lemma_lookup(e, 3);
        assert forall|j: int| 0 <= j < 4 implies #[trigger] e[j].0 != e[4].0 by {
            if j == 0 {} else if j == 1 {} else if j == 2 {} else {}
        }
        lemma_lookup(e, 4);
        assert forall|j: int| 0 <= j < 5 implies #[trigger] e[j].0 != e[5].0 by {
            if j == 0 {} else if j == 1 {} else if j == 2 {} else if j == 3 {} else {}
        }
        lemma_lookup(e, 5);
        assert forall|j: int| 0 <= j < 6 implies #[trigger] e[j].0 != e[6].0 by {
            if j == 0 {} else if j == 1 {} else if j == 2 {} else if j == 3 {} else if j == 4 {} else {}
        }
        lemma_lookup(e, 6);
    lemma_type_round_trip(s.service_type);
    lemma_strs_round_trip(s.recipient_keys);
    lemma_strs_round_trip(s.routing_keys);
    lemma_strs_round_trip(s.accept);
}

/// Reading back the JSON form of a document whose DIDs are DIDs gives the document.
pub proof fn lemma_doc_round_trip(d: DidDocumentModel)
    requires
        doc_valid(d),
    ensures
        doc_of(doc_json(d)) == Some(d),
{
        reveal_strlit("accept");
        reveal_strlit("alsoKnownAs");
        reveal_strlit("assertionMethod");
        reveal_strlit("authentication");
        reveal_strlit("capabilityDelegation");
        reveal_strlit("capabilityInvocation");
        reveal_strlit("controller");
        reveal_strlit("id");
        reveal_strlit("keyAgreement");
        reveal_strlit("priority");
        reveal_strlit("publicKeyBase58");
        reveal_strlit("publicKeyMultibase");
        reveal_strlit("recipientKeys");
        reveal_strlit("routingKeys");
        reveal_strlit("service");
        reveal_strlit("serviceEndpoint");
        reveal_strlit("type");
        reveal_strlit("verificationMethod");
    let e = doc_json(d)->Object_0;
    assert(e[0].0 == "id"@ && "id"@.len() == 2);
    assert(e[1].0 == "alsoKnownAs"@ && "alsoKnownAs"@.len() == 11);
    assert(e[2].0 == "controller"@ && "controller"@.len() == 10);
    assert(e[3].0 == "verificationMethod"@ && "verificationMethod"@.len() == 18);
    assert(e[4].0 == "authentication"@ && "authentication"@.len() == 14);
    assert(e[5].0 == "assertionMethod"@ && "assertionMethod"@.len() == 15);
    assert(e[6].0 == "keyAgreement"@ && "keyAgreement"@.len() == 12);
    assert(e[7].0 == "capabilityInvocation"@ && "capabilityInvocation"@.len() == 20);
    assert(e[8].0 == "capabilityDelegation"@ && "capabilityDelegation"@.len() == 20);
    assert(e[9].0 == "service"@ && "service"@.len() == 7);
    assert("capabilityInvocation"@[10] != "capabilityDelegation"@[10]);
        lemma_lookup(e, 0);
        assert forall|j: int| 0 <= j < 1 implies #[trigger] e[j].0 != e[1].0 by {
            {}
        }
        lemma_lookup(e, 1);
        assert forall|j: int| 0 <= j < 2 implies #[trigger] e[j].0 != e[2].0 by {
            if j == 0 {} else {}
        }
        lemma_lookup(e, 2);
        assert forall|j: int| 0 <= j < 3 implies #[trigger] e[j].0 != e[3].0 by {
            if j == 0 {} else if j == 1 {} else {}
        }
        lemma_lookup(e, 3);
        assert forall|j: int| 0 <= j < 4 implies #[trigger] e[j].0 != e[4].0 by {
            if j == 0 {} else if j == 1 {} else if j == 2 {} else {}
        }
        lemma_lookup(e, 4);
        assert forall|j: int| 0 <= j < 5 implies #[trigger] e[j].0 != e[5].0 by {
            if j == 0 {} else if j == 1 {} else if j == 2 {} else if j == 3 {} else {}
        }
        lemma_lookup(e, 5);
        assert forall|j: int| 0 <= j < 6 implies #[trigger] e[j].0 != e[6].0 by {
            if j == 0 {} else if j == 1 {} else if j == 2 {} else if j == 3 {} else if j == 4 {} else {}
        }
        lemma_lookup(e, 6);
        assert forall|j: int| 0 <= j < 7 implies #[trigger] e[j].0 != e[7].0 by {
            if j == 0 {} else if j == 1 {} else if j == 2 {} else if j == 3 {} else if j == 4 {} else if j == 5 {} else {}
        }
        lemma_lookup(e, 7);
        assert forall|j: int| 0 <= j < 8 implies #[trigger] e[j].0 != e[8].0 by {
            if j == 0 {} else if j == 1 {} else if j == 2 {} else if j == 3 {} else if j == 4 {} else if j == 5 {} else if j == 6 {} else {}
        }
        lemma_lookup(e, 8);
        assert forall|j: int| 0 <= j < 9 implies #[trigger] e[j].0 != e[9].0 by {
            if j == 0 {} else if j == 1 {} else if j == 2 {} else if j == 3 {} else if j == 4 {} else if j == 5 {} else if j == 6 {} else if j == 7 {} else {}
        }
        lemma_lookup(e, 9);
    lemma_strs_round_trip(d.also_known_as);
    match d.controller {
        None => {},
        Some(OneOrListView::One(c)) => {},
        Some(OneOrListView::List(v)) => lemma_strs_round_trip(v),
    }
    assert forall|i: int| 0 <= i < d.verification_method.len() implies (|x| vm_of(x))((|m| vm_json(m))(#[trigger] d.verification_method[i])) == Some(d.verification_method[i]) by {
        lemma_vm_round_trip(d.verification_method[i]);
    }
    lemma_list_round_trip(d.verification_method, |m| vm_json(m), |x| vm_of(x));
    lemma_vm_kinds_round_trip(d.authentication);
    lemma_vm_kinds_round_trip(d.assertion_method);
    lemma_vm_kinds_round_trip(d.key_agreement);
    lemma_vm_kinds_round_trip(d.capability_invocation);
    lemma_vm_kinds_round_trip(d.capability_delegation);
    assert forall|i: int| 0 <= i < d.service.len() implies (|x| service_of(x))((|s| service_json(s))(#[trigger] d.service[i])) == Some(d.service[i]) by {
        lemma_service_round_trip(d.service[i]);
    }
    lemma_list_round_trip(d.service, |s| service_json(s), |x| service_of(x));
}

// Writing and reading the JSON form.

pub open spec fn opt_view(j: Option<&JsonValue>) -> Option<Json> {
    match j {
        Some(v) => Some(v@),
        None => None,
    }
}

fn entry(k: &str, v: JsonValue) -> (r: (String, JsonValue))
    ensures
        r.0@ == k@,
        r.1 == v,
{
    (k.to_owned(), v)
}

fn text(s: &str) -> (r: JsonValue)
    ensures
        r@ == Json::Str(s@),
{
    JsonValue::Str(s.to_owned())
}

fn vm_type_text(t: VerificationMethodType) -> (r: &'static str)
    ensures
        r@ == vm_type_name(t),
{
    match t {
        VerificationMethodType::Ed25519VerificationKey2018 => "Ed25519VerificationKey2018",
        VerificationMethodType::Ed25519VerificationKey2020 => "Ed25519VerificationKey2020",
        VerificationMethodType::X25519KeyAgreementKey2020 => "X25519KeyAgreementKey2020",
    }
}

fn read_vm_type(s: &String) -> (r: Option<VerificationMethodType>)
    ensures
        r == vm_type_of(s@),
{
    if *s == "Ed25519VerificationKey2018".to_owned() {
        Some(VerificationMethodType::Ed25519VerificationKey2018)
    } else if *s == "Ed25519VerificationKey2020".to_owned() {
        Some(VerificationMethodType::Ed25519VerificationKey2020)
    } else if *s == "X25519KeyAgreementKey2020".to_owned() {
        Some(VerificationMethodType::X25519KeyAgreementKey2020)
    } else {
        None
    }
}

pub(crate) fn read_str_field(j: &JsonValue, k: &str) -> (r: Option<String>)
    ensures
        match str_field(j@, k@) {
            Some(s) => r matches Some(t) && t@ == s,
            None => r is None,
        },
{
    match get_field(j, &k.to_owned()) {
        Some(JsonValue::Str(s)) => Some(s.clone()),
        _ => None,
    }
}

fn write_vm(vm: &VerificationMethod) -> (r: JsonValue)
    ensures
        r@ == vm_json(vm@),
        vm_valid(vm@),
{
    let mut e: Vec<(String, JsonValue)> = Vec::new();
    e.push(entry("id", text(vm.id().as_str())));
    e.push(entry("type", text(vm_type_text(vm.verification_method_type()))));
    e.push(entry("controller", text(vm.controller().did())));
    match vm.public_key() {
        PublicKeyField::Base58 { public_key_base58 } => {
            e.push(entry("publicKeyBase58", text(public_key_base58.as_str())));
        },
        PublicKeyField::Multibase { public_key_multibase } => {
            e.push(entry("publicKeyMultibase", text(public_key_multibase.as_str())));
        },
    }
    let r = JsonValue::Object(e);
    assert(r@->Object_0 =~= vm_json(vm@)->Object_0);
    r
}

fn read_vm(j: &JsonValue) -> (r: Option<VerificationMethod>)
    ensures
        match vm_of(j@) {
            Some(m) => r matches Some(v) && v@ == m,
            None => r is None,
        },
{
    let id = read_str_field(j, "id")?;
    let t = read_str_field(j, "type")?;
    let c = read_str_field(j, "controller")?;
    let public_key = match read_str_field(j, "publicKeyBase58") {
        Some(k) => PublicKeyField::Base58 { public_key_base58: k },
        None => match read_str_field(j, "publicKeyMultibase") {
            Some(k) => PublicKeyField::Multibase { public_key_multibase: k },
            None => {
                return None;
            },
        },
    };
    let method_type = read_vm_type(&t)?;
    match Did::parse(c) {
        Ok(controller) => Some(VerificationMethod::new(DidUrl::new(id), controller, method_type, public_key)),
        Err(_) => None,
    }
}

fn write_vm_kind(k: &VerificationMethodKind) -> (r: JsonValue)
    ensures
        r@ == vm_kind_json(k@),
        vm_kind_valid(k@),
{
    match k {
        VerificationMethodKind::Resolved(vm) => write_vm(vm),
        VerificationMethodKind::Resolvable(url) => text(url.as_str()),
    }
}

fn read_vm_kind(j: &JsonValue) -> (r: Option<VerificationMethodKind>)
    ensures
        match vm_kind_of(j@) {
            Some(m) => r matches Some(v) && v@ == m,
            None => r is None,
        },
{
    match j {
        JsonValue::Str(u) => Some(VerificationMethodKind::Resolvable(DidUrl::new(u.clone()))),
        JsonValue::Object(_) => match read_vm(j) {
            Some(vm) => Some(VerificationMethodKind::Resolved(vm)),
            None => None,
        },
        _ => None,
    }
}

fn write_vms(v: &[VerificationMethod]) -> (r: JsonValue)
    ensures
        r@ == list_json(vm_models(v@), |m| vm_json(m)),
        forall|i: int| 0 <= i < v@.len() ==> vm_valid(#[trigger] vm_models(v@)[i]),
{
    let mut out: Vec<JsonValue> = Vec::new();
    let mut i: usize = 0;
    while i < v.len()
        invariant
            i <= v@.len(),
            out@.len() == i,
            forall|m: int| 0 <= m < i ==> (#[trigger] out@[m])@ == vm_json(v@[m]@),
            forall|m: int| 0 <= m < i ==> vm_valid(#[trigger] vm_models(v@)[m]),
        decreases v@.len() - i,
    {
        out.push(write_vm(&v[i]));
        i = i + 1;
    }
    let r = JsonValue::Array(out);
    assert(r@->Array_0 =~= list_json(vm_models(v@), |m| vm_json(m))->Array_0);
    r
}

fn read_vms(j: Option<&JsonValue>) -> (r: Option<Vec<VerificationMethod>>)
    ensures
        match optional_list(opt_view(j), |x| vm_of(x)) {
            Some(ms) => r matches Some(v) && vm_models(v@) == ms,
            None => r is None,
        },
{
    let mut out: Vec<VerificationMethod> = Vec::new();
    match j {
        None => {
            assert(vm_models(out@) =~= Seq::empty());
            Some(out)
        },
        Some(JsonValue::Array(a)) => {
            let ghost av = j.unwrap()@->Array_0;
            let mut i: usize = 0;
            while i < a.len()
                invariant
                    i <= a@.len(),
                    av.len() == a@.len(),
                    opt_view(j) == Some(Json::Array(av)),
                    forall|m: int| 0 <= m < a@.len() ==> av[m] == (#[trigger] a@[m])@,
                    forall|m: int| 0 <= m < i ==> #[trigger] vm_of(av[m]) is Some,
                    vm_models(out@) =~= av.subrange(0, i as int).map_values(|x: Json| vm_of(x)->Some_0),
                decreases a@.len() - i,
            {
                assert(av[i as int] == a@[i as int]@);
                match read_vm(&a[i]) {
                    Some(vm) => {
                        let ghost before = out@;
                        out.push(vm);
                        assert(vm_models(out@) =~= vm_models(before).push(vm@));
                        assert(av.subrange(0, i + 1).map_values(|x: Json| vm_of(x)->Some_0)
                            =~= av.subrange(0, i as int).map_values(|x: Json| vm_of(x)->Some_0).push(vm_of(av[i as int])->Some_0));
                    },
                    None => {
                        proof {
                            lemma_list_of_fails(av, |x| vm_of(x), i as int);
                        }
                        return None;
                    },
                }
                i = i + 1;
            }
            assert(av.subrange(0, i as int) =~= av);
            Some(out)
        },
        Some(_) => None,
    }
}

fn write_vm_kinds(v: &[VerificationMethodKind]) -> (r: JsonValue)
    ensures
        r@ == list_json(vm_kind_models(v@), |k| vm_kind_json(k)),
        vm_kinds_valid(vm_kind_models(v@)),
{
    let mut out: Vec<JsonValue> = Vec::new();
    let mut i: usize = 0;
    while i < v.len()
        invariant
            i <= v@.len(),
            out@.len() == i,
            forall|m: int| 0 <= m < i ==> (#[trigger] out@[m])@ == vm_kind_json(v@[m]@),
            forall|m: int| 0 <= m < i ==> vm_kind_valid(#[trigger] vm_kind_models(v@)[m]),
        decreases v@.len() - i,
    {
        out.push(write_vm_kind(&v[i]));
        i = i + 1;
    }
    let r = JsonValue::Array(out);
    assert(r@->Array_0 =~= list_json(vm_kind_models(v@), |k| vm_kind_json(k))->Array_0);
    r
}

fn read_vm_kinds(j: Option<&JsonValue>) -> (r: Option<Vec<VerificationMethodKind>>)
    ensures
        match optional_list(opt_view(j), |x| vm_kind_of(x)) {
            Some(ms) => r matches Some(v) && vm_kind_models(v@) == ms,
            None => r is None,
        },
{
    let mut out: Vec<VerificationMethodKind> = Vec::new();
    match j {
        None => {
            assert(vm_kind_models(out@) =~= Seq::empty());
            Some(out)
        },
        Some(JsonValue::Array(a)) => {
            let ghost av = j.unwrap()@->Array_0;
            let mut i: usize = 0;
            while i < a.len()
                invariant
                    i <= a@.len(),
                    av.len() == a@.len(),
                    opt_view(j) == Some(Json::Array(av)),
                    forall|m: int| 0 <= m < a@.len() ==> av[m] == (#[trigger] a@[m])@,
                    forall|m: int| 0 <= m < i ==> #[trigger] vm_kind_of(av[m]) is Some,
                    vm_kind_models(out@) =~= av.subrange(0, i as int).map_values(|x: Json| vm_kind_of(x)->Some_0),
                decreases a@.len() - i,
            {
                assert(av[i as int] == a@[i as int]@);
                match read_vm_kind(&a[i]) {
                    Some(k) => {
                        let ghost before = out@;
                        out.push(k);
                        assert(vm_kind_models(out@) =~= vm_kind_models(before).push(k@));
                        assert(av.subrange(0, i + 1).map_values(|x: Json| vm_kind_of(x)->Some_0)
                            =~= av.subrange(0, i as int).map_values(|x: Json| vm_kind_of(x)->Some_0).push(vm_kind_of(av[i as int])->Some_0));
                    },
                    None => {
                        proof {
                            lemma_list_of_fails(av, |x| vm_kind_of(x), i as int);
                        }
                        return None;
                    },
                }
                i = i + 1;
            }
            assert(av.subrange(0, i as int) =~= av);
            Some(out)
        },
        Some(_) => None,
    }
}

fn write_service(s: &ServiceSov) -> (r: JsonValue)
    ensures
        r@ == service_json(service_sov_model(s@)),
{
    let mut e: Vec<(String, JsonValue)> = Vec::new();
    e.push(entry("id", text(s.id().as_str())));
    let t = match s.service_type() {
        OneOrList::One(t) => text(t.as_str()),
        OneOrList::List(v) => write_strs(v),
    };
    e.push(entry("type", t));
    e.push(entry("serviceEndpoint", text(s.service_endpoint().as_str())));
    let extra = s.extra();
    let priority = JsonValue::Number(extra.priority as u64);
    assert(priority@ == Json::Number(service_sov_model(s@).priority as u64));
    e.push(entry("priority", priority));
    e.push(entry("recipientKeys", write_strs(&extra.recipient_keys)));
    e.push(entry("routingKeys", write_strs(&extra.routing_keys)));
    e.push(entry("accept", write_strs(&extra.accept)));
    let r = JsonValue::Object(e);
    let ghost want = service_json(service_sov_model(s@))->Object_0;
    assert(r@->Object_0[3] == want[3]);
    assert(r@->Object_0 =~= want);
    r
}

pub(crate) fn read_optional_strs(j: Option<&JsonValue>) -> (r: Option<Vec<String>>)
    ensures
        match optional_strs(opt_view(j)) {
            Some(v) => r matches Some(t) && texts(t@) == v,
            None => r is None,
        },
{
    match j {
        None => {
            let out: Vec<String> = Vec::new();
            assert(texts(out@) =~= Seq::empty());
            Some(out)
        },
        Some(j) => read_strs(j),
    }
}

fn read_service(j: &JsonValue) -> (r: Option<ServiceSov>)
    ensures
        match service_of(j@) {
            Some(m) => r matches Some(s) && service_sov_model(s@) == m,
            None => r is None,
        },
{
    let id = read_str_field(j, "id")?;
    let t = get_field(j, &"type".to_owned())?;
    let endpoint = read_str_field(j, "serviceEndpoint")?;
    let priority: u32 = match get_field(j, &"priority".to_owned()) {
        None => 0,
        Some(JsonValue::Number(n)) => {
            if *n <= u32::MAX as u64 {
                *n as u32
            } else {
                return None;
            }
        },
        Some(_) => {
            return None;
        },
    };
    let recipient_keys = read_optional_strs(get_field(j, &"recipientKeys".to_owned()))?;
    let routing_keys = read_optional_strs(get_field(j, &"routingKeys".to_owned()))?;
    let accept = read_optional_strs(get_field(j, &"accept".to_owned()))?;
    let service_type = match t {
        JsonValue::Str(s) => OneOrList::One(s.clone()),
        _ => match read_strs(t) {
            Some(v) => OneOrList::List(v),
            None => {
                return None;
            },
        },
    };
    let extra = ExtraFieldsSov { priority, recipient_keys, routing_keys, accept };
    Some(Service::from_parts(Uri::from_text(id), service_type, Url::from_text(endpoint), extra))
}

fn write_services(v: &[ServiceSov]) -> (r: JsonValue)
    ensures
        r@ == list_json(service_models(v@), |s| service_json(s)),
{
    let mut out: Vec<JsonValue> = Vec::new();
    let mut i: usize = 0;
    while i < v.len()
        invariant
            i <= v@.len(),
            out@.len() == i,
            forall|m: int| 0 <= m < i ==> (#[trigger] out@[m])@ == service_json(service_sov_model(v@[m]@)),
        decreases v@.len() - i,
    {
        out.push(write_service(&v[i]));
        i = i + 1;
    }
    let r = JsonValue::Array(out);
    assert(r@->Array_0 =~= list_json(service_models(v@), |s| service_json(s))->Array_0);
    r
}

fn read_services(j: Option<&JsonValue>) -> (r: Option<Vec<ServiceSov>>)
    ensures
        match optional_list(opt_view(j), |x| service_of(x)) {
            Some(ms) => r matches Some(v) && service_models(v@) == ms,
            None => r is None,
        },
{
    let mut out: Vec<ServiceSov> = Vec::new();
    match j {
        None => {
            assert(service_models(out@) =~= Seq::empty());
            Some(out)
        },
        Some(JsonValue::Array(a)) => {
            let ghost av = j.unwrap()@->Array_0;
            let mut i: usize = 0;
            while i < a.len()
                invariant
                    i <= a@.len(),
                    av.len() == a@.len(),
                    opt_view(j) == Some(Json::Array(av)),
                    forall|m: int| 0 <= m < a@.len() ==> av[m] == (#[trigger] a@[m])@,
                    forall|m: int| 0 <= m < i ==> #[trigger] service_of(av[m]) is Some,
                    service_models(out@) =~= av.subrange(0, i as int).map_values(|x: Json| service_of(x)->Some_0),
                decreases a@.len() - i,
            {
                assert(av[i as int] == a@[i as int]@);
                match read_service(&a[i]) {
                    Some(s) => {
                        let ghost before = out@;
                        out.push(s);
                        assert(service_models(out@) =~= service_models(before).push(service_sov_model(s@)));
                        assert(av.subrange(0, i + 1).map_values(|x: Json| service_of(x)->Some_0)
                            =~= av.subrange(0, i as int).map_values(|x: Json| service_of(x)->Some_0).push(service_of(av[i as int])->Some_0));
                    },
                    None => {
                        proof {
                            lemma_list_of_fails(av, |x| service_of(x), i as int);
                        }
                        return None;
                    },
                }
                i = i + 1;
            }
            assert(av.subrange(0, i as int) =~= av);
            Some(out)
        },
        Some(_) => None,
    }
}

fn write_uris(v: &[Uri]) -> (r: JsonValue)
    ensures
        r@ == strs_json(uri_texts(v@)),
{
    let mut out: Vec<JsonValue> = Vec::new();
    let mut i: usize = 0;
    while i < v.len()
        invariant
            i <= v@.len(),
            out@.len() == i,
            forall|m: int| 0 <= m < i ==> (#[trigger] out@[m])@ == Json::Str(v@[m]@),
        decreases v@.len() - i,
    {
        out.push(text(v[i].as_str()));
        i = i + 1;
    }
    let r = JsonValue::Array(out);
    assert(r@->Array_0 =~= strs_json(uri_texts(v@))->Array_0);
    r
}

fn read_uris(j: Option<&JsonValue>) -> (r: Option<Vec<Uri>>)
    ensures
        match optional_strs(opt_view(j)) {
            Some(v) => r matches Some(t) && uri_texts(t@) == v,
            None => r is None,
        },
{
    let strs = read_optional_strs(j)?;
    let mut out: Vec<Uri> = Vec::new();
    let mut i: usize = 0;
    while i < strs.len()
        invariant
            i <= strs@.len(),
            uri_texts(out@) =~= texts(strs@).subrange(0, i as int),
        decreases strs@.len() - i,
    {
        let ghost before = out@;
        let u = Uri::from_text(strs[i].clone());
        out.push(u);
        assert(uri_texts(out@) =~= uri_texts(before).push(u@));
        i = i + 1;
    }
    assert(texts(strs@).subrange(0, i as int) =~= texts(strs@));
    Some(out)
}

fn write_dids(v: &Vec<Did>) -> (r: JsonValue)
    ensures
        r@ == strs_json(did_texts(v@)),
        forall|i: int| 0 <= i < v@.len() ==> is_did(#[trigger] did_texts(v@)[i]),
{
    let mut out: Vec<JsonValue> = Vec::new();
    let mut i: usize = 0;
    while i < v.len()
        invariant
            i <= v@.len(),
            out@.len() == i,
            forall|m: int| 0 <= m < i ==> (#[trigger] out@[m])@ == Json::Str(v@[m]@),
            forall|m: int| 0 <= m < i ==> is_did(#[trigger] did_texts(v@)[m]),
        decreases v@.len() - i,
    {
        out.push(text(v[i].did()));
        i = i + 1;
    }
    let r = JsonValue::Array(out);
    assert(r@->Array_0 =~= strs_json(did_texts(v@))->Array_0);
    r
}

fn write_controller(c: Option<&OneOrList<Did>>) -> (r: JsonValue)
    ensures
        match c {
            None => r@ == controller_json(None) && controller_valid(None),
            Some(c) => r@ == controller_json(controller_model(Some(*c))) && controller_valid(
                controller_model(Some(*c)),
            ),
        },
{
    match c {
        None => JsonValue::Null,
        Some(OneOrList::One(d)) => text(d.did()),
        Some(OneOrList::List(v)) => write_dids(v),
    }
}

fn read_controller(j: Option<&JsonValue>) -> (r: Option<Option<OneOrList<Did>>>)
    ensures
        match controller_of(opt_view(j)) {
            Some(m) => r matches Some(c) && controller_model(c) == m,
            None => r is None,
        },
{
    match j {
        None => Some(None),
        Some(JsonValue::Null) => Some(None),
        Some(JsonValue::Str(s)) => match Did::parse(s.clone()) {
            Ok(d) => Some(Some(OneOrList::One(d))),
            Err(_) => None,
        },
        Some(other) => {
            let strs = read_strs(other)?;
            let mut out: Vec<Did> = Vec::new();
            let mut i: usize = 0;
            while i < strs.len()
                invariant
                    i <= strs@.len(),
                    did_texts(out@) =~= texts(strs@).subrange(0, i as int),
                    opt_view(j) == Some(other@),
                    strs_of(other@) == Some(texts(strs@)),
                    !(other@ is Null) && !(other@ is Str),
                    forall|m: int| 0 <= m < i ==> is_did(#[trigger] texts(strs@)[m]),
                decreases strs@.len() - i,
            {
                let ghost before = out@;
                match Did::parse(strs[i].clone()) {
                    Ok(d) => {
                        out.push(d);
                        assert(did_texts(out@) =~= did_texts(before).push(d@));
                    },
                    Err(_) => {
                        assert(!is_did(texts(strs@)[i as int]));
                        return None;
                    },
                }
                i = i + 1;
            }
            assert(texts(strs@).subrange(0, i as int) =~= texts(strs@));
            Some(Some(OneOrList::List(out)))
        },
    }
}

/// The JSON form of a document.
pub fn did_doc_to_json(doc: &DidDocumentSov) -> (r: JsonValue)
    ensures
        r@ == doc_json(doc@),
        doc_valid(doc@),
{
    let mut e: Vec<(String, JsonValue)> = Vec::new();
    e.push(entry("id", text(doc.id().did())));
    e.push(entry("alsoKnownAs", write_uris(doc.also_known_as())));
    e.push(entry("controller", write_controller(doc.controller())));
    e.push(entry("verificationMethod", write_vms(doc.verification_method())));
    e.push(entry("authentication", write_vm_kinds(doc.authentication())));
    e.push(entry("assertionMethod", write_vm_kinds(doc.assertion_method())));
    e.push(entry("keyAgreement", write_vm_kinds(doc.key_agreement())));
    e.push(entry("capabilityInvocation", write_vm_kinds(doc.capability_invocation())));
    e.push(entry("capabilityDelegation", write_vm_kinds(doc.capability_delegation())));
    e.push(entry("service", write_services(doc.service())));
    let r = JsonValue::Object(e);
    assert(r@->Object_0 =~= doc_json(doc@)->Object_0);
    r
}

/// Reads a document from its JSON form; fails with `SerializationError`
/// exactly when the value is not the JSON form of a document.
pub fn did_doc_from_json(j: &JsonValue) -> (r: Result<DidDocumentSov, AriesVcxError>)
    ensures
        match doc_of(j@) {
            Some(m) => r matches Ok(d) && d@ == m,
            None => r matches Err(e) && e.kind == AriesVcxErrorKind::SerializationError,
        },
{
    match read_doc(j) {
        Some(d) => Ok(d),
        None => Err(AriesVcxError::from_msg(AriesVcxErrorKind::SerializationError, "not a DID document")),
    }
}

fn read_doc(j: &JsonValue) -> (r: Option<DidDocumentSov>)
    ensures
        match doc_of(j@) {
            Some(m) => r matches Some(d) && d@ == m,
            None => r is None,
        },
{
    let id = read_str_field(j, "id")?;
    let also_known_as = read_uris(get_field(j, &"alsoKnownAs".to_owned()))?;
    let controller = read_controller(get_field(j, &"controller".to_owned()))?;
    let verification_method = read_vms(get_field(j, &"verificationMethod".to_owned()))?;
    let authentication = read_vm_kinds(get_field(j, &"authentication".to_owned()))?;
    let assertion_method = read_vm_kinds(get_field(j, &"assertionMethod".to_owned()))?;
    let key_agreement = read_vm_kinds(get_field(j, &"keyAgreement".to_owned()))?;
    let capability_invocation = read_vm_kinds(get_field(j, &"capabilityInvocation".to_owned()))?;
    let capability_delegation = read_vm_kinds(get_field(j, &"capabilityDelegation".to_owned()))?;
    let services = read_services(get_field(j, &"service".to_owned()))?;
    match Did::parse(id) {
        Ok(id) => Some(
            DidDocumentSov::from_parts(
                id,
                also_known_as,
                controller,
                verification_method,
                authentication,
                assertion_method,
                key_agreement,
                capability_invocation,
                capability_delegation,
                services,
            ),
        ),
        Err(_) => None,
    }
}

} // verus!
