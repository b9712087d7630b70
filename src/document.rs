use vstd::prelude::*;
use vstd::string::*;

use crate::did::{Did, DidUrl};
use crate::error::{AriesVcxError, AriesVcxErrorKind};
use crate::key::{base58_decoding, base58_encoding, Key, KeyType};
use crate::schema::{texts, OneOrList, OneOrListView, Service, ServiceModel, Uri};

verus! {

/// The kinds of verification method that documents of this library carry.
#[derive(Clone, Copy, Debug, PartialEq, Eq, Structural)]
pub enum VerificationMethodType {
    Ed25519VerificationKey2018,
    Ed25519VerificationKey2020,
    X25519KeyAgreementKey2020,
}

/// How a verification method writes its public key.
#[derive(Debug, PartialEq, Eq)]
pub enum PublicKeyField {
    Base58 { public_key_base58: String },
    Multibase { public_key_multibase: String },
}

/// What a `PublicKeyField` holds.
pub enum PublicKeyModel {
    Base58(Seq<char>),
    Multibase(Seq<char>),
}

impl View for PublicKeyField {
    type V = PublicKeyModel;

    open spec fn view(&self) -> PublicKeyModel {
        match self {
            PublicKeyField::Base58 { public_key_base58 } => PublicKeyModel::Base58(public_key_base58@),
            PublicKeyField::Multibase { public_key_multibase } => PublicKeyModel::Multibase(
                public_key_multibase@,
            ),
        }
    }
}

impl PublicKeyField {
    /// The key text, whichever way it is written.
    pub fn key_text(&self) -> (r: &String)
        ensures
            r@ == match self@ {
                PublicKeyModel::Base58(s) => s,
                PublicKeyModel::Multibase(s) => s,
            },
    {
        match self {
            PublicKeyField::Base58 { public_key_base58 } => public_key_base58,
            PublicKeyField::Multibase { public_key_multibase } => public_key_multibase,
        }
    }
}

/// Key bytes without the multicodec prefix of an Ed25519 or X25519 public
/// key, if they carry one.
pub open spec fn strip_multicodec(b: Seq<u8>) -> Seq<u8> {
    if b.len() >= 2 && b[1] == 0x01u8 && (b[0] == 0xedu8 || b[0] == 0xecu8) {
        b.subrange(2, b.len() as int)
    } else {
        b
    }
}

/// A public key field as base58 text: base58 as written, or a multibase
/// base58btc (`z`) key decoded, stripped of its multicodec prefix and
/// encoded again. `None` for any other multibase text.
pub open spec fn key_base58(k: PublicKeyModel) -> Option<Seq<char>> {
    match k {
        PublicKeyModel::Base58(s) => Some(s),
        PublicKeyModel::Multibase(s) => if s.len() > 0 && s[0] == 'z' {
            match base58_decoding(s.drop_first()) {
                Some(b) => Some(base58_encoding(strip_multicodec(b))),
                None => None,
            }
        } else {
            None
        },
    }
}

impl PublicKeyField {
    /// The key as base58 text; fails with `InvalidKey` for a multibase key
    /// that is not base58btc.
    pub fn base58(&self) -> (r: Result<String, AriesVcxError>)
        ensures
            match key_base58(self@) {
                Some(t) => r matches Ok(s) && s@ == t,
                None => r matches Err(e) && e.kind == AriesVcxErrorKind::InvalidKey,
            },
    {
        match self {
            PublicKeyField::Base58 { public_key_base58 } => Ok(public_key_base58.clone()),
            PublicKeyField::Multibase { public_key_multibase } => {
                let text = public_key_multibase.as_str();
                let n = text.unicode_len();
                if n == 0 || text.get_char(0) != 'z' {
                    return Err(AriesVcxError::from_msg(AriesVcxErrorKind::InvalidKey, "key is not base58btc multibase"));
                }
                let rest = text.substring_char(1, n);
                assert(rest@ =~= public_key_multibase@.drop_first());
                let key = Key::from_base58(rest, KeyType::Ed25519)?;
                let bytes = key.key();
                let mut start: usize = 0;
                if bytes.len() >= 2 && bytes[1] == 0x01u8 && (bytes[0] == 0xedu8 || bytes[0] == 0xecu8) {
                    start = 2;
                }
                let mut stripped: Vec<u8> = Vec::new();
                let mut i: usize = start;
                while i < bytes.len()
                    invariant
                        start <= i <= bytes@.len(),
                        stripped@ =~= bytes@.subrange(start as int, i as int),
                    decreases bytes@.len() - i,
                {
                    stripped.push(bytes[i]);
                    i = i + 1;
                }
                assert(stripped@ =~= strip_multicodec(bytes@));
                Ok(Key::new(stripped, KeyType::Ed25519).base58())
            },
        }
    }
}

impl Clone for PublicKeyField {
    fn clone(&self) -> (r: PublicKeyField)
        ensures
            r@ == self@,
    {
        match self {
            PublicKeyField::Base58 { public_key_base58 } => PublicKeyField::Base58 {
                public_key_base58: public_key_base58.clone(),
            },
            PublicKeyField::Multibase { public_key_multibase } => PublicKeyField::Multibase {
                public_key_multibase: public_key_multibase.clone(),
            },
        }
    }
}

/// What a `VerificationMethod` holds.
pub struct VerificationMethodModel {
    pub id: Seq<char>,
    pub controller: Seq<char>,
    pub method_type: VerificationMethodType,
    pub public_key: PublicKeyModel,
}

/// A public key of a DID subject, with its id, controller and type.
#[derive(Debug, PartialEq, Eq)]
pub struct VerificationMethod {
    id: DidUrl,
    controller: Did,
    verification_method_type: VerificationMethodType,
    public_key: PublicKeyField,
}

impl View for VerificationMethod {
    type V = VerificationMethodModel;

    closed spec fn view(&self) -> VerificationMethodModel {
        VerificationMethodModel {
            id: self.id@,
            controller: self.controller@,
            method_type: self.verification_method_type,
            public_key: self.public_key@,
        }
    }
}

impl VerificationMethod {
    pub fn new(
        id: DidUrl,
        controller: Did,
        verification_method_type: VerificationMethodType,
        public_key: PublicKeyField,
    ) -> (r: VerificationMethod)
        ensures
            r@ == (VerificationMethodModel {
                id: id@,
                controller: controller@,
                method_type: verification_method_type,
                public_key: public_key@,
            }),
    {
        VerificationMethod { id, controller, verification_method_type, public_key }
    }

    pub fn id(&self) -> (r: &DidUrl)
        ensures
            r@ == self@.id,
    {
        &self.id
    }

    pub fn controller(&self) -> (r: &Did)
        ensures
            r@ == self@.controller,
    {
        &self.controller
    }

    pub fn verification_method_type(&self) -> (r: VerificationMethodType)
        ensures
            r == self@.method_type,
    {
        self.verification_method_type
    }

    pub fn public_key(&self) -> (r: &PublicKeyField)
        ensures
            r@ == self@.public_key,
    {
        &self.public_key
    }
}

impl Clone for VerificationMethod {
    fn clone(&self) -> (r: VerificationMethod)
        ensures
            r@ == self@,
    {
        VerificationMethod {
            id: self.id.clone(),
            controller: self.controller.clone(),
            verification_method_type: self.verification_method_type,
            public_key: self.public_key.clone(),
        }
    }
}

/// A verification relationship entry: a method written out in place, or a
/// reference to one.
#[derive(Clone, Debug, PartialEq, Eq)]
pub enum VerificationMethodKind {
    Resolved(VerificationMethod),
    Resolvable(DidUrl),
}

/// What a `VerificationMethodKind` holds.
pub enum VerificationMethodKindModel {
    Resolved(VerificationMethodModel),
    Resolvable(Seq<char>),
}

impl View for VerificationMethodKind {
    type V = VerificationMethodKindModel;

    open spec fn view(&self) -> VerificationMethodKindModel {
        match self {
            VerificationMethodKind::Resolved(vm) => VerificationMethodKindModel::Resolved(vm@),
            VerificationMethodKind::Resolvable(url) => VerificationMethodKindModel::Resolvable(url@),
        }
    }
}

/// The fields that a DIDComm service carries besides id, type and endpoint.
#[derive(Clone, Debug, PartialEq, Eq, Default)]
pub struct ExtraFieldsSov {
    pub priority: u32,
    pub recipient_keys: Vec<String>,
    pub routing_keys: Vec<String>,
    pub accept: Vec<String>,
}

/// A service of a DID document with DIDComm fields.
pub type ServiceSov = Service<ExtraFieldsSov>;

/// The service type that DIDComm v1 services carry.
pub open spec fn didcomm_service_type() -> Seq<char> {
    "did-communication"@
}

/// What a DIDComm service holds.
pub struct ServiceSovModel {
    pub id: Seq<char>,
    pub service_type: OneOrListView<Seq<char>>,
    pub service_endpoint: Seq<char>,
    pub priority: u32,
    pub recipient_keys: Seq<Seq<char>>,
    pub routing_keys: Seq<Seq<char>>,
    pub accept: Seq<Seq<char>>,
}

pub open spec fn one_or_list_texts(o: OneOrListView<String>) -> OneOrListView<Seq<char>> {
    match o {
        OneOrListView::One(s) => OneOrListView::One(s@),
        OneOrListView::List(v) => OneOrListView::List(texts(v)),
    }
}

pub open spec fn service_sov_model(s: ServiceModel<ExtraFieldsSov>) -> ServiceSovModel {
    ServiceSovModel {
        id: s.id,
        service_type: one_or_list_texts(s.service_type),
        service_endpoint: s.service_endpoint,
        priority: s.extra.priority,
        recipient_keys: texts(s.extra.recipient_keys@),
        routing_keys: texts(s.extra.routing_keys@),
        accept: texts(s.extra.accept@),
    }
}

/// What a DID document holds.
pub struct DidDocumentModel {
    pub id: Seq<char>,
    pub also_known_as: Seq<Seq<char>>,
    pub controller: Option<OneOrListView<Seq<char>>>,
    pub verification_method: Seq<VerificationMethodModel>,
    pub authentication: Seq<VerificationMethodKindModel>,
    pub assertion_method: Seq<VerificationMethodKindModel>,
    pub key_agreement: Seq<VerificationMethodKindModel>,
    pub capability_invocation: Seq<VerificationMethodKindModel>,
    pub capability_delegation: Seq<VerificationMethodKindModel>,
    pub service: Seq<ServiceSovModel>,
}

pub open spec fn uri_texts(v: Seq<Uri>) -> Seq<Seq<char>> {
    v.map_values(|u: Uri| u@)
}

pub open spec fn did_texts(v: Seq<Did>) -> Seq<Seq<char>> {
    v.map_values(|d: Did| d@)
}

pub open spec fn controller_model(c: Option<OneOrList<Did>>) -> Option<OneOrListView<Seq<char>>> {
    match c {
        None => None,
        Some(OneOrList::One(d)) => Some(OneOrListView::One(d@)),
        Some(OneOrList::List(v)) => Some(OneOrListView::List(did_texts(v@))),
    }
}

pub open spec fn vm_models(v: Seq<VerificationMethod>) -> Seq<VerificationMethodModel> {
    v.map_values(|m: VerificationMethod| m@)
}

pub open spec fn vm_kind_models(v: Seq<VerificationMethodKind>) -> Seq<VerificationMethodKindModel> {
    v.map_values(|m: VerificationMethodKind| m@)
}

pub open spec fn service_models(v: Seq<ServiceSov>) -> Seq<ServiceSovModel> {
    v.map_values(|s: ServiceSov| service_sov_model(s@))
}

/// A DID document: the identifier, its keys, and the services that reach it.
#[derive(Clone, Debug, PartialEq, Eq)]
pub struct DidDocumentSov {
    id: Did,
    also_known_as: Vec<Uri>,
    controller: Option<OneOrList<Did>>,
    verification_method: Vec<VerificationMethod>,
    authentication: Vec<VerificationMethodKind>,
    assertion_method: Vec<VerificationMethodKind>,
    key_agreement: Vec<VerificationMethodKind>,
    capability_invocation: Vec<VerificationMethodKind>,
    capability_delegation: Vec<VerificationMethodKind>,
    services: Vec<ServiceSov>,
}

impl View for DidDocumentSov {
    type V = DidDocumentModel;

    closed spec fn view(&self) -> DidDocumentModel {
        DidDocumentModel {
            id: self.id@,
            also_known_as: uri_texts(self.also_known_as@),
            controller: controller_model(self.controller),
            verification_method: vm_models(self.verification_method@),
            authentication: vm_kind_models(self.authentication@),
            assertion_method: vm_kind_models(self.assertion_method@),
            key_agreement: vm_kind_models(self.key_agreement@),
            capability_invocation: vm_kind_models(self.capability_invocation@),
            capability_delegation: vm_kind_models(self.capability_delegation@),
            service: service_models(self.services@),
        }
    }
}

/// The first verification method whose id is `reference`, by position.
pub open spec fn is_first_with_id(v: Seq<VerificationMethodModel>, reference: Seq<char>, i: int) -> bool {
    &&& 0 <= i < v.len()
    &&& v[i].id == reference
    &&& forall|j: int| 0 <= j < i ==> #[trigger] v[j].id != reference
}

impl DidDocumentSov {
    pub fn builder(id: Did) -> (r: DidDocumentSovBuilder)
        ensures
            r@ == DidDocumentSovBuilder::empty_model(id@),
    {
        DidDocumentSovBuilder::new(id)
    }

    /// Assembles a document from all of its parts.
    pub(crate) fn from_parts(
        id: Did,
        also_known_as: Vec<Uri>,
        controller: Option<OneOrList<Did>>,
        verification_method: Vec<VerificationMethod>,
        authentication: Vec<VerificationMethodKind>,
        assertion_method: Vec<VerificationMethodKind>,
        key_agreement: Vec<VerificationMethodKind>,
        capability_invocation: Vec<VerificationMethodKind>,
        capability_delegation: Vec<VerificationMethodKind>,
        services: Vec<ServiceSov>,
    ) -> (r: DidDocumentSov)
        ensures
            r@ == (DidDocumentModel {
                id: id@,
                also_known_as: uri_texts(also_known_as@),
                controller: controller_model(controller),
                verification_method: vm_models(verification_method@),
                authentication: vm_kind_models(authentication@),
                assertion_method: vm_kind_models(assertion_method@),
                key_agreement: vm_kind_models(key_agreement@),
                capability_invocation: vm_kind_models(capability_invocation@),
                capability_delegation: vm_kind_models(capability_delegation@),
                service: service_models(services@),
            }),
    {
        DidDocumentSov {
            id,
            also_known_as,
            controller,
            verification_method,
            authentication,
            assertion_method,
            key_agreement,
            capability_invocation,
            capability_delegation,
            services,
        }
    }

    /// Takes the document apart, in the order of `from_parts`.
    pub(crate) fn into_parts(self) -> (r: (
        Did,
        Vec<Uri>,
        Option<OneOrList<Did>>,
        Vec<VerificationMethod>,
        Vec<VerificationMethodKind>,
        Vec<VerificationMethodKind>,
        Vec<VerificationMethodKind>,
        Vec<VerificationMethodKind>,
        Vec<VerificationMethodKind>,
        Vec<ServiceSov>,
    ))
        ensures
            r.0@ == self@.id,
            uri_texts(r.1@) == self@.also_known_as,
            controller_model(r.2) == self@.controller,
            vm_models(r.3@) == self@.verification_method,
            vm_kind_models(r.4@) == self@.authentication,
            vm_kind_models(r.5@) == self@.assertion_method,
            vm_kind_models(r.6@) == self@.key_agreement,
            vm_kind_models(r.7@) == self@.capability_invocation,
            vm_kind_models(r.8@) == self@.capability_delegation,
            service_models(r.9@) == self@.service,
    {
        (
            self.id,
            self.also_known_as,
            self.controller,
            self.verification_method,
            self.authentication,
            self.assertion_method,
            self.key_agreement,
            self.capability_invocation,
            self.capability_delegation,
            self.services,
        )
    }

    pub fn id(&self) -> (r: &Did)
        ensures
            r@ == self@.id,
    {
        &self.id
    }

    pub fn also_known_as(&self) -> (r: &[Uri])
        ensures
            uri_texts(r@) == self@.also_known_as,
    {
        self.also_known_as.as_slice()
    }

    pub fn controller(&self) -> (r: Option<&OneOrList<Did>>)
        ensures
            match r {
                None => self@.controller is None,
                Some(c) => self@.controller == controller_model(Some(*c)),
            },
    {
        match &self.controller {
            Some(c) => Some(c),
            None => None,
        }
    }

    pub fn verification_method(&self) -> (r: &[VerificationMethod])
        ensures
            vm_models(r@) == self@.verification_method,
    {
        self.verification_method.as_slice()
    }

    pub fn authentication(&self) -> (r: &[VerificationMethodKind])
        ensures
            vm_kind_models(r@) == self@.authentication,
    {
        self.authentication.as_slice()
    }

    pub fn service(&self) -> (r: &[ServiceSov])
        ensures
            service_models(r@) == self@.service,
    {
        self.services.as_slice()
    }

    pub fn assertion_method(&self) -> (r: &[VerificationMethodKind])
        ensures
            vm_kind_models(r@) == self@.assertion_method,
    {
        self.assertion_method.as_slice()
    }

    pub fn key_agreement(&self) -> (r: &[VerificationMethodKind])
        ensures
            vm_kind_models(r@) == self@.key_agreement,
    {
        self.key_agreement.as_slice()
    }

    pub fn capability_invocation(&self) -> (r: &[VerificationMethodKind])
        ensures
            vm_kind_models(r@) == self@.capability_invocation,
    {
        self.capability_invocation.as_slice()
    }

    pub fn capability_delegation(&self) -> (r: &[VerificationMethodKind])
        ensures
            vm_kind_models(r@) == self@.capability_delegation,
    {
        self.capability_delegation.as_slice()
    }

    /// The first verification method whose id is `reference`, if any.
    pub fn dereference_key(&self, reference: &DidUrl) -> (r: Option<&VerificationMethod>)
        ensures
            match r {
                None => forall|i: int|
                    0 <= i < self@.verification_method.len() ==> #[trigger] self@.verification_method[i].id
                        != reference@,
                Some(vm) => exists|i: int|
                    is_first_with_id(self@.verification_method, reference@, i)
                        && #[trigger] self@.verification_method[i] == vm@,
            },
    {
        let mut i: usize = 0;
        while i < self.verification_method.len()
            invariant
                i <= self.verification_method@.len(),
                forall|j: int| 0 <= j < i ==> #[trigger] self@.verification_method[j].id != reference@,
            decreases self.verification_method@.len() - i,
        {
            let vm = &self.verification_method[i];
            assert(self@.verification_method[i as int] == vm@);
            if vm.id.same_as(reference) {
                assert(is_first_with_id(self@.verification_method, reference@, i as int));
                return Some(vm);
            }
            i = i + 1;
        }
        None
    }
}

/// Builds a `DidDocumentSov` from an id, controllers, keys and services.
pub struct DidDocumentSovBuilder {
    id: Did,
    controller: Vec<Did>,
    verification_method: Vec<VerificationMethod>,
    key_agreement: Vec<VerificationMethodKind>,
    services: Vec<ServiceSov>,
}

/// What a `DidDocumentSovBuilder` has gathered.
pub struct DidDocumentSovBuilderModel {
    pub id: Seq<char>,
    pub controller: Seq<Seq<char>>,
    pub verification_method: Seq<VerificationMethodModel>,
    pub key_agreement: Seq<VerificationMethodKindModel>,
    pub service: Seq<ServiceSovModel>,
}

impl View for DidDocumentSovBuilder {
    type V = DidDocumentSovBuilderModel;

    closed spec fn view(&self) -> DidDocumentSovBuilderModel {
        DidDocumentSovBuilderModel {
            id: self.id@,
            controller: did_texts(self.controller@),
            verification_method: vm_models(self.verification_method@),
            key_agreement: vm_kind_models(self.key_agreement@),
            service: service_models(self.services@),
        }
    }
}

/// The document that a builder's gathered parts make.
pub open spec fn built_model(b: DidDocumentSovBuilderModel) -> DidDocumentModel {
    DidDocumentModel {
        id: b.id,
        also_known_as: Seq::empty(),
        controller: if b.controller.len() == 0 {
            None
        } else {
            Some(OneOrListView::List(b.controller))
        },
        verification_method: b.verification_method,
        authentication: Seq::empty(),
        assertion_method: Seq::empty(),
        key_agreement: b.key_agreement,
        capability_invocation: Seq::empty(),
        capability_delegation: Seq::empty(),
        service: b.service,
    }
}

impl DidDocumentSovBuilder {
    pub open spec fn empty_model(id: Seq<char>) -> DidDocumentSovBuilderModel {
        DidDocumentSovBuilderModel {
            id,
            controller: Seq::empty(),
            verification_method: Seq::empty(),
            key_agreement: Seq::empty(),
            service: Seq::empty(),
        }
    }

    pub fn new(id: Did) -> (r: DidDocumentSovBuilder)
        ensures
            r@ == Self::empty_model(id@),
    {
        let r = DidDocumentSovBuilder {
            id,
            controller: Vec::new(),
            verification_method: Vec::new(),
            key_agreement: Vec::new(),
            services: Vec::new(),
        };
        assert(r@.controller =~= Seq::empty());
        assert(r@.verification_method =~= Seq::empty());
        assert(r@.key_agreement =~= Seq::empty());
        assert(r@.service =~= Seq::empty());
        r
    }

    pub fn add_controller(self, controller: Did) -> (r: DidDocumentSovBuilder)
        ensures
            r@ == (DidDocumentSovBuilderModel { controller: self@.controller.push(controller@), ..self@ }),
    {
        let mut b = self;
        let ghost c = controller@;
        b.controller.push(controller);
        assert(did_texts(b.controller@) =~= self@.controller.push(c));
        b
    }

    pub fn add_verification_method(self, verification_method: VerificationMethod) -> (r: DidDocumentSovBuilder)
        ensures
            r@ == (DidDocumentSovBuilderModel {
                verification_method: self@.verification_method.push(verification_method@),
                ..self@
            }),
    {
        let mut b = self;
        let ghost m = verification_method@;
        b.verification_method.push(verification_method);
        assert(vm_models(b.verification_method@) =~= self@.verification_method.push(m));
        b
    }

    pub fn add_key_agreement(self, key_agreement: VerificationMethod) -> (r: DidDocumentSovBuilder)
        ensures
            r@ == (DidDocumentSovBuilderModel {
                key_agreement: self@.key_agreement.push(
                    VerificationMethodKindModel::Resolved(key_agreement@),
                ),
                ..self@
            }),
    {
        let mut b = self;
        let ghost m = key_agreement@;
        b.key_agreement.push(VerificationMethodKind::Resolved(key_agreement));
        assert(vm_kind_models(b.key_agreement@) =~= self@.key_agreement.push(
            VerificationMethodKindModel::Resolved(m),
        ));
        b
    }

    pub fn add_service(self, service: ServiceSov) -> (r: DidDocumentSovBuilder)
        ensures
            r@ == (DidDocumentSovBuilderModel {
                service: self@.service.push(service_sov_model(service@)),
                ..self@
            }),
    {
        let mut b = self;
        let ghost m = service_sov_model(service@);
        b.services.push(service);
        assert(service_models(b.services@) =~= self@.service.push(m));
        b
    }

    pub fn build(self) -> (r: DidDocumentSov)
        ensures
            r@ == built_model(self@),
    {
        let controller = if self.controller.len() == 0 {
            None
        } else {
            Some(OneOrList::List(self.controller))
        };
        let r = DidDocumentSov {
            id: self.id,
            also_known_as: Vec::new(),
            controller,
            verification_method: self.verification_method,
            authentication: Vec::new(),
            assertion_method: Vec::new(),
            key_agreement: self.key_agreement,
            capability_invocation: Vec::new(),
            capability_delegation: Vec::new(),
            services: self.services,
        };
        assert(r@.also_known_as =~= Seq::empty());
        assert(r@.authentication =~= Seq::empty());
        assert(r@.assertion_method =~= Seq::empty());
        assert(r@.capability_invocation =~= Seq::empty());
        assert(r@.capability_delegation =~= Seq::empty());
        r
    }
}

} // verus!
