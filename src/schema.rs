use vstd::prelude::*;

verus! {

/// The normal form (`url::Url::as_str`) of a text that the URL parser
/// accepts as an absolute URL; `None` for any other text.
pub uninterp spec fn url_normal_form(s: Seq<char>) -> Option<Seq<char>>;

/// Relies on `url::Url::parse` and `Url::as_str`: the parsed URL written in
/// its normal form, or `None` when the text is not an absolute URL.
#[verifier::external_body]
fn url_normalized(s: &str) -> (r: Option<String>)
    ensures
        match r {
            Some(t) => url_normal_form(s@) == Some(t@),
            None => url_normal_form(s@) is None,
        },
{
    url::Url::parse(s).ok().map(|u| u.as_str().to_string())
}

/// Why a document part could not be built.
#[derive(Clone, Copy, Debug, PartialEq, Eq, Structural)]
pub enum DidDocumentBuilderError {
    /// A required field was left empty.
    MissingField,
    /// A text is not an absolute URI or URL.
    InvalidUri,
}

/// An identifier of a document part, written as a URI.
#[derive(Debug, PartialEq, Eq)]
pub struct Uri {
    uri: String,
}

impl View for Uri {
    type V = Seq<char>;

    closed spec fn view(&self) -> Seq<char> {
        self.uri@
    }
}

impl Uri {
    /// Fails with `InvalidUri` exactly when the text is not an absolute URI;
    /// keeps the URI in its normal form.
    pub fn new(s: &str) -> (r: Result<Uri, DidDocumentBuilderError>)
        ensures
            r is Ok <==> url_normal_form(s@) is Some,
            r matches Ok(u) ==> Some(u@) == url_normal_form(s@),
            r matches Err(e) ==> e == DidDocumentBuilderError::InvalidUri,
    {
        match url_normalized(s) {
            Some(t) => Ok(Uri { uri: t }),
            None => Err(DidDocumentBuilderError::InvalidUri),
        }
    }

    /// Takes a text as it stands, as read back from a document.
    pub(crate) fn from_text(uri: String) -> (r: Uri)
        ensures
            r@ == uri@,
    {
        Uri { uri }
    }

    pub fn as_str(&self) -> (r: &str)
        ensures
            r@ == self@,
    {
        self.uri.as_str()
    }

    pub fn to_string(&self) -> (r: String)
        ensures
            r@ == self@,
    {
        self.uri.clone()
    }
}

impl Default for Uri {
    fn default() -> (r: Uri)
        ensures
            r@ == Seq::<char>::empty(),
    {
        Uri { uri: String::new() }
    }
}

impl Clone for Uri {
    fn clone(&self) -> (r: Uri)
        ensures
            r == *self,
    {
        Uri { uri: self.uri.clone() }
    }
}

/// A service endpoint address.
#[derive(Debug, PartialEq, Eq)]
pub struct Url {
    url: String,
}

impl View for Url {
    type V = Seq<char>;

    closed spec fn view(&self) -> Seq<char> {
        self.url@
    }
}

impl Url {
    /// Fails with `InvalidUri` exactly when the text is not an absolute URL;
    /// keeps the URL in its normal form.
    pub fn new(s: &str) -> (r: Result<Url, DidDocumentBuilderError>)
        ensures
            r is Ok <==> url_normal_form(s@) is Some,
            r matches Ok(u) ==> Some(u@) == url_normal_form(s@),
            r matches Err(e) ==> e == DidDocumentBuilderError::InvalidUri,
    {
        match url_normalized(s) {
            Some(t) => Ok(Url { url: t }),
            None => Err(DidDocumentBuilderError::InvalidUri),
        }
    }

    /// Takes a text as it stands, as read back from a document.
    pub(crate) fn from_text(url: String) -> (r: Url)
        ensures
            r@ == url@,
    {
        Url { url }
    }

    pub fn as_str(&self) -> (r: &str)
        ensures
            r@ == self@,
    {
        self.url.as_str()
    }

    pub fn to_string(&self) -> (r: String)
        ensures
            r@ == self@,
    {
        self.url.clone()
    }
}

impl Clone for Url {
    fn clone(&self) -> (r: Url)
        ensures
            r == *self,
    {
        Url { url: self.url.clone() }
    }
}

impl AsRef<str> for Url {
    fn as_ref(&self) -> &str {
        self.url.as_str()
    }
}

/// One value, or a list of them.
#[derive(Clone, Debug, PartialEq, Eq)]
pub enum OneOrList<T> {
    One(T),
    List(Vec<T>),
}

/// What a `OneOrList` holds.
pub enum OneOrListView<T> {
    One(T),
    List(Seq<T>),
}

impl<T> View for OneOrList<T> {
    type V = OneOrListView<T>;

    open spec fn view(&self) -> OneOrListView<T> {
        match self {
            OneOrList::One(t) => OneOrListView::One(*t),
            OneOrList::List(v) => OneOrListView::List(v@),
        }
    }
}

/// What a `Service` holds.
pub struct ServiceModel<E> {
    pub id: Seq<char>,
    pub service_type: OneOrListView<String>,
    pub service_endpoint: Seq<char>,
    pub extra: E,
}

/// A service entry of a DID document: where and how to reach its subject.
#[derive(Clone, Debug, PartialEq, Eq)]
pub struct Service<E> where E: Default {
    id: Uri,
    service_type: OneOrList<String>,
    service_endpoint: Url,
    extra: E,
}

impl<E: Default> View for Service<E> {
    type V = ServiceModel<E>;

    closed spec fn view(&self) -> ServiceModel<E> {
        ServiceModel {
            id: self.id@,
            service_type: self.service_type@,
            service_endpoint: self.service_endpoint@,
            extra: self.extra,
        }
    }
}

impl<E: Default> Service<E> {
    pub fn builder(id: Uri, service_endpoint: Url) -> (r: Result<ServiceBuilder<E>, DidDocumentBuilderError>)
        ensures
            r matches Ok(b) && b.spec_id() == id && b.spec_endpoint() == service_endpoint
                && b.spec_types().len() == 0,
            r is Ok,
    {
        ServiceBuilder::new(id, service_endpoint)
    }

    /// Assembles a service from its parts.
    pub fn from_parts(id: Uri, service_type: OneOrList<String>, service_endpoint: Url, extra: E) -> (r: Service<E>)
        ensures
            r@ == (ServiceModel {
                id: id@,
                service_type: service_type@,
                service_endpoint: service_endpoint@,
                extra,
            }),
    {
        Service { id, service_type, service_endpoint, extra }
    }

    /// Takes the service apart.
    pub fn into_parts(self) -> (r: (Uri, OneOrList<String>, Url, E))
        ensures
            r.0@ == self@.id,
            r.1@ == self@.service_type,
            r.2@ == self@.service_endpoint,
            r.3 == self@.extra,
    {
        (self.id, self.service_type, self.service_endpoint, self.extra)
    }

    pub fn id(&self) -> (r: &Uri)
        ensures
            r@ == self@.id,
    {
        &self.id
    }

    pub fn service_type(&self) -> (r: &OneOrList<String>)
        ensures
            r@ == self@.service_type,
    {
        &self.service_type
    }

    pub fn service_endpoint(&self) -> (r: &Url)
        ensures
            r@ == self@.service_endpoint,
    {
        &self.service_endpoint
    }

    pub fn extra(&self) -> (r: &E)
        ensures
            *r == self@.extra,
    {
        &self.extra
    }
}

/// Builds a `Service`, keeping each service type once, in the order first added.
#[derive(Debug)]
pub struct ServiceBuilder<E> {
    id: Uri,
    service_type: Vec<String>,
    service_endpoint: Url,
    extra: E,
}

/// The texts of a list of strings.
pub open spec fn texts(v: Seq<String>) -> Seq<Seq<char>> {
    v.map_values(|s: String| s@)
}

impl<E> ServiceBuilder<E> {
    /// Each service type is kept once.
    #[verifier::type_invariant]
    closed spec fn wf(&self) -> bool {
        texts(self.service_type@).no_duplicates()
    }
}

impl<E: Default> ServiceBuilder<E> {
    pub closed spec fn spec_id(&self) -> Uri {
        self.id
    }

    pub closed spec fn spec_types(&self) -> Seq<String> {
        self.service_type@
    }

    pub closed spec fn spec_endpoint(&self) -> Url {
        self.service_endpoint
    }

    pub closed spec fn spec_extra(&self) -> E {
        self.extra
    }

    pub fn new(id: Uri, service_endpoint: Url) -> (r: Result<ServiceBuilder<E>, DidDocumentBuilderError>)
        ensures
            r matches Ok(b) && b.spec_id() == id && b.spec_endpoint() == service_endpoint
                && b.spec_types().len() == 0,
            r is Ok,
    {
        let service_type: Vec<String> = Vec::new();
        assert(texts(service_type@) =~= Seq::empty());
        Ok(ServiceBuilder { id, service_endpoint, service_type, extra: E::default() })
    }

    /// Adds a service type; an empty one fails with `MissingField`, and one
    /// already present leaves the list as it was.
    pub fn add_service_type(self, service_type: String) -> (r: Result<ServiceBuilder<E>, DidDocumentBuilderError>)
        ensures
            r is Err <==> service_type@.len() == 0,
            r matches Err(e) ==> e == DidDocumentBuilderError::MissingField,
            r matches Ok(b) ==> {
                &&& b.spec_id() == self.spec_id()
                &&& b.spec_endpoint() == self.spec_endpoint()
                &&& b.spec_extra() == self.spec_extra()
                &&& if texts(self.spec_types()).contains(service_type@) {
                    b.spec_types() == self.spec_types()
                } else {
                    b.spec_types() == self.spec_types().push(service_type)
                }
            },
    {
        proof {
            use_type_invariant(&self);
        }
        if service_type.as_str().is_empty() {
            return Err(DidDocumentBuilderError::MissingField);
        }
        let ghost old_types = self.service_type@;
        let mut i: usize = 0;
        while i < self.service_type.len()
            invariant
                i <= self.service_type@.len(),
                service_type@.len() > 0,
                self.service_type@ == old_types,
                forall|j: int| 0 <= j < i ==> self.service_type@[j]@ != service_type@,
            decreases self.service_type@.len() - i,
        {
            if self.service_type[i] == service_type {
                assert(texts(self.service_type@)[i as int] == service_type@);
                assert(texts(self.spec_types()).contains(service_type@));
                return Ok(self);
            }
            i = i + 1;
        }
        assert(!texts(old_types).contains(service_type@));
        let ServiceBuilder { id, service_type: mut types, service_endpoint, extra } = self;
        types.push(service_type);
        assert(texts(types@) =~= texts(old_types).push(service_type@));
        Ok(ServiceBuilder { id, service_type: types, service_endpoint, extra })
    }

    pub fn add_extra(self, extra: E) -> (r: ServiceBuilder<E>)
        ensures
            r.spec_id() == self.spec_id(),
            r.spec_endpoint() == self.spec_endpoint(),
            r.spec_types() == self.spec_types(),
            r.spec_extra() == extra,
    {
        proof {
            use_type_invariant(&self);
        }
        let ServiceBuilder { id, service_type, service_endpoint, .. } = self;
        ServiceBuilder { id, service_type, service_endpoint, extra }
    }

    /// Fails with `MissingField` exactly when no service type was added.
    pub fn build(self) -> (r: Result<Service<E>, DidDocumentBuilderError>)
        ensures
            r is Err <==> self.spec_types().len() == 0,
            r matches Err(e) ==> e == DidDocumentBuilderError::MissingField,
            r matches Ok(s) ==> s@ == (ServiceModel {
                id: self.spec_id()@,
                service_type: OneOrListView::List(self.spec_types()),
                service_endpoint: self.spec_endpoint()@,
                extra: self.spec_extra(),
            }),
    {
        proof {
            use_type_invariant(&self);
        }
        if self.service_type.len() == 0 {
            Err(DidDocumentBuilderError::MissingField)
        } else {
            Ok(Service {
                id: self.id,
                service_type: OneOrList::List(self.service_type),
                service_endpoint: self.service_endpoint,
                extra: self.extra,
            })
        }
    }
}

} // verus!
