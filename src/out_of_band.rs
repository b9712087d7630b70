use vstd::prelude::*;

use crate::document::ServiceSov;
use crate::error::{AriesVcxError, AriesVcxErrorKind};

verus! {

/// A way to reach the inviter named in an invitation.
#[derive(Clone, Debug, PartialEq, Eq)]
pub enum OobService {
    /// The service written out in place.
    SovService(ServiceSov),
    /// A public DID whose service the ledger holds.
    Did(String),
}

/// An out-of-band invitation: its id opens the parent thread of the exchange.
#[derive(Clone, Debug, PartialEq, Eq)]
pub struct OobInvitation {
    pub id: String,
    pub label: Option<String>,
    pub handshake_protocols: Option<Vec<String>>,
    pub services: Vec<OobService>,
}

/// `needle` occurs in `hay` at position `i`.
pub open spec fn occurs_at(hay: Seq<char>, needle: Seq<char>, i: int) -> bool {
    0 <= i && i + needle.len() <= hay.len() && hay.subrange(i, i + needle.len()) == needle
}

pub open spec fn contains_text(hay: Seq<char>, needle: Seq<char>) -> bool {
    exists|i: int| occurs_at(hay, needle, i)
}

/// The name that the did-exchange handshake protocol carries in its URI.
pub open spec fn didexchange_name() -> Seq<char> {
    "didexchange"@
}

/// The invitation offers the did-exchange handshake protocol.
pub open spec fn offers_didexchange(inv: OobInvitation) -> bool {
    match inv.handshake_protocols {
        Some(p) => exists|i: int| 0 <= i < p@.len() && contains_text(#[trigger] p@[i]@, didexchange_name()),
        None => false,
    }
}

fn text_contains(hay: &str, needle: &str) -> (r: bool)
    ensures
        r == contains_text(hay@, needle@),
{
    let n = hay.unicode_len();
    let m = needle.unicode_len();
    if m > n {
        assert forall|i: int| !occurs_at(hay@, needle@, i) by {}
        return false;
    }
    let mut i: usize = 0;
    while i <= n - m
        invariant
            n == hay@.len(),
            m == needle@.len(),
            m <= n,
            i <= n - m + 1,
            forall|k: int| 0 <= k < i ==> !occurs_at(hay@, needle@, k),
        decreases n - m + 1 - i,
    {
        let mut j: usize = 0;
        let mut same = true;
        while j < m
            invariant
                n == hay@.len(),
                m == needle@.len(),
                i + m <= n,
                j <= m,
                same == (forall|t: int| 0 <= t < j ==> hay@[i + t] == needle@[t]),
            decreases m - j,
        {
            if hay.get_char(i + j) != needle.get_char(j) {
                same = false;
            }
            j = j + 1;
        }
        if same {
            assert(hay@.subrange(i as int, i + m) =~= needle@);
            assert(occurs_at(hay@, needle@, i as int));
            return true;
        }
        assert(!occurs_at(hay@, needle@, i as int)) by {
            if occurs_at(hay@, needle@, i as int) {
                assert forall|t: int| 0 <= t < m implies hay@[i + t] == needle@[t] by {
                    assert(hay@.subrange(i as int, i + m)[t] == needle@[t]);
                }
            }
        }
        i = i + 1;
    }
    assert forall|k: int| !occurs_at(hay@, needle@, k) by {
        if 0 <= k && k < i {
        }
    }
    false
}

/// Checks that the invitation offers the did-exchange handshake protocol;
/// fails with `InvalidState` otherwise.
pub fn verify_handshake_protocol(invitation: &OobInvitation) -> (r: Result<(), AriesVcxError>)
    ensures
        r is Ok <==> offers_didexchange(*invitation),
        r matches Err(e) ==> e.kind == AriesVcxErrorKind::InvalidState,
{
    match &invitation.handshake_protocols {
        Some(p) => {
            let mut i: usize = 0;
            while i < p.len()
                invariant
                    i <= p@.len(),
                    invitation.handshake_protocols == Some(*p),
                    forall|k: int| 0 <= k < i ==> !contains_text(#[trigger] p@[k]@, didexchange_name()),
                decreases p@.len() - i,
            {
                if text_contains(p[i].as_str(), "didexchange") {
                    assert(contains_text(p@[i as int]@, didexchange_name()));
                    let ghost hp = invitation.handshake_protocols->Some_0;
                    assert(hp@[i as int]@ == p@[i as int]@);
                    assert(offers_didexchange(*invitation));
                    return Ok(());
                }
                i = i + 1;
            }
            Err(AriesVcxError::from_msg(
                AriesVcxErrorKind::InvalidState,
                "invitation does not offer the didexchange handshake protocol",
            ))
        },
        None => Err(AriesVcxError::from_msg(
            AriesVcxErrorKind::InvalidState,
            "invitation offers no handshake protocol",
        )),
    }
}

} // verus!

verus! {

/// An invitation that we sent or that we received.
#[derive(Debug, PartialEq, Eq)]
pub enum GenericOutOfBand {
    Sender(OobInvitation),
    Receiver(OobInvitation),
}

impl GenericOutOfBand {
    pub open spec fn spec_invitation(&self) -> OobInvitation {
        match self {
            GenericOutOfBand::Sender(i) => *i,
            GenericOutOfBand::Receiver(i) => *i,
        }
    }

    pub fn invitation(&self) -> (r: &OobInvitation)
        ensures
            *r == self.spec_invitation(),
    {
        match self {
            GenericOutOfBand::Sender(i) => i,
            GenericOutOfBand::Receiver(i) => i,
        }
    }
}

pub open spec fn oob_ids(v: Seq<GenericOutOfBand>) -> Seq<Seq<char>> {
    v.map_values(|g: GenericOutOfBand| g.spec_invitation().id@)
}

/// The handshake protocol that our invitations offer.
pub open spec fn didexchange_protocol() -> Seq<char> {
    "https://didcomm.org/didexchange/1.0"@
}

/// `i` is the first position that holds an invitation with id `id`.
pub open spec fn is_first_with(v: Seq<GenericOutOfBand>, id: Seq<char>, i: int) -> bool {
    &&& 0 <= i < v.len()
    &&& v[i].spec_invitation().id@ == id
    &&& forall|j: int| 0 <= j < i ==> (#[trigger] v[j]).spec_invitation().id@ != id
}

/// The invitation names exactly one way to reach the inviter: a service
/// written out in place, with model `m`.
pub open spec fn invitation_service_is(inv: OobInvitation, m: crate::document::ServiceSovModel) -> bool {
    &&& inv.services@.len() == 1
    &&& match inv.services@[0] {
        OobService::SovService(svc) => crate::document::service_sov_model(svc@) == m,
        OobService::Did(_) => false,
    }
}

/// The invitation kept first under `id`.
pub open spec fn lookup_oob(v: Seq<GenericOutOfBand>, id: Seq<char>) -> Option<GenericOutOfBand> {
    if exists|i: int| is_first_with(v, id, i) {
        Some(v[choose|i: int| is_first_with(v, id, i)])
    } else {
        None
    }
}

proof fn lemma_first_unique(v: Seq<GenericOutOfBand>, id: Seq<char>, i: int, k: int)
    requires
        is_first_with(v, id, i),
        is_first_with(v, id, k),
    ensures
        i == k,
{
    if i < k {
        assert(v[i].spec_invitation().id@ != id);
    } else if k < i {
        assert(v[k].spec_invitation().id@ != id);
    }
}

/// The invitations of this agent, kept under their ids.
pub struct ServiceOutOfBand {
    service_endpoint: crate::schema::Url,
    out_of_band: Vec<GenericOutOfBand>,
}

impl ServiceOutOfBand {
    /// The ids of the invitations kept.
    pub closed spec fn spec_ids(&self) -> Seq<Seq<char>> {
        oob_ids(self.out_of_band@)
    }

    /// The invitation kept under `id`.
    pub closed spec fn spec_get(&self, id: Seq<char>) -> Option<GenericOutOfBand> {
        lookup_oob(self.out_of_band@, id)
    }

    pub closed spec fn spec_service_endpoint(&self) -> Seq<char> {
        self.service_endpoint@
    }

    pub fn new(service_endpoint: crate::schema::Url) -> (r: ServiceOutOfBand)
        ensures
            r.spec_ids().len() == 0,
            forall|id: Seq<char>| r.spec_get(id) is None,
            r.spec_service_endpoint() == service_endpoint@,
    {
        let r = ServiceOutOfBand { service_endpoint, out_of_band: Vec::new() };
        assert(oob_ids(r.out_of_band@) =~= Seq::empty());
        assert forall|id: Seq<char>| r.spec_get(id) is None by {
            assert(!exists|i: int| is_first_with(r.out_of_band@, id, i));
        }
        r
    }

    fn position(&self, id: &String) -> (r: Option<usize>)
        ensures
            match r {
                Some(i) => i < self.out_of_band@.len() && self.out_of_band@[i as int].spec_invitation().id@ == id@,
                None => forall|i: int| 0 <= i < self.out_of_band@.len() ==> (#[trigger] self.out_of_band@[i]).spec_invitation().id@ != id@,
            },
            r matches Some(i) ==> is_first_with(self.out_of_band@, id@, i as int),
    {
        let mut i: usize = 0;
        while i < self.out_of_band.len()
            invariant
                i <= self.out_of_band@.len(),
                forall|k: int| 0 <= k < i ==> (#[trigger] self.out_of_band@[k]).spec_invitation().id@ != id@,
            decreases self.out_of_band@.len() - i,
        {
            if self.out_of_band[i].invitation().id == *id {
                return Some(i);
            }
            i = i + 1;
        }
        None
    }

    /// Keeps an invitation under its id, in place of one kept under the same id.
    fn insert(&mut self, g: GenericOutOfBand)
        ensures
            final(self).spec_get(g.spec_invitation().id@) == Some(g),
            final(self).spec_ids().to_set() == old(self).spec_ids().to_set().insert(g.spec_invitation().id@),
            final(self).spec_service_endpoint() == old(self).spec_service_endpoint(),
            forall|other: Seq<char>| other != g.spec_invitation().id@ ==> final(self).spec_get(other) == old(self).spec_get(other),
    {
        let ghost id = g.spec_invitation().id@;
        let ghost before = self.out_of_band@;
        let ghost at: int;
        match self.position(&g.invitation().id) {
            Some(i) => {
                self.out_of_band.set(i, g);
                proof {
                    at = i as int;
                }
                assert(oob_ids(self.out_of_band@) =~= oob_ids(before).update(i as int, id));
                assert(oob_ids(self.out_of_band@).to_set() =~= oob_ids(before).to_set().insert(id)) by {
                    assert(oob_ids(before)[i as int] == id);
                    assert forall|x| oob_ids(before).to_set().insert(id).contains(x) implies oob_ids(self.out_of_band@).to_set().contains(x) by {
                        if x != id {
                            let k = choose|k: int| 0 <= k < oob_ids(before).len() && oob_ids(before)[k] == x;
                            assert(oob_ids(self.out_of_band@)[k] == x);
                        } else {
                            assert(oob_ids(self.out_of_band@)[i as int] == x);
                        }
                    }
                    assert forall|x| oob_ids(self.out_of_band@).to_set().contains(x) implies oob_ids(before).to_set().insert(id).contains(x) by {
                        let k = choose|k: int| 0 <= k < oob_ids(self.out_of_band@).len() && oob_ids(self.out_of_band@)[k] == x;
                        if k != i {
                            assert(oob_ids(before)[k] == x);
                        }
                    }
                }
            },
            None => {
                self.out_of_band.push(g);
                proof {
                    at = before.len() as int;
                }
                assert(oob_ids(self.out_of_band@) =~= oob_ids(before).push(id));
                assert(oob_ids(self.out_of_band@).to_set() =~= oob_ids(before).to_set().insert(id)) by {
                    assert forall|x| oob_ids(before).to_set().insert(id).contains(x) implies oob_ids(self.out_of_band@).to_set().contains(x) by {
                        if x != id {
                            let k = choose|k: int| 0 <= k < oob_ids(before).len() && oob_ids(before)[k] == x;
                            assert(oob_ids(self.out_of_band@)[k] == x);
                        } else {
                            assert(oob_ids(self.out_of_band@)[before.len() as int] == x);
                        }
                    }
                }
            },
        }
        proof {
            let v = self.out_of_band@;
            assert(is_first_with(v, id, at));
            let j = choose|j: int| is_first_with(v, id, j);
            lemma_first_unique(v, id, at, j);
            assert(at < before.len() ==> before[at].spec_invitation().id@ == id);
            assert forall|k: int| 0 <= k < before.len() && k != at implies v[k] == before[k] by {}
            assert forall|other: Seq<char>| other != id implies lookup_oob(v, other) == lookup_oob(before, other) by {
                if exists|j: int| is_first_with(before, other, j) {
                    let j = choose|j: int| is_first_with(before, other, j);
                    assert(is_first_with(v, other, j));
                    lemma_first_unique(v, other, j, choose|k: int| is_first_with(v, other, k));
                } else if exists|j: int| is_first_with(v, other, j) {
                    let j = choose|j: int| is_first_with(v, other, j);
                    assert(is_first_with(before, other, j));
                }
            }
        }
    }

    /// Keeps a received invitation and returns its id.
    pub fn receive_invitation(&mut self, invitation: OobInvitation) -> (r: Result<String, AriesVcxError>)
        ensures
            r matches Ok(id) && id@ == invitation.id@,
            final(self).spec_get(invitation.id@) == Some(GenericOutOfBand::Receiver(invitation)),
            final(self).spec_ids().to_set() == old(self).spec_ids().to_set().insert(invitation.id@),
            forall|other: Seq<char>| other != invitation.id@ ==> final(self).spec_get(other) == old(self).spec_get(other),

    {
        let id = invitation.id.clone();
        self.insert(GenericOutOfBand::Receiver(invitation));
        Ok(id)
    }

    /// The invitation kept under `invitation_id`; fails with `NotFound` when
    /// none is.
    pub fn get_invitation(&self, invitation_id: &String) -> (r: Result<&OobInvitation, AriesVcxError>)
        ensures
            match self.spec_get(invitation_id@) {
                Some(g) => r matches Ok(i) && *i == g.spec_invitation(),
                None => r matches Err(e) && e.kind == AriesVcxErrorKind::NotFound,
            },
    {
        match self.position(invitation_id) {
            Some(i) => {
                proof {
                    let v = self.out_of_band@;
                    assert(is_first_with(v, invitation_id@, i as int));
                    let j = choose|j: int| is_first_with(v, invitation_id@, j);
                    lemma_first_unique(v, invitation_id@, i as int, j);
                }
                Ok(self.out_of_band[i].invitation())
            },
            None => Err(AriesVcxError::from_msg(AriesVcxErrorKind::NotFound, "no invitation under this id")),
        }
    }

    /// Whether an invitation is kept under `thread_id`.
    pub fn exists_by_id(&self, thread_id: &String) -> (r: bool)
        ensures
            r == self.spec_ids().contains(thread_id@),
    {
        match self.position(thread_id) {
            Some(i) => {
                assert(oob_ids(self.out_of_band@)[i as int] == thread_id@);
                true
            },
            None => false,
        }
    }

    /// Builds an invitation under `invitation_id` that offers did-exchange and
    /// one DIDComm service at our endpoint with `public_key` as recipient,
    /// keeps it as sent, and returns its id.
    pub fn create_invitation(&mut self, public_key: &crate::key::Key, service_id: crate::schema::Uri, invitation_id: String) -> (r: String)
        ensures
            r@ == invitation_id@,
            final(self).spec_get(invitation_id@) matches Some(GenericOutOfBand::Sender(inv)) && offers_didexchange(inv)
                && inv.id@ == invitation_id@,
            final(self).spec_ids().to_set() == old(self).spec_ids().to_set().insert(invitation_id@),
            forall|other: Seq<char>| other != invitation_id@ ==> final(self).spec_get(other) == old(self).spec_get(other),
            final(self).spec_get(invitation_id@) matches Some(GenericOutOfBand::Sender(inv)) && invitation_service_is(inv, 
            crate::document::ServiceSovModel {
                id: service_id@,
                ..crate::service::service_model(
                    old(self).spec_service_endpoint(),
                    Seq::empty(),
                    seq!["did:key:"@ + crate::key::key_fingerprint(public_key@.0, public_key@.1)],
                )
            }),
    {
        let protocol = "https://didcomm.org/didexchange/1.0".to_owned();
        proof {
            reveal_strlit("https://didcomm.org/didexchange/1.0");
            reveal_strlit("didexchange");
            assert(protocol@.subrange(20, 31) =~= didexchange_name());
            assert(occurs_at(protocol@, didexchange_name(), 20));
        }
        let protocols = vec![protocol];
        let recipients = vec![public_key.did_key()];
        assert(crate::schema::texts(recipients@) =~= seq!["did:key:"@ + crate::key::key_fingerprint(public_key@.0, public_key@.1)]);
        let routing: Vec<String> = Vec::new();
        assert(crate::schema::texts(routing@) =~= Seq::empty());
        let service = crate::service::construct_service(routing, recipients, self.service_endpoint.clone());
        let ghost m0 = crate::document::service_sov_model(service@);
        let (_, service_type, endpoint, extra) = service.into_parts();
        let ghost sid = service_id@;
        let service = crate::schema::Service::from_parts(service_id, service_type, endpoint, extra);
        assert(crate::document::service_sov_model(service@) == (crate::document::ServiceSovModel { id: sid, ..m0 }));
        let invitation = OobInvitation {
            id: invitation_id.clone(),
            label: None,
            handshake_protocols: Some(protocols),
            services: vec![OobService::SovService(service)],
        };
        assert(invitation.handshake_protocols->Some_0@[0]@ == protocol@);
        assert(offers_didexchange(invitation));
        assert(invitation_service_is(invitation, crate::document::ServiceSovModel { id: sid, ..m0 }));
        self.insert(GenericOutOfBand::Sender(invitation));
        invitation_id
    }
}

} // verus!
