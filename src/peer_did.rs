use vstd::prelude::*;
use vstd::string::*;

use crate::did::{did_colon, did_id, did_method, is_did, is_method_char, Did};
use crate::document::{
    DidDocumentModel, DidDocumentSov, PublicKeyField, PublicKeyModel, VerificationMethodKind,
    VerificationMethodKindModel,
};
use crate::error::{AriesVcxError, AriesVcxErrorKind};
use crate::key::{base58_decoding, key_fingerprint, Key, KeyType};

verus! {

/// The peer DID (method 2) of a key-agreement key and a signing key: each
/// key in multibase form behind its purpose letter (`E` key agreement,
/// `V` verification).
pub open spec fn numalgo2_did(enc: Seq<u8>, ver: Seq<u8>) -> Seq<char> {
    "did:peer:2.E"@ + key_fingerprint(KeyType::X25519, enc) + ".V"@ + key_fingerprint(
        KeyType::Ed25519,
        ver,
    )
}

/// The base58 text of a public key field, if it is written that way.
pub open spec fn base58_text(k: PublicKeyModel) -> Option<Seq<char>> {
    match k {
        PublicKeyModel::Base58(s) => Some(s),
        PublicKeyModel::Multibase(_) => None,
    }
}

/// The key-agreement and signing key bytes that a peer DID is derived from:
/// the first key-agreement method and the first verification method of the
/// document, both written in base58.
pub open spec fn numalgo2_keys(d: DidDocumentModel) -> Option<(Seq<u8>, Seq<u8>)> {
    if d.verification_method.len() == 0 || d.key_agreement.len() == 0 {
        None
    } else {
        match d.key_agreement[0] {
            VerificationMethodKindModel::Resolved(ka) => match (
                base58_text(ka.public_key),
                base58_text(d.verification_method[0].public_key),
            ) {
                (Some(e), Some(v)) => match (base58_decoding(e), base58_decoding(v)) {
                    (Some(eb), Some(vb)) => Some((eb, vb)),
                    _ => None,
                },
                _ => None,
            },
            VerificationMethodKindModel::Resolvable(_) => None,
        }
    }
}

fn base58_key_text(k: &PublicKeyField) -> (r: Option<&String>)
    ensures
        match base58_text(k@) {
            Some(s) => r matches Some(t) && t@ == s,
            None => r is None,
        },
{
    match k {
        PublicKeyField::Base58 { public_key_base58 } => Some(public_key_base58),
        PublicKeyField::Multibase { .. } => None,
    }
}

/// Derives the peer DID (method 2) of a document from its key material;
/// fails with `InvalidKey` when the document lacks the keys in base58.
pub fn generate_numalgo2(doc: &DidDocumentSov) -> (r: Result<Did, AriesVcxError>)
    ensures
        match numalgo2_keys(doc@) {
            Some((e, v)) => r matches Ok(d) && d@ == numalgo2_did(e, v),
            None => r matches Err(err) && err.kind == AriesVcxErrorKind::InvalidKey,
        },
{
    let vms = doc.verification_method();
    let kas = doc.key_agreement();
    if vms.len() == 0 || kas.len() == 0 {
        return Err(AriesVcxError::from_msg(AriesVcxErrorKind::InvalidKey, "document holds no keys"));
    }
    assert(doc@.verification_method[0] == vms@[0]@);
    assert(doc@.key_agreement[0] == kas@[0]@);
    let ka = match &kas[0] {
        VerificationMethodKind::Resolved(vm) => vm,
        VerificationMethodKind::Resolvable(_) => {
            return Err(AriesVcxError::from_msg(AriesVcxErrorKind::InvalidKey, "key agreement is a reference"));
        },
    };
    let enc_text = match base58_key_text(ka.public_key()) {
        Some(t) => t,
        None => {
            return Err(AriesVcxError::from_msg(AriesVcxErrorKind::InvalidKey, "key agreement is not base58"));
        },
    };
    let ver_text = match base58_key_text(vms[0].public_key()) {
        Some(t) => t,
        None => {
            return Err(AriesVcxError::from_msg(AriesVcxErrorKind::InvalidKey, "signing key is not base58"));
        },
    };
    let enc = Key::from_base58(enc_text.as_str(), KeyType::X25519)?;
    let ver = Key::from_base58(ver_text.as_str(), KeyType::Ed25519)?;
    Ok(numalgo2_from_keys(&enc, &ver))
}

/// The peer DID (method 2) of two keys, read as key-agreement and signing key.
pub fn numalgo2_from_keys(enc: &Key, ver: &Key) -> (r: Did)
    ensures
        r@ == numalgo2_did(enc@.1, ver@.1),
{
    let fe = Key::new(enc.key().clone(), KeyType::X25519).fingerprint();
    let fv = Key::new(ver.key().clone(), KeyType::Ed25519).fingerprint();
    let mut s = String::from_str("did:peer:2.E");
    s.append(fe.as_str());
    s.append(".V");
    s.append(fv.as_str());
    proof {
        reveal_strlit("did:peer:2.E");
        reveal_strlit(".V");
        let t = s@;
        assert(t =~= "did:peer:2.E"@ + fe@ + ".V"@ + fv@);
        assert(did_colon(t, 8)) by {
            assert forall|j: int| 4 <= j < 8 implies is_method_char(#[trigger] t[j]) by {
                assert(t[j] == "did:peer:2.E"@[j]);
            }
        }
        assert forall|j: int| 4 <= j < t.len() implies #[trigger] t[j] != '#' by {
            if j < 12 {
                assert(t[j] == "did:peer:2.E"@[j]);
            } else if j < 12 + fe@.len() {
                assert(t[j] == fe@[j - 12]);
            } else if j < 14 + fe@.len() {
                assert(t[j] == ".V"@[j - 12 - fe@.len()]);
            } else {
                assert(t[j] == fv@[j - 14 - fe@.len()]);
            }
        }
        assert(t[0] == 'd' && t[1] == 'i' && t[2] == 'd' && t[3] == ':');
        assert(is_did(t));
    }
    let r = Did::parse(s);
    r.unwrap()
}

/// Peer DID method 0: the DID is a single inception key.
#[derive(Clone, Copy, Debug, PartialEq, Eq, Structural)]
pub struct Numalgo0;

/// Peer DID method 1: the DID is derived from a genesis document.
#[derive(Clone, Copy, Debug, PartialEq, Eq, Structural)]
pub struct Numalgo1;

/// Peer DID method 2: the DID lists several inception keys and services.
#[derive(Clone, Copy, Debug, PartialEq, Eq, Structural)]
pub struct Numalgo2;

/// Peer DID method 3: the DID is a short form of a method 2 DID.
#[derive(Clone, Copy, Debug, PartialEq, Eq, Structural)]
pub struct Numalgo3;

impl Numalgo0 {
    pub fn instance() -> (r: Numalgo0)
        ensures
            r == Numalgo0,
    {
        Numalgo0
    }
}

impl Numalgo1 {
    pub fn instance() -> (r: Numalgo1)
        ensures
            r == Numalgo1,
    {
        Numalgo1
    }
}

/// The method of a peer DID, named by what it does.
#[derive(Clone, Copy, Debug, PartialEq, Eq, Structural)]
pub enum NumalgoKind {
    MultipleInceptionKeys(Numalgo2),
    DidShortening(Numalgo3),
}

/// A peer DID together with its method.
#[derive(Debug, PartialEq, Eq)]
pub struct PeerDid<N> {
    did: Did,
    numalgo: N,
}

impl<N> PeerDid<N> {
    pub closed spec fn spec_did(&self) -> Did {
        self.did
    }

    pub fn did(&self) -> (r: &Did)
        ensures
            *r == self.spec_did(),
    {
        &self.did
    }
}

/// A peer DID of method 2 or 3.
#[derive(Debug, PartialEq, Eq)]
pub enum GenericPeerDid {
    Numalgo2(PeerDid<Numalgo2>),
    Numalgo3(PeerDid<Numalgo3>),
}

/// The method character of a peer DID: the first character of its id.
pub open spec fn numalgo_char(s: Seq<char>) -> Option<char> {
    if did_id(s).len() > 0 {
        Some(did_id(s)[0])
    } else {
        None
    }
}

impl GenericPeerDid {
    /// Reads a `did:peer` DID of method 2 or 3; fails with `InvalidDid` for
    /// another method or another method character.
    pub fn parse(did: Did) -> (r: Result<GenericPeerDid, AriesVcxError>)
        ensures
            r is Ok <==> (did_method(did@) == "peer"@ && (numalgo_char(did@) == Some('2')
                || numalgo_char(did@) == Some('3'))),
            r matches Ok(p) ==> p.spec_did() == did && (p is Numalgo2 <==> numalgo_char(did@) == Some(
                '2',
            )),
            r matches Err(e) ==> e.kind == AriesVcxErrorKind::InvalidDid,
    {
        let m = did.method();
        proof {
            reveal_strlit("peer");
        }
        let is_peer = m.unicode_len() == 4 && m.get_char(0) == 'p' && m.get_char(1) == 'e'
            && m.get_char(2) == 'e' && m.get_char(3) == 'r';
        if is_peer {
            assert(m@ =~= "peer"@);
        }
        let id = did.id();
        if !is_peer || id.unicode_len() == 0 {
            return Err(AriesVcxError::from_msg(AriesVcxErrorKind::InvalidDid, "not a peer did"));
        }
        let c = id.get_char(0);
        if c == '2' {
            Ok(GenericPeerDid::Numalgo2(PeerDid { did, numalgo: Numalgo2 }))
        } else if c == '3' {
            Ok(GenericPeerDid::Numalgo3(PeerDid { did, numalgo: Numalgo3 }))
        } else {
            Err(AriesVcxError::from_msg(AriesVcxErrorKind::InvalidDid, "unknown peer did method"))
        }
    }

    pub open spec fn spec_did(&self) -> Did {
        match self {
            GenericPeerDid::Numalgo2(p) => p.spec_did(),
            GenericPeerDid::Numalgo3(p) => p.spec_did(),
        }
    }

    pub fn did(&self) -> (r: &Did)
        ensures
            *r == self.spec_did(),
    {
        match self {
            GenericPeerDid::Numalgo2(p) => p.did(),
            GenericPeerDid::Numalgo3(p) => p.did(),
        }
    }

    pub fn numalgo(&self) -> (r: NumalgoKind)
        ensures
            self is Numalgo2 <==> r is MultipleInceptionKeys,
    {
        match self {
            GenericPeerDid::Numalgo2(peer_did) => NumalgoKind::MultipleInceptionKeys(peer_did.numalgo),
            GenericPeerDid::Numalgo3(peer_did) => NumalgoKind::DidShortening(peer_did.numalgo),
        }
    }
}

} // verus!
