use vstd::prelude::*;
use vstd::string::*;

use crate::error::{AriesVcxError, AriesVcxErrorKind};

verus! {

/// The text that base58 (Bitcoin alphabet) encoding gives for a byte string.
pub uninterp spec fn base58_encoding(b: Seq<u8>) -> Seq<char>;

/// The bytes that a base58 (Bitcoin alphabet) text stands for; `None` when the
/// text holds a character outside the alphabet.
pub uninterp spec fn base58_decoding(s: Seq<char>) -> Option<Seq<u8>>;

/// The characters of the Bitcoin base58 alphabet.
pub open spec fn is_base58_char(c: char) -> bool {
    ('1' <= c && c <= '9') || ('A' <= c && c <= 'Z' && c != 'I' && c != 'O') || ('a' <= c && c <= 'z'
        && c != 'l')
}

/// Relies on `bs58::encode(..).into_string()`: the base58 text of the bytes,
/// written in the Bitcoin alphabet (the crate's default), which
/// `bs58::decode` reads back to the same bytes.
#[verifier::external_body]
fn encode_base58(b: &Vec<u8>) -> (r: String)
    ensures
        r@ == base58_encoding(b@),
        forall|i: int| 0 <= i < r@.len() ==> is_base58_char(#[trigger] r@[i]),
        base58_decoding(r@) == Some(b@),
{
    bs58::encode(b).into_string()
}

/// Relies on `bs58::decode(..).into_vec()`: the bytes of a base58 text, or an
/// error when the text is not base58.
#[verifier::external_body]
fn decode_base58(s: &str) -> (r: Option<Vec<u8>>)
    ensures
        match r {
            Some(v) => base58_decoding(s@) == Some(v@),
            None => base58_decoding(s@) is None,
        },
{
    bs58::decode(s).into_vec().ok()
}

/// The kinds of key that the exchange generates.
#[derive(Clone, Copy, Debug, PartialEq, Eq, Structural)]
pub enum KeyType {
    /// Signing key.
    Ed25519,
    /// Key-agreement key.
    X25519,
}

/// The multicodec prefix that tags a public key of each type.
pub open spec fn multicodec_prefix(t: KeyType) -> Seq<u8> {
    match t {
        KeyType::Ed25519 => seq![0xedu8, 0x01u8],
        KeyType::X25519 => seq![0xecu8, 0x01u8],
    }
}

/// The multibase (base58btc, `z`) form of a key tagged with its multicodec prefix.
pub open spec fn key_fingerprint(t: KeyType, key: Seq<u8>) -> Seq<char> {
    seq!['z'] + base58_encoding(multicodec_prefix(t) + key)
}

/// A public key and its type.
#[derive(Debug)]
pub struct Key {
    key_type: KeyType,
    key: Vec<u8>,
}

impl View for Key {
    type V = (KeyType, Seq<u8>);

    closed spec fn view(&self) -> (KeyType, Seq<u8>) {
        (self.key_type, self.key@)
    }
}

impl Key {
    pub fn new(key: Vec<u8>, key_type: KeyType) -> (r: Key)
        ensures
            r@ == (key_type, key@),
    {
        Key { key_type, key }
    }

    /// Reads a key from its base58 text; fails with `InvalidKey` exactly when
    /// the text is not base58.
    pub fn from_base58(s: &str, key_type: KeyType) -> (r: Result<Key, AriesVcxError>)
        ensures
            r is Ok <==> base58_decoding(s@) is Some,
            r matches Ok(k) ==> Some(k@.1) == base58_decoding(s@) && k@.0 == key_type,
            r matches Err(e) ==> e.kind == AriesVcxErrorKind::InvalidKey,
    {
        match decode_base58(s) {
            Some(key) => Ok(Key { key_type, key }),
            None => Err(AriesVcxError::from_msg(AriesVcxErrorKind::InvalidKey, "key is not base58")),
        }
    }

    pub fn key_type(&self) -> (r: KeyType)
        ensures
            r == self@.0,
    {
        self.key_type
    }

    pub fn key(&self) -> (r: &Vec<u8>)
        ensures
            r@ == self@.1,
    {
        &self.key
    }

    /// The base58 text of the key bytes.
    pub fn base58(&self) -> (r: String)
        ensures
            r@ == base58_encoding(self@.1),
            base58_decoding(r@) == Some(self@.1),
    {
        encode_base58(&self.key)
    }

    /// The key bytes behind their multicodec prefix.
    pub fn prefixed_bytes(&self) -> (r: Vec<u8>)
        ensures
            r@ == multicodec_prefix(self@.0) + self@.1,
    {
        let mut out: Vec<u8> = match self.key_type {
            KeyType::Ed25519 => vec![0xedu8, 0x01u8],
            KeyType::X25519 => vec![0xecu8, 0x01u8],
        };
        let ghost prefix = out@;
        assert(prefix =~= multicodec_prefix(self.key_type));
        let mut i: usize = 0;
        while i < self.key.len()
            invariant
                i <= self.key@.len(),
                out@ =~= prefix + self.key@.subrange(0, i as int),
            decreases self.key@.len() - i,
        {
            out.push(self.key[i]);
            i = i + 1;
        }
        assert(self.key@.subrange(0, self.key@.len() as int) =~= self.key@);
        out
    }

    /// The multibase form of the prefixed key, as used by `did:key` and peer DIDs.
    pub fn fingerprint(&self) -> (r: String)
        ensures
            r@ == key_fingerprint(self@.0, self@.1),
            r@.len() > 0,
            forall|i: int| 0 <= i < r@.len() ==> is_base58_char(#[trigger] r@[i]) || r@[i] == 'z',
    {
        let bytes = self.prefixed_bytes();
        let encoded = encode_base58(&bytes);
        let mut r = String::from_str("z");
        proof {
            reveal_strlit("z");
        }
        r.append(encoded.as_str());
        assert(r@ =~= seq!['z'] + base58_encoding(multicodec_prefix(self@.0) + self@.1));
        assert forall|i: int| 0 <= i < r@.len() implies is_base58_char(#[trigger] r@[i]) || r@[i] == 'z' by {
            if i > 0 {
                assert(r@[i] == encoded@[i - 1]);
            }
        }
        r
    }

    /// The `did:key` DID of this key.
    pub fn did_key(&self) -> (r: String)
        ensures
            r@ == "did:key:"@ + key_fingerprint(self@.0, self@.1),
    {
        let fp = self.fingerprint();
        let mut r = String::from_str("did:key:");
        r.append(fp.as_str());
        r
    }
}

impl Clone for Key {
    fn clone(&self) -> (r: Key)
        ensures
            r@ == self@,
    {
        let mut key: Vec<u8> = Vec::new();
        let mut i: usize = 0;
        while i < self.key.len()
            invariant
                i <= self.key@.len(),
                key@ =~= self.key@.subrange(0, i as int),
            decreases self.key@.len() - i,
        {
            key.push(self.key[i]);
            i = i + 1;
        }
        assert(self.key@.subrange(0, self.key@.len() as int) =~= self.key@);
        Key { key_type: self.key_type, key }
    }
}

} // verus!
