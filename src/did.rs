use vstd::prelude::*;
use vstd::string::*;

use crate::error::{AriesVcxError, AriesVcxErrorKind};

verus! {

/// Characters allowed in a DID method name.
pub open spec fn is_method_char(c: char) -> bool {
    ('a' <= c && c <= 'z') || ('0' <= c && c <= '9')
}

/// `i` is the colon that ends the method name of `s` (`did:<method>:<id>`).
pub open spec fn did_colon(s: Seq<char>, i: int) -> bool {
    &&& 4 < i
    &&& i + 1 < s.len()
    &&& s[i] == ':'
    &&& forall|j: int| 4 <= j < i ==> is_method_char(#[trigger] s[j])
}

/// `s` is a DID: `did:`, a non-empty method name, `:`, a non-empty
/// method-specific id, and no fragment.
pub open spec fn is_did(s: Seq<char>) -> bool {
    &&& s.len() >= 4
    &&& s[0] == 'd' && s[1] == 'i' && s[2] == 'd' && s[3] == ':'
    &&& exists|i: int| did_colon(s, i)
    &&& forall|j: int| 4 <= j < s.len() ==> #[trigger] s[j] != '#'
}

/// The colon that ends the method name of a DID.
pub open spec fn method_colon(s: Seq<char>) -> int {
    choose|i: int| did_colon(s, i)
}

/// The method-specific id of a DID: what follows the method name.
pub open spec fn did_id(s: Seq<char>) -> Seq<char> {
    s.subrange(method_colon(s) + 1, s.len() as int)
}

/// The method name of a DID.
pub open spec fn did_method(s: Seq<char>) -> Seq<char> {
    s.subrange(4, method_colon(s))
}

/// The method name ends at the first colon after `did:`, so it is unique.
pub proof fn lemma_did_colon_unique(s: Seq<char>, i: int, k: int)
    requires
        did_colon(s, i),
        did_colon(s, k),
    ensures
        i == k,
{
    if i < k {
        assert(is_method_char(s[i]));
    } else if k < i {
        assert(is_method_char(s[k]));
    }
}

/// A decentralized identifier, `did:<method>:<id>`.
#[derive(Debug, PartialEq, Eq)]
pub struct Did {
    did: String,
    method_end: usize,
}

impl View for Did {
    type V = Seq<char>;

    closed spec fn view(&self) -> Seq<char> {
        self.did@
    }
}

impl Did {
    #[verifier::type_invariant]
    closed spec fn wf(&self) -> bool {
        is_did(self.did@) && did_colon(self.did@, self.method_end as int)
    }

    /// Parses a DID; fails with `InvalidDid` exactly when `s` is not one.
    pub fn parse(s: String) -> (r: Result<Did, AriesVcxError>)
        ensures
            r is Ok <==> is_did(s@),
            r matches Ok(d) ==> d@ == s@,
            r matches Err(e) ==> e.kind == AriesVcxErrorKind::InvalidDid,
    {
        let n = s.as_str().unicode_len();
        if n < 4 || s.as_str().get_char(0) != 'd' || s.as_str().get_char(1) != 'i'
            || s.as_str().get_char(2) != 'd' || s.as_str().get_char(3) != ':' {
            return Err(AriesVcxError::from_msg(AriesVcxErrorKind::InvalidDid, "missing did: prefix"));
        }
        let mut j: usize = 4;
        while j < n && is_method_char_exec(s.as_str().get_char(j))
            invariant
                4 <= j <= n,
                n == s@.len(),
                forall|k: int| 4 <= k < j ==> is_method_char(#[trigger] s@[k]),
            decreases n - j,
        {
            j = j + 1;
        }
        if j == 4 || j >= n - 1 || s.as_str().get_char(j) != ':' {
            assert(!exists|i: int| did_colon(s@, i)) by {
                assert forall|i: int| !did_colon(s@, i) by {
                    if did_colon(s@, i) {
                        if i < j {
                            assert(is_method_char(s@[i]));
                        } else if j < i {
                            assert(is_method_char(s@[j as int]));
                        }
                    }
                }
            }
            return Err(AriesVcxError::from_msg(AriesVcxErrorKind::InvalidDid, "malformed did method"));
        }
        assert(did_colon(s@, j as int));
        let mut k: usize = 4;
        while k < n
            invariant
                4 <= k <= n,
                n == s@.len(),
                forall|m: int| 4 <= m < k ==> #[trigger] s@[m] != '#',
            decreases n - k,
        {
            if s.as_str().get_char(k) == '#' {
                return Err(AriesVcxError::from_msg(AriesVcxErrorKind::InvalidDid, "a did holds no fragment"));
            }
            k = k + 1;
        }
        Ok(Did { did: s, method_end: j })
    }

    /// The whole DID as a string.
    pub fn did(&self) -> (r: &str)
        ensures
            r@ == self@,
            is_did(r@),
    {
        proof {
            use_type_invariant(self);
        }
        self.did.as_str()
    }

    /// The method-specific id.
    pub fn id(&self) -> (r: &str)
        ensures
            r@ == did_id(self@),
    {
        proof {
            use_type_invariant(self);
            lemma_did_colon_unique(self.did@, self.method_end as int, method_colon(self.did@));
        }
        let n = self.did.as_str().unicode_len();
        self.did.as_str().substring_char(self.method_end + 1, n)
    }

    /// The method name.
    pub fn method(&self) -> (r: &str)
        ensures
            r@ == did_method(self@),
    {
        proof {
            use_type_invariant(self);
            lemma_did_colon_unique(self.did@, self.method_end as int, method_colon(self.did@));
        }
        self.did.as_str().substring_char(4, self.method_end)
    }

    pub fn to_string(&self) -> (r: String)
        ensures
            r@ == self@,
            is_did(r@),
    {
        proof {
            use_type_invariant(self);
        }
        self.did.clone()
    }
}

impl Clone for Did {
    fn clone(&self) -> (r: Did)
        ensures
            r == *self,
    {
        proof {
            use_type_invariant(self);
        }
        Did { did: self.did.clone(), method_end: self.method_end }
    }
}

fn is_method_char_exec(c: char) -> (r: bool)
    ensures
        r == is_method_char(c),
{
    ('a' <= c && c <= 'z') || ('0' <= c && c <= '9')
}

/// A DID URL: a DID optionally followed by a path, query or fragment.
#[derive(Debug, PartialEq, Eq)]
pub struct DidUrl {
    url: String,
}

impl View for DidUrl {
    type V = Seq<char>;

    closed spec fn view(&self) -> Seq<char> {
        self.url@
    }
}

impl DidUrl {
    pub fn new(url: String) -> (r: DidUrl)
        ensures
            r@ == url@,
    {
        DidUrl { url }
    }

    /// The DID URL that names the DID itself.
    pub fn from_did(did: &Did) -> (r: DidUrl)
        ensures
            r@ == did@,
    {
        DidUrl { url: did.to_string() }
    }

    pub fn as_str(&self) -> (r: &str)
        ensures
            r@ == self@,
    {
        self.url.as_str()
    }

    /// Whether two DID URLs are the same text.
    pub fn same_as(&self, other: &DidUrl) -> (r: bool)
        ensures
            r == (self@ == other@),
    {
        self.url == other.url
    }
}

impl Clone for DidUrl {
    fn clone(&self) -> (r: DidUrl)
        ensures
            r == *self,
    {
        DidUrl { url: self.url.clone() }
    }
}

} // verus!
