//! Identities: opaque byte identifiers of callers and targets.
//!
//! An identity is a byte string of at most 29 bytes. It is stored the way the
//! host's principals are: a length and a zero-padded buffer, so that two
//! identities are equal exactly when their bytes are, and their storage order
//! (shorter first, then byte by byte) matches the order of principals.

use vstd::prelude::*;
use vstd::std_specs::cmp::PartialEqSpecImpl;
use candid::Principal;

verus! {

/// The most bytes an identity can hold.
pub const MAX_IDENTITY_BYTES: usize = 29;

/// An opaque, comparable identifier of at most 29 bytes.
#[derive(Clone, Copy, Debug, Eq, Hash)]
pub struct Identity {
    len: u8,
    bytes: [u8; 29],
}

/// The textual form that `candid::Principal` gives to the principal with these bytes.
pub uninterp spec fn principal_text(bytes: Seq<u8>) -> Seq<char>;

/// `Principal::from_slice` followed by `Principal::to_text`: the checksummed,
/// dash-grouped base32 text of the principal whose bytes are `bytes`. The text is
/// a function of the bytes alone; `from_slice` accepts every slice of at most 29 bytes.
#[verifier::external_body]
fn principal_to_text(bytes: &Vec<u8>) -> (text: String)
    requires
        bytes@.len() <= 29,
    ensures
        text@ == principal_text(bytes@),
{
    Principal::from_slice(bytes.as_slice()).to_text()
}

/// What `candid::Principal` reads in a text: the bytes of the principal that
/// the text stands for, or, for a text that stands for none, what the error
/// says.
pub uninterp spec fn principal_from_text(text: Seq<char>) -> Result<Seq<u8>, Seq<char>>;

/// `Principal::from_text`, with the principal handed out as its bytes
/// (`Principal::as_slice`) and the error as its message. What is read is a
/// function of the text alone.
#[verifier::external_body]
fn principal_parse(text: &str) -> (r: Result<Vec<u8>, String>)
    ensures
        match principal_from_text(text@) {
            Ok(bytes) => r matches Ok(v) && v@ == bytes,
            Err(e) => r matches Err(message) && message@ == e,
        },
{
    Principal::from_text(text).map(|p| p.as_slice().to_vec()).map_err(|e| e.to_string())
}

/// What is said of bytes that are too many for an identity.
pub open spec fn too_long_message() -> Seq<char> {
    "Bytes is longer than 29 bytes."@
}

/// The identity that a text stands for, or what is said of a text that
/// stands for none.
pub open spec fn from_text_spec(text: Seq<char>) -> Result<Seq<u8>, Seq<char>> {
    match principal_from_text(text) {
        Ok(bytes) => if bytes.len() <= MAX_IDENTITY_BYTES {
            Ok(bytes)
        } else {
            Err(too_long_message())
        },
        Err(e) => Err(e),
    }
}

/// Whether `a` comes before `b` when both are compared byte by byte from index `i` on.
pub open spec fn bytes_lt_from(a: Seq<u8>, b: Seq<u8>, i: int) -> bool
    decreases a.len() - i,
{
    if i < 0 || i >= a.len() || a.len() != b.len() {
        false
    } else if a[i] != b[i] {
        a[i] < b[i]
    } else {
        bytes_lt_from(a, b, i + 1)
    }
}

proof fn lemma_bytes_lt_skip(a: Seq<u8>, b: Seq<u8>, i: int, k: int)
    requires
        0 <= i <= k <= a.len(),
        a.len() == b.len(),
        forall|j: int| i <= j < k ==> a[j] == b[j],
    ensures
        bytes_lt_from(a, b, i) == bytes_lt_from(a, b, k),
    decreases k - i,
{
    if i < k {
        lemma_bytes_lt_skip(a, b, i + 1, k);
    }
}

proof fn lemma_bytes_lt_total(a: Seq<u8>, b: Seq<u8>, i: int)
    requires
        0 <= i <= a.len(),
        a.len() == b.len(),
        !bytes_lt_from(a, b, i),
        !bytes_lt_from(b, a, i),
    ensures
        forall|j: int| i <= j < a.len() ==> a[j] == b[j],
    decreases a.len() - i,
{
    if i < a.len() {
        lemma_bytes_lt_total(a, b, i + 1);
    }
}

proof fn lemma_bytes_lt_asymmetric(a: Seq<u8>, b: Seq<u8>, i: int)
    requires
        0 <= i <= a.len(),
        bytes_lt_from(a, b, i),
    ensures
        !bytes_lt_from(b, a, i),
        exists|j: int| i <= j < a.len() && a[j] != b[j],
    decreases a.len() - i,
{
    if i < a.len() && a[i] == b[i] {
        lemma_bytes_lt_asymmetric(a, b, i + 1);
    }
}

proof fn lemma_bytes_lt_transitive(a: Seq<u8>, b: Seq<u8>, c: Seq<u8>, i: int)
    requires
        0 <= i <= a.len(),
        bytes_lt_from(a, b, i),
        bytes_lt_from(b, c, i),
    ensures
        bytes_lt_from(a, c, i),
    decreases a.len() - i,
{
    if i < a.len() && a[i] == b[i] && b[i] == c[i] {
        lemma_bytes_lt_transitive(a, b, c, i + 1);
    }
}

impl PartialEq for Identity {
    fn eq(&self, other: &Self) -> (r: bool) {
        if self.len != other.len {
            return false;
        }
        let mut i: usize = 0;
        while i < 29
            invariant
                i <= 29,
                forall|j: int| 0 <= j < i ==> self.bytes[j] == other.bytes[j],
            decreases 29 - i,
        {
            if self.bytes[i] != other.bytes[i] {
                return false;
            }
            i += 1;
        }
        assert(self.bytes =~= other.bytes);
        true
    }
}

impl PartialEqSpecImpl for Identity {
    open spec fn obeys_eq_spec() -> bool {
        true
    }

    open spec fn eq_spec(&self, other: &Self) -> bool {
        *self == *other
    }
}

impl Identity {
    /// At most 29 bytes are significant, and the buffer is zero beyond them.
    #[verifier::type_invariant]
    pub closed spec fn wf(self) -> bool {
        &&& self.len <= 29
        &&& forall|i: int| self.len <= i < 29 ==> self.bytes[i] == 0
    }

    /// The significant bytes.
    pub closed spec fn view(self) -> Seq<u8> {
        self.bytes@.subrange(0, self.len as int)
    }

    /// The storage order: fewer bytes first, and among equally long identities
    /// the one whose first differing byte is smaller.
    pub closed spec fn precedes_spec(self, other: Identity) -> bool {
        self.len < other.len || (self.len == other.len && bytes_lt_from(
            self.bytes@,
            other.bytes@,
            0,
        ))
    }

    /// The identity of the management canister: no bytes at all.
    pub fn management_canister() -> (id: Identity)
        ensures
            id.wf(),
            id@ == Seq::<u8>::empty(),
    {
        Identity { len: 0, bytes: [0u8; 29] }
    }

    /// The anonymous identity: the single byte 4.
    pub fn anonymous() -> (id: Identity)
        ensures
            id.wf(),
            id@ == seq![4u8],
    {
        let mut bytes = [0u8; 29];
        bytes[0] = 4;
        Identity { len: 1, bytes }
    }

    /// The identity with the given bytes, or `None` if there are more than 29.
    pub fn from_slice(slice: &[u8]) -> (r: Option<Identity>)
        ensures
            r is Some <==> slice@.len() <= MAX_IDENTITY_BYTES,
            r matches Some(id) ==> id.wf() && id@ == slice@,
    {
        if slice.len() > MAX_IDENTITY_BYTES {
            return None;
        }
        let mut bytes = [0u8; 29];
        let mut i: usize = 0;
        while i < slice.len()
            invariant
                i <= slice@.len() <= 29,
                forall|j: int| 0 <= j < i ==> bytes[j] == slice@[j],
                forall|j: int| i <= j < 29 ==> bytes[j] == 0,
            decreases slice@.len() - i,
        {
            bytes[i] = slice[i];
            i += 1;
        }
        Some(Identity { len: slice.len() as u8, bytes })
    }

    /// The number of significant bytes.
    pub fn len(&self) -> (n: usize)
        ensures
            n == self@.len(),
            n <= MAX_IDENTITY_BYTES,
    {
        proof {
            use_type_invariant(self);
        }
        self.len as usize
    }

    /// The significant bytes, copied out.
    pub fn to_vec(&self) -> (v: Vec<u8>)
        ensures
            v@ == self@,
    {
        proof {
            use_type_invariant(self);
        }
        let mut v: Vec<u8> = Vec::new();
        let mut i: usize = 0;
        while i < self.len as usize
            invariant
                i <= self.len <= 29,
                v@ == self.bytes@.subrange(0, i as int),
            decreases self.len - i,
        {
            v.push(self.bytes[i]);
            i += 1;
        }
        v
    }

    /// The textual form of the identity, as principals are written.
    pub fn to_text(&self) -> (text: String)
        ensures
            text@ == principal_text(self@),
    {
        let bytes = self.to_vec();
        proof {
            use_type_invariant(self);
        }
        principal_to_text(&bytes)
    }

    /// The identity that a text stands for, as principals are written, or what
    /// is said of a text that stands for none.
    pub fn from_text(text: &str) -> (r: Result<Identity, String>)
        ensures
            match from_text_spec(text@) {
                Ok(bytes) => r matches Ok(id) && id.wf() && id@ == bytes,
                Err(e) => r matches Err(message) && message@ == e,
            },
    {
        match principal_parse(text) {
            Ok(bytes) => match Identity::from_slice(bytes.as_slice()) {
                Some(id) => Ok(id),
                None => Err("Bytes is longer than 29 bytes.".to_string()),
            },
            Err(message) => Err(message),
        }
    }

    /// Whether `self` comes strictly before `other` in storage order.
    pub fn precedes(&self, other: &Identity) -> (r: bool)
        ensures
            r == self.precedes_spec(*other),
    {
        if self.len != other.len {
            return self.len < other.len;
        }
        let mut i: usize = 0;
        while i < 29
            invariant
                i <= 29,
                self.len == other.len,
                forall|j: int| 0 <= j < i ==> self.bytes[j] == other.bytes[j],
            decreases 29 - i,
        {
            if self.bytes[i] != other.bytes[i] {
                proof {
                    lemma_bytes_lt_skip(self.bytes@, other.bytes@, 0, i as int);
                }
                return self.bytes[i] < other.bytes[i];
            }
            i += 1;
        }
        proof {
            lemma_bytes_lt_skip(self.bytes@, other.bytes@, 0, 29);
        }
        false
    }

    /// Two well-formed identities with the same bytes are the same identity.
    pub proof fn lemma_view_injective(a: Identity, b: Identity)
        requires
            a.wf(),
            b.wf(),
            a@ == b@,
        ensures
            a == b,
    {
        assert(a.len == b.len) by {
            assert(b@.len() == b.len);
        }
        assert forall|i: int| 0 <= i < 29 implies a.bytes[i] == b.bytes[i] by {
            if i < a.len {
                assert(b@[i] == b.bytes[i]);
            }
        }
        assert(a.bytes =~= b.bytes);
    }

    /// No identity precedes itself, and of two that precede each other neither does.
    pub proof fn lemma_precedes_asymmetric(a: Identity, b: Identity)
        requires
            a.precedes_spec(b),
        ensures
            !b.precedes_spec(a),
            a != b,
    {
        if a.len == b.len {
            lemma_bytes_lt_asymmetric(a.bytes@, b.bytes@, 0);
        }
    }

    /// The storage order is transitive.
    pub proof fn lemma_precedes_transitive(a: Identity, b: Identity, c: Identity)
        requires
            a.precedes_spec(b),
            b.precedes_spec(c),
        ensures
            a.precedes_spec(c),
    {
        if a.len == b.len && b.len == c.len {
            lemma_bytes_lt_transitive(a.bytes@, b.bytes@, c.bytes@, 0);
        }
    }

    /// Of two different identities one precedes the other.
    pub proof fn lemma_precedes_total(a: Identity, b: Identity)
        requires
            a != b,
        ensures
            a.precedes_spec(b) || b.precedes_spec(a),
    {
        if a.len == b.len && !bytes_lt_from(a.bytes@, b.bytes@, 0) && !bytes_lt_from(
            b.bytes@,
            a.bytes@,
            0,
        ) {
            lemma_bytes_lt_total(a.bytes@, b.bytes@, 0);
            assert(a.bytes =~= b.bytes);
        }
    }
}

} // verus!
