//! Plain-value forms of the identifiers the overlay works with: a network
//! identity, a network address, and a content-derived message identity. Each
//! holds the raw bytes of the corresponding wire-level value, so that the
//! coordination logic can be stated and verified over byte sequences.

use vstd::prelude::*;

verus! {

/// The opaque identifier of one overlay node, as its raw bytes.
#[derive(Debug)]
pub struct Identity {
    pub bytes: Vec<u8>,
}

/// A structured network location, as its raw encoded bytes.
#[derive(Debug)]
pub struct Address {
    pub bytes: Vec<u8>,
}

/// The identity of one gossip message, as its raw bytes. For messages this
/// node publishes it is derived from the payload alone (see `message_id`).
#[derive(Debug)]
pub struct MessageIdentity {
    pub bytes: Vec<u8>,
}

impl View for Identity {
    type V = Seq<u8>;

    open spec fn view(&self) -> Seq<u8> {
        self.bytes@
    }
}

impl View for Address {
    type V = Seq<u8>;

    open spec fn view(&self) -> Seq<u8> {
        self.bytes@
    }
}

impl View for MessageIdentity {
    type V = Seq<u8>;

    open spec fn view(&self) -> Seq<u8> {
        self.bytes@
    }
}

/// Byte-for-byte equality of two byte vectors.
pub fn bytes_eq(a: &Vec<u8>, b: &Vec<u8>) -> (r: bool)
    ensures
        r == (a@ == b@),
{
    if a.len() != b.len() {
        assert(a@ != b@) by {
            assert(a@.len() != b@.len());
        }
        return false;
    }
    let mut i: usize = 0;
    while i < a.len()
        invariant
            i <= a.len(),
            a@.len() == b@.len(),
            forall|j: int| 0 <= j < i ==> a@[j] == b@[j],
        decreases a.len() - i,
    {
        if a[i] != b[i] {
            return false;
        }
        i = i + 1;
    }
    assert(a@ =~= b@);
    true
}

/// A copy of a byte vector with the same contents.
pub fn bytes_dup(a: &Vec<u8>) -> (r: Vec<u8>)
    ensures
        r@ == a@,
{
    let mut r: Vec<u8> = Vec::new();
    let mut i: usize = 0;
    while i < a.len()
        invariant
            i <= a.len(),
            r@ =~= a@.subrange(0, i as int),
        decreases a.len() - i,
    {
        r.push(a[i]);
        i = i + 1;
    }
    assert(r@ =~= a@);
    r
}

impl Identity {
    pub fn new(bytes: Vec<u8>) -> (r: Identity)
        ensures
            r@ == bytes@,
    {
        Identity { bytes }
    }

    /// A copy of this identity.
    pub fn duplicate(&self) -> (r: Identity)
        ensures
            r@ == self@,
    {
        Identity { bytes: bytes_dup(&self.bytes) }
    }

    /// Whether this identity names the same node as `other`.
    pub fn same_as(&self, other: &Identity) -> (r: bool)
        ensures
            r == (self@ == other@),
    {
        bytes_eq(&self.bytes, &other.bytes)
    }
}

impl Address {
    pub fn new(bytes: Vec<u8>) -> (r: Address)
        ensures
            r@ == bytes@,
    {
        Address { bytes }
    }

    /// A copy of this address.
    pub fn duplicate(&self) -> (r: Address)
        ensures
            r@ == self@,
    {
        Address { bytes: bytes_dup(&self.bytes) }
    }
}

impl MessageIdentity {
    pub fn new(bytes: Vec<u8>) -> (r: MessageIdentity)
        ensures
            r@ == bytes@,
    {
        MessageIdentity { bytes }
    }

    /// Whether this message identity equals `other`.
    pub fn same_as(&self, other: &MessageIdentity) -> (r: bool)
        ensures
            r == (self@ == other@),
    {
        bytes_eq(&self.bytes, &other.bytes)
    }
}

} // verus!
