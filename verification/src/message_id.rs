//! The content-derived message identity: the identity of a published message
//! is the decimal rendering of a digest of its payload bytes, so two
//! messages with identical bytes collapse to the same identity and the
//! gossip capability can deduplicate by it. The digest comes from the
//! standard hasher; the decimal rendering is verified, and proved injective,
//! so identities are equal exactly when the digests are.

use std::collections::hash_map::DefaultHasher;
use std::hash::Hasher;

use vstd::prelude::*;
use vstd::std_specs::hash::DefaultHasherAdditionalSpecFns;

use crate::identity::MessageIdentity;

verus! {

/// The digest of a payload: what the standard hasher yields after one write
/// of the payload bytes.
pub open spec fn content_digest(data: Seq<u8>) -> u64 {
    DefaultHasher::spec_finish(seq![data])
}

/// The decimal digits of `n`, most significant first, as ASCII bytes.
pub open spec fn spec_decimal(n: nat) -> Seq<u8>
    decreases n,
{
    if n < 10 {
        seq![(n + 48) as u8]
    } else {
        spec_decimal(n / 10).push((n % 10 + 48) as u8)
    }
}

/// The number a digit sequence denotes, reading ASCII digits in base ten.
pub open spec fn decimal_value(s: Seq<u8>) -> nat
    decreases s.len(),
{
    if s.len() == 0 {
        0
    } else {
        decimal_value(s.drop_last()) * 10 + (if s.last() >= 48 {
            (s.last() - 48) as nat
        } else {
            0
        })
    }
}

/// The identity of a message with these payload bytes.
pub open spec fn message_identity_of(data: Seq<u8>) -> Seq<u8> {
    spec_decimal(content_digest(data) as nat)
}

/// Reading the decimal rendering back gives the number it came from.
proof fn lemma_decimal_round_trip(n: nat)
    ensures
        decimal_value(spec_decimal(n)) == n,
    decreases n,
{
    if n < 10 {
        let s = spec_decimal(n);
        assert(s.drop_last() =~= Seq::<u8>::empty());
        assert(s.last() == (n + 48) as u8);
        assert(((n + 48) as u8) == n + 48);
        assert(decimal_value(Seq::<u8>::empty()) == 0);
        assert(decimal_value(s) == 0 * 10 + n);
    } else {
        lemma_decimal_round_trip(n / 10);
        let s = spec_decimal(n);
        assert(s.drop_last() =~= spec_decimal(n / 10));
        assert(s.last() == (n % 10 + 48) as u8);
        assert(((n % 10 + 48) as u8) == n % 10 + 48);
        assert(decimal_value(s) == (n / 10) * 10 + n % 10);
        assert((n / 10) * 10 + n % 10 == n);
    }
}

/// The decimal rendering is injective: equal digit sequences come from
/// equal numbers.
pub proof fn lemma_decimal_injective(a: nat, b: nat)
    ensures
        spec_decimal(a) == spec_decimal(b) ==> a == b,
{
    if spec_decimal(a) == spec_decimal(b) {
        lemma_decimal_round_trip(a);
        lemma_decimal_round_trip(b);
    }
}

/// Law: the message identity is a function of the payload bytes alone, so
/// equal payloads always give equal identities; and identities are equal
/// exactly when the payload digests are, so distinct identities mean
/// distinct payloads, while equal identities mean equal payloads up to a
/// digest collision.
pub proof fn lemma_message_identity_content_addressed(a: Seq<u8>, b: Seq<u8>)
    ensures
        a == b ==> message_identity_of(a) == message_identity_of(b),
        message_identity_of(a) == message_identity_of(b) <==> content_digest(a) == content_digest(
            b,
        ),
        message_identity_of(a) != message_identity_of(b) ==> a != b,
{
    lemma_decimal_injective(content_digest(a) as nat, content_digest(b) as nat);
}

/// The digest of these payload bytes, from one write to a fresh standard
/// hasher.
pub fn digest_of(data: &[u8]) -> (r: u64)
    ensures
        r == content_digest(data@),
{
    let mut hasher = DefaultHasher::new();
    hasher.write(data);
    proof {
        assert(hasher@ =~= seq![data@]);
    }
    hasher.finish()
}

/// The decimal digits of `n`, most significant first, as ASCII bytes.
pub fn u64_to_decimal(n: u64) -> (r: Vec<u8>)
    ensures
        r@ == spec_decimal(n as nat),
{
    let mut low: Vec<u8> = Vec::new();
    let mut m: u64 = n;
    while m >= 10
        invariant
            spec_decimal(n as nat) =~= spec_decimal(m as nat) + rev_bytes(low@),
        decreases m,
    {
        let ghost prev = low@;
        let d: u8 = (m % 10) as u8 + 48;
        low.push(d);
        m = m / 10;
        proof {
            assert(low@.drop_last() =~= prev);
            assert(low@.last() == d);
            assert(rev_bytes(low@) =~= seq![d] + rev_bytes(prev));
            assert(spec_decimal(n as nat) =~= spec_decimal(m as nat) + rev_bytes(low@));
        }
    }
    let ghost prev = low@;
    low.push((m as u8) + 48);
    proof {
        assert(low@.drop_last() =~= prev);
        assert(spec_decimal(m as nat) =~= seq![((m + 48) as u8)]);
        assert(rev_bytes(low@) =~= spec_decimal(n as nat));
    }
    let mut out: Vec<u8> = Vec::new();
    let mut i: usize = low.len();
    while i > 0
        invariant
            i <= low@.len(),
            out@ =~= rev_bytes(low@.skip(i as int)),
        decreases i,
    {
        i = i - 1;
        out.push(low[i]);
        proof {
            assert(low@.skip(i as int) =~= seq![low@[i as int]] + low@.skip(i as int + 1));
            lemma_rev_prepend(low@[i as int], low@.skip(i as int + 1));
        }
    }
    proof {
        assert(low@.skip(0) =~= low@);
    }
    out
}

/// A byte sequence reversed.
spec fn rev_bytes(s: Seq<u8>) -> Seq<u8>
    decreases s.len(),
{
    if s.len() == 0 {
        Seq::empty()
    } else {
        seq![s.last()] + rev_bytes(s.drop_last())
    }
}

/// Reversing with one byte in front puts that byte at the back.
proof fn lemma_rev_prepend(x: u8, s: Seq<u8>)
    ensures
        rev_bytes(seq![x] + s) == rev_bytes(s) + seq![x],
    decreases s.len(),
{
    let t = seq![x] + s;
    if s.len() == 0 {
        assert(t =~= seq![x]);
        assert(t.drop_last() =~= Seq::<u8>::empty());
        assert(rev_bytes(Seq::<u8>::empty()) == Seq::<u8>::empty());
        assert(t.last() == x);
        assert(rev_bytes(t) == seq![x] + Seq::<u8>::empty());
        assert(rev_bytes(t) =~= rev_bytes(s) + seq![x]);
    } else {
        lemma_rev_prepend(x, s.drop_last());
        assert(t.drop_last() =~= seq![x] + s.drop_last());
        assert(t.last() == s.last());
        assert(rev_bytes(t) == seq![s.last()] + rev_bytes(seq![x] + s.drop_last()));
        assert(rev_bytes(seq![x] + s.drop_last()) == rev_bytes(s.drop_last()) + seq![x]);
        assert(rev_bytes(s) == seq![s.last()] + rev_bytes(s.drop_last()));
        assert(seq![s.last()] + (rev_bytes(s.drop_last()) + seq![x]) =~= (seq![s.last()]
            + rev_bytes(s.drop_last())) + seq![x]);
        assert(rev_bytes(t) == rev_bytes(s) + seq![x]);
    }
}

impl MessageIdentity {
    /// The identity a message with these payload bytes publishes under.
    pub fn from_payload(data: &[u8]) -> (r: MessageIdentity)
        ensures
            r@ == message_identity_of(data@),
    {
        let digest = digest_of(data);
        MessageIdentity { bytes: u64_to_decimal(digest) }
    }
}

} // verus!
