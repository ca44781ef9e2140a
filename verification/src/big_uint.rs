//! Arbitrary-precision unsigned integers, stored as minimal big-endian
//! bytes. The view of a value is the natural number it denotes.

use vstd::prelude::*;

use crate::bytes::{be_nat, lemma_be_nat_skip_zeros, lemma_be_nat_zero, min_be, u32_be_bytes};
use crate::codec::{
    dep_bytes_payload, dep_bytes_ready, dep_bytes_remaining, handle_decode_failure,
    handled_decode_failure, CodecFailure, DecodeError, ErrorPolicy, ManagedArgBuffer,
    TopEncodeMulti,
};
use crate::managed_buffer::{copy_bytes, slice_bytes_eq, ManagedBuffer};

verus! {

/// An arbitrary-precision unsigned integer.
pub struct BigUint {
    bytes: Vec<u8>,
}

impl View for BigUint {
    type V = nat;

    closed spec fn view(&self) -> nat {
        be_nat(self.bytes@)
    }
}

impl BigUint {
    /// The representation never carries leading zero bytes, so zero is the
    /// empty byte string and every value has exactly one representation.
    #[verifier::type_invariant]
    closed spec fn inv(&self) -> bool {
        self.bytes@.len() == 0 || self.bytes@[0] != 0
    }

    /// The minimal big-endian bytes of the value: its top-level encoding.
    pub closed spec fn be_bytes(&self) -> Seq<u8> {
        self.bytes@
    }

    /// The value zero.
    pub fn zero() -> (r: Self)
        ensures
            r@ == 0,
            r.be_bytes() == Seq::<u8>::empty(),
    {
        let r = BigUint { bytes: Vec::new() };
        proof {
            assert(r.be_bytes() =~= Seq::<u8>::empty());
        }
        r
    }

    /// The value of a big-endian byte string; leading zero bytes are
    /// dropped, so any padding decodes to the same value.
    pub fn from_bytes(bytes: &[u8]) -> (r: Self)
        ensures
            r@ == be_nat(bytes@),
            r.be_bytes() == bytes@.skip(first_nonzero(bytes@)),
    {
        let mut i: usize = 0;
        while i < bytes.len() && *vstd::slice::slice_index_get(bytes, i) == 0
            invariant
                i <= bytes@.len(),
                forall|j: int| 0 <= j < i ==> bytes@[j] == 0,
            decreases bytes@.len() - i,
        {
            i = i + 1;
        }
        proof {
            assert(i as int == first_nonzero(bytes@)) by {
                lemma_first_nonzero(bytes@, i as int);
            }
            lemma_be_nat_skip_zeros(bytes@, i as int);
        }
        let tail = vstd::slice::slice_subrange(bytes, i, bytes.len());
        let r = BigUint { bytes: vstd::slice::slice_to_vec(tail) };
        proof {
            assert(r.bytes@ =~= bytes@.skip(i as int));
        }
        r
    }

    /// The value of a machine word.
    pub fn from_u64(v: u64) -> (r: Self)
        ensures
            r@ == v as nat,
            r.be_bytes() == min_be(v as nat),
    {
        let b = crate::codec::top_encode_u64(v);
        proof {
            crate::bytes::lemma_min_be(v as nat);
        }
        BigUint { bytes: b }
    }

    /// Whether the value is zero.
    pub fn is_zero(&self) -> (r: bool)
        ensures
            r == (self@ == 0),
    {
        proof {
            use_type_invariant(self);
            if self.bytes@.len() > 0 && be_nat(self.bytes@) == 0 {
                lemma_be_nat_zero(self.bytes@);
            }
        }
        self.bytes.len() == 0
    }

    /// The top-level encoding of the value: its minimal big-endian bytes.
    pub fn to_bytes(&self) -> (r: Vec<u8>)
        ensures
            r@ == self.be_bytes(),
            be_nat(r@) == self@,
    {
        copy_bytes(&self.bytes)
    }

    /// Top-level encoding: the minimal big-endian bytes fill the whole
    /// payload. Never fails.
    pub fn top_encode_or_handle_err(&self, h: ErrorPolicy) -> (r: Result<Vec<u8>, CodecFailure>)
        ensures
            r matches Ok(v) && v@ == self.be_bytes(),
    {
        Ok(self.to_bytes())
    }

    /// Top-level decoding: the whole payload is read as a big-endian
    /// number, with any zero padding dropped. Never fails.
    pub fn top_decode_or_handle_err(input: Vec<u8>, h: ErrorPolicy) -> (r: Result<
        BigUint,
        CodecFailure,
    >)
        ensures
            r matches Ok(b) && b@ == be_nat(input@),
    {
        let bytes = crate::codec::top_decode_bytes(input);
        Ok(Self::from_bytes(bytes.as_slice()))
    }

    /// Nested encoding: appends the length-prefixed minimal big-endian
    /// bytes to the stream. Never fails for a value whose encoding fits
    /// in 32-bit lengths.
    pub fn dep_encode_or_handle_err(&self, dest: &mut Vec<u8>, h: ErrorPolicy) -> (r: Result<
        (),
        CodecFailure,
    >)
        requires
            self.be_bytes().len() <= 0xFFFF_FFFF,
        ensures
            r is Ok,
            final(dest)@ == old(dest)@ + u32_be_bytes(self.be_bytes().len() as nat)
                + self.be_bytes(),
    {
        crate::codec::dep_encode_bytes(&self.bytes, dest);
        Ok(())
    }

    /// Nested decoding: reads a length-prefixed big-endian number from
    /// the given position of the stream; returns the value and the
    /// position after it. Fails when the stream is too short, as the
    /// failure policy directs.
    pub fn dep_decode_or_handle_err(input: &Vec<u8>, at: usize, h: ErrorPolicy) -> (r: Result<
        (BigUint, usize),
        CodecFailure,
    >)
        requires
            at <= input@.len(),
        ensures
            dep_bytes_ready(input@.skip(at as int)) ==> (r matches Ok(p) && p.0@ == be_nat(
                dep_bytes_payload(input@.skip(at as int)),
            ) && p.1 == input@.len() - dep_bytes_remaining(input@.skip(at as int))),
            !dep_bytes_ready(input@.skip(at as int)) ==> r == Err::<(BigUint, usize),
            _>(handled_decode_failure(h, DecodeError::InputTooShort)),
    {
        match crate::codec::dep_decode_bytes(input, at) {
            Some((bytes, remaining)) => {
                let b = Self::from_bytes(bytes.as_slice());
                Ok((b, input.len() - remaining))
            },
            None => Err(handle_decode_failure(h, DecodeError::InputTooShort)),
        }
    }

    /// Whether this value is numerically smaller than the other.
    pub fn lt_big(&self, other: &BigUint) -> (r: bool)
        ensures
            r == (self@ < other@),
    {
        proof {
            use_type_invariant(self);
            use_type_invariant(other);
        }
        if self.bytes.len() < other.bytes.len() {
            proof {
                lemma_be_nat_len_bound(self.bytes@);
                lemma_be_nat_len_bound(other.bytes@);
                lemma_pow256_increases(
                    self.bytes@.len() as nat,
                    (other.bytes@.len() - 1) as nat,
                );
            }
            return true;
        }
        if self.bytes.len() > other.bytes.len() {
            proof {
                lemma_be_nat_len_bound(self.bytes@);
                lemma_be_nat_len_bound(other.bytes@);
                lemma_pow256_increases(
                    other.bytes@.len() as nat,
                    (self.bytes@.len() - 1) as nat,
                );
            }
            return false;
        }
        let mut i: usize = 0;
        while i < self.bytes.len()
            invariant
                i <= self.bytes@.len(),
                self.bytes@.len() == other.bytes@.len(),
                forall|j: int| 0 <= j < i ==> self.bytes@[j] == other.bytes@[j],
            decreases self.bytes@.len() - i,
        {
            let x = self.bytes[i];
            let y = other.bytes[i];
            if x < y {
                proof {
                    lemma_lex_lt(self.bytes@, other.bytes@, i as int);
                }
                return true;
            }
            if x > y {
                proof {
                    lemma_lex_lt(other.bytes@, self.bytes@, i as int);
                }
                return false;
            }
            i = i + 1;
        }
        proof {
            assert(self.bytes@ =~= other.bytes@);
        }
        false
    }

    /// Whether the two values are equal.
    pub fn eq_big(&self, other: &BigUint) -> (r: bool)
        ensures
            r == (self@ == other@),
    {
        proof {
            use_type_invariant(self);
            use_type_invariant(other);
            if self.bytes@ == other.bytes@ {
                assert(self@ == other@);
            } else {
                lemma_minimal_be_unique(self.bytes@, other.bytes@);
            }
        }
        slice_bytes_eq(self.bytes.as_slice(), other.bytes.as_slice())
    }
}

impl Clone for BigUint {
    fn clone(&self) -> (r: Self)
        ensures
            r@ == self@,
            r.be_bytes() == self.be_bytes(),
    {
        proof {
            use_type_invariant(self);
        }
        BigUint { bytes: copy_bytes(&self.bytes) }
    }
}

impl TopEncodeMulti for BigUint {
    /// A big integer expands into one item: its minimal big-endian bytes.
    open spec fn multi_items(&self) -> Seq<Seq<u8>> {
        seq![self.be_bytes()]
    }

    fn multi_encode_or_handle_err(&self, output: &mut ManagedArgBuffer, h: ErrorPolicy) -> (r:
        Result<(), CodecFailure>) {
        output.push_arg_raw(ManagedBuffer::from_vec(self.to_bytes()));
        proof {
            assert(output@ =~= old(output)@ + self.multi_items());
        }
        Ok(())
    }
}

/// The index of the first nonzero byte, or the length when all bytes are
/// zero.
pub open spec fn first_nonzero(s: Seq<u8>) -> int
    decreases s.len(),
{
    if s.len() == 0 {
        0
    } else if s[0] != 0 {
        0
    } else {
        1 + first_nonzero(s.skip(1))
    }
}

proof fn lemma_first_nonzero(s: Seq<u8>, i: int)
    requires
        0 <= i <= s.len(),
        forall|j: int| 0 <= j < i ==> s[j] == 0,
        i < s.len() ==> s[i] != 0,
    ensures
        first_nonzero(s) == i,
    decreases s.len(),
{
    if s.len() > 0 && s[0] == 0 {
        let t = s.skip(1);
        assert(forall|j: int| 0 <= j < i - 1 ==> t[j] == s[j + 1] && t[j] == 0);
        lemma_first_nonzero(t, i - 1);
    }
}

/// Two distinct byte strings without leading zeros denote distinct values.
proof fn lemma_minimal_be_unique(a: Seq<u8>, b: Seq<u8>)
    requires
        a.len() == 0 || a[0] != 0,
        b.len() == 0 || b[0] != 0,
        a != b,
    ensures
        be_nat(a) != be_nat(b),
    decreases a.len() + b.len(), 1int,
{
    if a.len() == 0 {
        assert(b.len() > 0) by {
            if b.len() == 0 {
                assert(a =~= b);
            }
        }
        lemma_be_nat_zero_contra(b);
    } else if b.len() == 0 {
        lemma_be_nat_zero_contra(a);
    } else if a.len() == b.len() {
        if a.drop_last() == b.drop_last() {
            assert(a.last() != b.last()) by {
                if a.last() == b.last() {
                    assert forall|i: int| 0 <= i < a.len() implies a[i] == b[i] by {
                        if i < a.len() - 1 {
                            assert(a.drop_last()[i] == a[i]);
                            assert(b.drop_last()[i] == b[i]);
                        }
                    }
                    assert(a =~= b);
                }
            }
        } else {
            lemma_minimal_be_unique_prefix(a, b);
        }
    } else {
        lemma_be_nat_len_bound(a);
        lemma_be_nat_len_bound(b);
        if a.len() < b.len() {
            lemma_pow256_increases(a.len() as nat, (b.len() - 1) as nat);
        } else {
            lemma_pow256_increases(b.len() as nat, (a.len() - 1) as nat);
        }
    }
}

/// Equal-length byte strings without leading zeros whose prefixes differ
/// denote distinct values.
proof fn lemma_minimal_be_unique_prefix(a: Seq<u8>, b: Seq<u8>)
    requires
        a.len() == b.len(),
        a.len() > 0,
        a[0] != 0,
        b[0] != 0,
        a.drop_last() != b.drop_last(),
    ensures
        be_nat(a) != be_nat(b),
    decreases a.len() + b.len(), 0int,
{
    let x = a.drop_last();
    let y = b.drop_last();
    if x.len() == 0 {
        assert(y =~= x);
    } else {
        assert(x[0] == a[0] && y[0] == b[0]);
        lemma_minimal_be_unique(x, y);
        assert(be_nat(a) == be_nat(x) * 256 + a.last());
        assert(be_nat(b) == be_nat(y) * 256 + b.last());
        if be_nat(x) < be_nat(y) {
            assert(be_nat(x) * 256 + 256 <= be_nat(y) * 256) by (nonlinear_arith)
                requires
                    be_nat(x) < be_nat(y),
            ;
        } else {
            assert(be_nat(y) * 256 + 256 <= be_nat(x) * 256) by (nonlinear_arith)
                requires
                    be_nat(y) < be_nat(x),
            ;
        }
    }
}

/// A nonempty byte string without a leading zero has a nonzero value.
proof fn lemma_be_nat_zero_contra(s: Seq<u8>)
    requires
        s.len() > 0,
        s[0] != 0,
    ensures
        be_nat(s) != 0,
{
    if be_nat(s) == 0 {
        lemma_be_nat_zero(s);
    }
}

/// Powers of 256.
spec fn pow256(n: nat) -> nat
    decreases n,
{
    if n == 0 {
        1
    } else {
        256 * pow256((n - 1) as nat)
    }
}

proof fn lemma_pow256_pos(n: nat)
    ensures
        pow256(n) >= 1,
    decreases n,
{
    if n > 0 {
        lemma_pow256_pos((n - 1) as nat);
    }
}

proof fn lemma_pow256_increases(m: nat, n: nat)
    requires
        m <= n,
    ensures
        pow256(m) <= pow256(n),
    decreases n,
{
    if m < n {
        lemma_pow256_increases(m, (n - 1) as nat);
        lemma_pow256_pos((n - 1) as nat);
    }
}

/// The value of a byte string splits at any position into the value of
/// the prefix, shifted by the suffix's range, plus the value of the
/// suffix.
proof fn lemma_be_nat_split(s: Seq<u8>, k: int)
    requires
        0 <= k <= s.len(),
    ensures
        be_nat(s) == be_nat(s.take(k)) * pow256((s.len() - k) as nat) + be_nat(s.skip(k)),
    decreases s.len(),
{
    if k == s.len() {
        assert(s.take(k) =~= s);
        assert(s.skip(k) =~= Seq::<u8>::empty());
        assert(pow256((s.len() - k) as nat) == 1);
        assert(be_nat(s) == be_nat(s.take(k)) * pow256((s.len() - k) as nat) + be_nat(s.skip(k)))
            by (nonlinear_arith)
            requires
                be_nat(s.take(k)) == be_nat(s),
                be_nat(s.skip(k)) == 0,
                pow256((s.len() - k) as nat) == 1,
        ;
    } else {
        let t = s.drop_last();
        lemma_be_nat_split(t, k);
        assert(t.take(k) =~= s.take(k));
        assert(s.skip(k).drop_last() =~= t.skip(k));
        assert(s.skip(k).last() == s.last());
        let p = pow256((t.len() - k) as nat);
        assert(pow256((s.len() - k) as nat) == 256 * p);
        assert(be_nat(s) == (be_nat(s.take(k)) * p + be_nat(t.skip(k))) * 256 + s.last() as nat);
        assert((be_nat(s.take(k)) * p + be_nat(t.skip(k))) * 256 == be_nat(s.take(k)) * (256 * p)
            + be_nat(t.skip(k)) * 256) by (nonlinear_arith);
        assert(be_nat(s.skip(k)) == be_nat(t.skip(k)) * 256 + s.last() as nat);
        assert(be_nat(s) == be_nat(s.take(k)) * (256 * p) + be_nat(s.skip(k)));
        assert(be_nat(s.take(k)) * (256 * p) == be_nat(s.take(k)) * pow256((s.len() - k) as nat));
    }
}

/// Equal-length byte strings that agree up to a position where the first
/// holds the smaller byte are numerically ordered.
proof fn lemma_lex_lt(a: Seq<u8>, b: Seq<u8>, i: int)
    requires
        a.len() == b.len(),
        0 <= i < a.len(),
        forall|j: int| 0 <= j < i ==> a[j] == b[j],
        a[i] < b[i],
    ensures
        be_nat(a) < be_nat(b),
{
    let m = (a.len() - i - 1) as nat;
    lemma_be_nat_split(a, i + 1);
    lemma_be_nat_split(b, i + 1);
    assert(a.take(i + 1) =~= a.take(i).push(a[i]));
    assert(b.take(i + 1) =~= b.take(i).push(b[i]));
    assert(a.take(i) =~= b.take(i));
    crate::bytes::lemma_be_nat_push(a.take(i), a[i]);
    crate::bytes::lemma_be_nat_push(b.take(i), b[i]);
    let x = be_nat(a.take(i + 1));
    let y = be_nat(b.take(i + 1));
    assert(x + 1 <= y);
    lemma_be_nat_len_bound(a.skip(i + 1));
    assert(a.skip(i + 1).len() == m);
    let p = pow256(m);
    assert(be_nat(a) == x * p + be_nat(a.skip(i + 1)));
    assert(be_nat(a) < x * p + p);
    assert(x * p + p == (x + 1) * p) by (nonlinear_arith);
    assert((x + 1) * p <= y * p) by (nonlinear_arith)
        requires
            x + 1 <= y,
            p >= 0,
    ;
    assert(y * p <= be_nat(b));
}

/// The value of a byte string is bounded by the range of its length, and a
/// string without a leading zero reaches at least the range below it.
proof fn lemma_be_nat_len_bound(s: Seq<u8>)
    ensures
        be_nat(s) < pow256(s.len() as nat),
        s.len() > 0 && s[0] != 0 ==> be_nat(s) >= pow256((s.len() - 1) as nat),
    decreases s.len(),
{
    if s.len() > 0 {
        let t = s.drop_last();
        lemma_be_nat_len_bound(t);
        let p = pow256(t.len() as nat);
        assert(pow256(s.len() as nat) == 256 * p);
        assert(be_nat(s) == be_nat(t) * 256 + s.last() as nat);
        assert(be_nat(t) * 256 + 256 <= p * 256) by (nonlinear_arith)
            requires
                be_nat(t) < p,
        ;
        if s.len() > 1 && s[0] != 0 {
            assert(t[0] == s[0]);
            let q = pow256((t.len() - 1) as nat);
            assert(be_nat(t) * 256 >= q * 256) by (nonlinear_arith)
                requires
                    be_nat(t) >= q,
        ;
            assert(pow256((s.len() - 1) as nat) == 256 * q);
        }
    }
}

} // verus!
