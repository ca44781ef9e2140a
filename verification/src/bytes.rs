//! Specification-level views of byte sequences as numbers.

use vstd::prelude::*;

verus! {

/// The numeric value of a big-endian byte sequence.
pub open spec fn be_nat(s: Seq<u8>) -> nat
    decreases s.len(),
{
    if s.len() == 0 {
        0
    } else {
        be_nat(s.drop_last()) * 256 + s.last() as nat
    }
}

/// The minimal big-endian encoding of a number: no leading zero bytes,
/// and zero encodes as the empty sequence.
pub open spec fn min_be(n: nat) -> Seq<u8>
    decreases n,
{
    if n == 0 {
        Seq::empty()
    } else {
        min_be(n / 256).push((n % 256) as u8)
    }
}

/// The fixed-width four-byte big-endian encoding of a number below 2^32.
pub open spec fn u32_be_bytes(n: nat) -> Seq<u8> {
    seq![
        ((n / 0x1000000) % 256) as u8,
        ((n / 0x10000) % 256) as u8,
        ((n / 0x100) % 256) as u8,
        (n % 256) as u8,
    ]
}

/// A byte sequence with value zero consists of zero bytes only.
pub proof fn lemma_be_nat_zero(s: Seq<u8>)
    requires
        be_nat(s) == 0,
    ensures
        forall|i: int| 0 <= i < s.len() ==> s[i] == 0,
    decreases s.len(),
{
    if s.len() > 0 {
        lemma_be_nat_zero(s.drop_last());
        assert forall|i: int| 0 <= i < s.len() implies s[i] == 0 by {
            if i < s.len() - 1 {
                assert(s.drop_last()[i] == s[i]);
            }
        }
    }
}

/// A byte sequence of zero bytes only has value zero.
pub proof fn lemma_be_nat_all_zero(s: Seq<u8>)
    requires
        forall|i: int| 0 <= i < s.len() ==> s[i] == 0,
    ensures
        be_nat(s) == 0,
    decreases s.len(),
{
    if s.len() > 0 {
        lemma_be_nat_all_zero(s.drop_last());
    }
}

/// Dropping leading zero bytes does not change the value.
pub proof fn lemma_be_nat_skip_zeros(s: Seq<u8>, k: int)
    requires
        0 <= k <= s.len(),
        forall|j: int| 0 <= j < k ==> s[j] == 0,
    ensures
        be_nat(s.skip(k)) == be_nat(s),
    decreases s.len(),
{
    if k == s.len() {
        lemma_be_nat_all_zero(s);
        assert(s.skip(k) =~= Seq::<u8>::empty());
    } else if s.len() > 0 {
        let t = s.drop_last();
        lemma_be_nat_skip_zeros(t, k);
        assert(s.skip(k).drop_last() =~= t.skip(k));
        assert(s.skip(k).last() == s.last());
    }
}

/// The four-byte big-endian encoding of a number below 2^32 decodes back
/// to the number itself.
pub proof fn lemma_u32_be_round_trip(n: nat)
    requires
        n <= 0xFFFF_FFFF,
    ensures
        be_nat(u32_be_bytes(n)) == n,
{
    let q1 = n / 0x100;
    let q2 = n / 0x10000;
    let q3 = n / 0x1000000;
    vstd::arithmetic::div_mod::lemma_fundamental_div_mod(n as int, 0x100);
    vstd::arithmetic::div_mod::lemma_fundamental_div_mod(q1 as int, 0x100);
    vstd::arithmetic::div_mod::lemma_fundamental_div_mod(q2 as int, 0x100);
    vstd::arithmetic::div_mod::lemma_fundamental_div_mod(n as int, 0x1000000);
    vstd::arithmetic::div_mod::lemma_div_denominator(n as int, 0x100, 0x100);
    vstd::arithmetic::div_mod::lemma_div_denominator(n as int, 0x10000, 0x100);
    assert(q1 / 0x100 == q2);
    assert(q2 / 0x100 == q3);
    assert(q3 < 0x100);
    vstd::arithmetic::div_mod::lemma_small_mod(q3, 0x100);
    let s = u32_be_bytes(n);
    let e = Seq::<u8>::empty();
    let s1 = e.push(s[0]);
    let s2 = s1.push(s[1]);
    let s3 = s2.push(s[2]);
    let s4 = s3.push(s[3]);
    assert(s =~= s4);
    assert(be_nat(e) == 0);
    lemma_be_nat_push(e, s[0]);
    lemma_be_nat_push(s1, s[1]);
    lemma_be_nat_push(s2, s[2]);
    lemma_be_nat_push(s3, s[3]);
    assert(be_nat(s1) == q3);
    assert(be_nat(s2) == q3 * 0x100 + q2 % 0x100);
    assert(be_nat(s3) == q2 * 0x100 + q1 % 0x100);
    assert(be_nat(s4) == q1 * 0x100 + n % 0x100);
}

/// Appending a byte multiplies the value by 256 and adds the byte.
pub proof fn lemma_be_nat_push(s: Seq<u8>, x: u8)
    ensures
        be_nat(s.push(x)) == be_nat(s) * 256 + x as nat,
{
    assert(s.push(x).drop_last() =~= s);
    assert(s.push(x).last() == x);
}

/// The minimal big-endian encoding decodes back to the number it encodes,
/// and never starts with a zero byte.
pub proof fn lemma_min_be(n: nat)
    ensures
        be_nat(min_be(n)) == n,
        min_be(n).len() == 0 || min_be(n)[0] != 0,
        n > 0 ==> min_be(n).len() > 0,
    decreases n,
{
    if n > 0 {
        lemma_min_be(n / 256);
        assert(min_be(n).drop_last() =~= min_be(n / 256));
        vstd::arithmetic::div_mod::lemma_fundamental_div_mod(n as int, 256);
        if n / 256 > 0 {
            assert(min_be(n)[0] == min_be(n / 256)[0]);
        }
    }
}

} // verus!
