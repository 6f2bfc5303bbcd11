//! Laws of integers of any size.

use vstd::arithmetic::power::{lemma_pow1, lemma_pow_adds, lemma_pow_positive, pow};
use vstd::prelude::*;
use crate::integer::{signed_value, unsigned_value};

verus! {

/// Bytes without a sign stand for a number that has no more bytes than they are.
proof fn lemma_unsigned_range(bytes: Seq<u8>)
    ensures
        0 <= unsigned_value(bytes) < pow(256, bytes.len()),
    decreases bytes.len(),
{
    reveal(pow);
    if bytes.len() > 0 {
        lemma_unsigned_range(bytes.skip(1));
        lemma_next_power(bytes.skip(1).len());
    }
}

/// One more byte has as many values as one can have, as often.
proof fn lemma_next_power(n: nat)
    ensures
        pow(256, n + 1) == 256 * pow(256, n),
        pow(256, n) > 0,
{
    lemma_pow_adds(256, 1, n);
    lemma_pow1(256);
    lemma_pow_positive(256, n);
}

/// No bytes are zero. One byte stands for itself, and from half of its range on it
/// is negative. A byte in front of others counts once, and they count as often as
/// it has values.
pub proof fn lemma_signed_value(byte: u8, rest: Seq<u8>)
    ensures
        signed_value(Seq::empty()) == 0,
        signed_value(seq![byte]) == if byte < 128 {
            byte as int
        } else {
            byte - 256
        },
        rest.len() > 0 ==> signed_value(seq![byte] + rest) == byte + 256 * signed_value(rest),
{
    let one = seq![byte];
    assert(one.skip(1) =~= Seq::<u8>::empty());
    assert(unsigned_value(one.skip(1)) == 0);
    lemma_pow1(256);
    let all = seq![byte] + rest;
    assert(all.skip(1) =~= rest);
    lemma_next_power(rest.len());
    if rest.len() > 0 {
        assert(all.last() == rest.last());
        assert(unsigned_value(all) == byte + 256 * unsigned_value(rest));
    }
}

/// The value of bytes with one more at their end.
proof fn lemma_unsigned_pushed(bytes: Seq<u8>, byte: u8)
    ensures
        unsigned_value(bytes.push(byte)) == unsigned_value(bytes) + byte * pow(256, bytes.len()),
    decreases bytes.len(),
{
    let all = bytes.push(byte);
    if bytes.len() == 0 {
        assert(all.skip(1) =~= Seq::<u8>::empty());
        assert(unsigned_value(all.skip(1)) == 0);
        assert(unsigned_value(bytes) == 0);
        reveal(pow);
    } else {
        let rest = bytes.skip(1);
        assert(all.skip(1) =~= rest.push(byte));
        lemma_unsigned_pushed(rest, byte);
        lemma_next_power(rest.len());
        let p = pow(256, rest.len());
        assert(256 * (byte * p) == byte * (256 * p)) by (nonlinear_arith);
    }
}

/// An integer stays the same if its sign is written once more behind it.
pub proof fn lemma_sign_extended(bytes: Seq<u8>)
    requires
        bytes.len() > 0,
    ensures
        signed_value(bytes) >= 0 <==> bytes.last() < 128,
        signed_value(bytes) >= 0 ==> signed_value(bytes.push(0)) == signed_value(bytes),
        signed_value(bytes) < 0 ==> signed_value(bytes.push(255)) == signed_value(bytes),
{
    lemma_unsigned_range(bytes);
    lemma_unsigned_pushed(bytes, 0);
    lemma_unsigned_pushed(bytes, 255);
    lemma_next_power(bytes.len());
    let p = pow(256, bytes.len());
    assert(0 * p == 0 && 255 * p + p == 256 * p) by (nonlinear_arith);
    assert(bytes.push(0).last() == 0);
    assert(bytes.push(255).last() == 255);
}

} // verus!
