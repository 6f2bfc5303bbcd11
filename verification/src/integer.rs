//! Integers of any size, as they are written in source code.

use num::bigint::BigInt;
use num::ToPrimitive;
use std::ops::Neg;
use vstd::arithmetic::power::pow;
use vstd::prelude::*;
use crate::list::List;

verus! {

/// An integer of any size: its two's complement bytes, least significant
/// first. No bytes at all are zero.
#[derive(Debug, PartialEq, Eq)]
pub struct Integer {
    /// The bytes of the integer.
    pub bytes: List<u8>,
}

/// The value of bytes without a sign, least significant first.
pub open spec fn unsigned_value(bytes: Seq<u8>) -> int
    decreases bytes.len(),
{
    if bytes.len() == 0 {
        0
    } else {
        bytes[0] + 256 * unsigned_value(bytes.skip(1))
    }
}

/// The value of two's complement bytes, least significant first.
pub open spec fn signed_value(bytes: Seq<u8>) -> int {
    if bytes.len() > 0 && bytes.last() >= 0x80 {
        unsigned_value(bytes) - pow(256, bytes.len())
    } else {
        unsigned_value(bytes)
    }
}

/// The value that [`BigInt`]'s `ToPrimitive::to_u64` gives for two's complement
/// bytes that [`BigInt::from_signed_bytes_le`] reads: the integer, if it is in
/// the range of the type.
#[verifier::external_body]
fn bigint_to_u64(bytes: &Vec<u8>) -> (r: Option<u64>)
    ensures
        r == (if 0 <= signed_value(bytes@) <= u64::MAX {
            Some(signed_value(bytes@) as u64)
        } else {
            None
        }),
{
    BigInt::from_signed_bytes_le(bytes).to_u64()
}

/// The value that [`BigInt`]'s `ToPrimitive::to_i64` gives for two's complement
/// bytes that [`BigInt::from_signed_bytes_le`] reads: the integer, if it is in
/// the range of the type.
#[verifier::external_body]
fn bigint_to_i64(bytes: &Vec<u8>) -> (r: Option<i64>)
    ensures
        r == (if i64::MIN <= signed_value(bytes@) <= i64::MAX {
            Some(signed_value(bytes@) as i64)
        } else {
            None
        }),
{
    BigInt::from_signed_bytes_le(bytes).to_i64()
}

/// The value that [`BigInt`]'s `ToPrimitive::to_usize` gives for two's
/// complement bytes that [`BigInt::from_signed_bytes_le`] reads: the integer,
/// if it is in the range of the type.
#[verifier::external_body]
fn bigint_to_usize(bytes: &Vec<u8>) -> (r: Option<usize>)
    ensures
        r == (if 0 <= signed_value(bytes@) <= usize::MAX {
            Some(signed_value(bytes@) as usize)
        } else {
            None
        }),
{
    BigInt::from_signed_bytes_le(bytes).to_usize()
}

/// The two's complement bytes of what [`BigInt`]'s `Neg::neg` makes of two's
/// complement bytes: they stand for the negated integer. How many bytes there
/// are is not said.
#[verifier::external_body]
fn bigint_neg(bytes: &Vec<u8>) -> (r: Vec<u8>)
    ensures
        signed_value(r@) == -signed_value(bytes@),
{
    BigInt::from_signed_bytes_le(bytes).neg().to_signed_bytes_le()
}

impl Integer {
    /// The value of the integer.
    pub open spec fn value(self) -> int {
        signed_value(self.bytes@)
    }

    /// The integer that two's complement bytes stand for, least significant
    /// byte first.
    pub fn from_bytes(bytes: Vec<u8>) -> (n: Self)
        ensures
            n.value() == signed_value(bytes@),
    {
        Integer { bytes: List::from_vec(bytes) }
    }

    /// The integer as a `u64`, if it is one.
    pub fn to_u64(&self) -> (r: Option<u64>)
        ensures
            r == (if 0 <= self.value() <= u64::MAX {
                Some(self.value() as u64)
            } else {
                None
            }),
    {
        bigint_to_u64(&self.bytes.to_vec())
    }

    /// The integer as an `i64`, if it is one.
    pub fn to_i64(&self) -> (r: Option<i64>)
        ensures
            r == (if i64::MIN <= self.value() <= i64::MAX {
                Some(self.value() as i64)
            } else {
                None
            }),
    {
        bigint_to_i64(&self.bytes.to_vec())
    }

    /// The integer as a `usize`, if it is one.
    pub fn to_usize(&self) -> (r: Option<usize>)
        ensures
            r == (if 0 <= self.value() <= usize::MAX {
                Some(self.value() as usize)
            } else {
                None
            }),
    {
        bigint_to_usize(&self.bytes.to_vec())
    }

    /// The negated integer.
    pub fn neg(&self) -> (r: Integer)
        ensures
            r.value() == -self.value(),
    {
        Integer::from_bytes(bigint_neg(&self.bytes.to_vec()))
    }

    /// Copy the integer.
    pub fn copy(&self) -> (r: Integer)
        ensures
            r == *self,
    {
        Integer { bytes: self.bytes.copy() }
    }
}

} // verus!
