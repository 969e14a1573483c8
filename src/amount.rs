use vstd::prelude::*;

verus! {

/// Numeric value of a big-endian byte string.
pub open spec fn be_value(s: Seq<u8>) -> nat
    decreases s.len(),
{
    if s.len() == 0 {
        0
    } else {
        be_value(s.drop_last()) * 256 + s.last() as nat
    }
}

/// An unsigned 256-bit integer held as 32 big-endian bytes; used for
/// amounts, nonces and channel identifiers.
#[derive(Clone, Copy, Debug)]
pub struct U256 {
    pub bytes: [u8; 32],
}

/// The value zero: 32 zero bytes.
pub open spec fn zero_u256() -> U256 {
    U256 { bytes: vstd::array::spec_array_fill_for_copy_type::<u8, 32>(0u8) }
}

impl U256 {
    pub open spec fn value(self) -> nat {
        be_value(self.bytes@)
    }

    pub fn zero() -> (r: U256)
        ensures
            r == zero_u256(),
    {
        U256 { bytes: [0u8; 32] }
    }

    pub fn from_bytes(bytes: [u8; 32]) -> (r: U256)
        ensures
            r.bytes@ == bytes@,
    {
        U256 { bytes }
    }

    /// Whether the two values are equal.
    pub fn same(&self, other: &U256) -> (r: bool)
        ensures
            r == (self.value() == other.value()),
    {
        !u256_lt(self, other) && !u256_lt(other, self)
    }

    /// Whether `self` is strictly below `other`.
    pub fn lt(&self, other: &U256) -> (r: bool)
        ensures
            r == (self.value() < other.value()),
    {
        u256_lt(self, other)
    }

    /// `self - other`, or `None` where it would be negative.
    pub fn checked_sub(&self, other: &U256) -> (r: Option<U256>)
        ensures
            r is Some <==> other.value() <= self.value(),
            r matches Some(d) ==> d.value() == self.value() - other.value(),
    {
        u256_checked_sub(self, other)
    }
}

/// Relies on num256's `Uint256::from_be_bytes` and its derived `Ord`: the
/// numeric order of two 32-byte big-endian values.
#[verifier::external_body]
fn u256_lt(a: &U256, b: &U256) -> (r: bool)
    ensures
        r == (a.value() < b.value()),
{
    num256::Uint256::from_be_bytes(&a.bytes) < num256::Uint256::from_be_bytes(&b.bytes)
}

/// Relies on num256's `Uint256` (its inner bnum `checked_sub`): the
/// difference, or `None` below zero; `to_be_bytes` writes it back as 32
/// big-endian bytes.
#[verifier::external_body]
fn u256_checked_sub(a: &U256, b: &U256) -> (r: Option<U256>)
    ensures
        r is Some <==> b.value() <= a.value(),
        r matches Some(d) ==> d.value() == a.value() - b.value(),
{
    let x = num256::Uint256::from_be_bytes(&a.bytes);
    let y = num256::Uint256::from_be_bytes(&b.bytes);
    x.0.checked_sub(y.0).map(|d| U256 { bytes: num256::Uint256(d).to_be_bytes() })
}

/// `a + b == c + d`, decided without forming either sum.
pub fn sums_equal(a: &U256, b: &U256, c: &U256, d: &U256) -> (r: bool)
    ensures
        r == (a.value() + b.value() == c.value() + d.value()),
{
    match a.checked_sub(c) {
        Some(x) => match d.checked_sub(b) {
            Some(y) => x.same(&y),
            None => false,
        },
        None => match c.checked_sub(a) {
            Some(x) => match b.checked_sub(d) {
                Some(y) => x.same(&y),
                None => false,
            },
            None => false,
        },
    }
}

} // verus!
