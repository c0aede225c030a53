//! Arbitrary-precision unsigned integers, as provided by `num`.
//!
//! The verifier cannot look inside a `BigUint`.  What the rest of the crate
//! knows about one is its big-endian byte form, and every operation used on
//! it is declared here with the contract that the prover takes on trust.

use num::BigUint;
use vstd::arithmetic::power::*;
use vstd::prelude::*;

verus! {

#[verifier::external_type_specification]
#[verifier::external_body]
pub struct ExBigUint(num::BigUint);

/// The bytes of `n`, most significant first, exactly as `BigUint::to_bytes_be`
/// lays them out.
pub uninterp spec fn biguint_bytes(n: BigUint) -> Seq<u8>;

/// The number that a big-endian byte string denotes.
pub open spec fn be_value(bytes: Seq<u8>) -> nat
    decreases bytes.len(),
{
    if bytes.len() == 0 {
        0
    } else {
        be_value(bytes.drop_last()) * 256 + bytes.last() as nat
    }
}

/// A big-endian byte string in shortest form: at least one byte, and no
/// leading zero byte unless the string is the single byte `0`.
pub open spec fn is_shortest_be(bytes: Seq<u8>) -> bool {
    bytes.len() >= 1 && (bytes.len() > 1 ==> bytes[0] != 0)
}

/// The number held by `n`.
pub open spec fn biguint_value(n: BigUint) -> nat {
    be_value(biguint_bytes(n))
}

/// `BigUint::to_bytes_be`: the bytes of `n` in big-endian order.  The result
/// is never empty (zero is the single byte `0`) and carries no leading zero
/// byte otherwise.
#[verifier::external_body]
pub(crate) fn to_bytes_be(n: &BigUint) -> (bytes: Vec<u8>)
    ensures
        bytes@ == biguint_bytes(*n),
        is_shortest_be(bytes@),
{
    n.to_bytes_be()
}

/// `BigUint::modpow`: `base` raised to `exponent`, reduced modulo `modulus`.
/// The outside function panics on a zero modulus, which the precondition
/// excludes.
#[verifier::external_body]
pub(crate) fn modpow(base: &BigUint, exponent: &BigUint, modulus: &BigUint) -> (r: BigUint)
    requires
        biguint_value(*modulus) != 0,
    ensures
        biguint_value(r) == pow(biguint_value(*base) as int, biguint_value(*exponent)) % (
        biguint_value(*modulus) as int),
{
    base.modpow(exponent, modulus)
}

/// `BigUint::from(u32)`: the big integer with the value of `v`.
#[verifier::external_body]
pub(crate) fn from_u32(v: u32) -> (r: BigUint)
    ensures
        biguint_value(r) == v,
{
    BigUint::from(v)
}

} // verus!
