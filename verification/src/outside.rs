//! Types of other crates and of std that the library carries through unchanged.

use vstd::prelude::*;

verus! {

/// An Internet Computer principal (a user or canister id).
#[verifier::external_type_specification]
#[verifier::external_body]
pub struct ExPrincipal(candid::Principal);

/// `Principal::clone`: the type derives `Clone` and `Copy`, so a clone is a
/// bitwise copy and equals the value it was made from.
pub assume_specification[ <candid::Principal as Clone>::clone ](p: &candid::Principal) -> (r: candid::Principal)
    ensures
        r == *p,
;

/// An arbitrary-precision natural number of the Candid format.
#[verifier::external_type_specification]
#[verifier::external_body]
pub struct ExNat(candid::Nat);

/// `Nat::clone`: `Nat` derives `Clone` over its one `BigUint` field, whose
/// clone copies the digits, so the clone equals the value it was made from.
pub assume_specification[ <candid::Nat as Clone>::clone ](n: &candid::Nat) -> (r: candid::Nat)
    ensures
        r == *n,
;

/// A point in wall-clock time.
#[verifier::external_type_specification]
#[verifier::external_body]
pub struct ExSystemTime(std::time::SystemTime);

/// `SystemTime::clone`: std documents `SystemTime` as `Copy`, so a clone is a
/// copy and equals the value it was made from.
pub assume_specification[ <std::time::SystemTime as Clone>::clone ](t: &std::time::SystemTime) -> (r: std::time::SystemTime)
    ensures
        r == *t,
;

/// An arbitrary-precision natural number.
#[verifier::external_type_specification]
#[verifier::external_body]
pub struct ExBigUint(num_bigint::BigUint);

/// `BigUint::clone`: it clones the vector of digits, so the clone equals the value it was made from.
pub assume_specification[ <num_bigint::BigUint as Clone>::clone ](n: &num_bigint::BigUint) -> (r: num_bigint::BigUint)
    ensures
        r == *n,
;

/// An arbitrary-precision integer.
#[verifier::external_type_specification]
#[verifier::external_body]
pub struct ExBigInt(num_bigint::BigInt);

/// `BigInt::clone`: it clones the sign and the magnitude, so the clone equals the value it was made from.
pub assume_specification[ <num_bigint::BigInt as Clone>::clone ](n: &num_bigint::BigInt) -> (r: num_bigint::BigInt)
    ensures
        r == *n,
;

/// `String::hash`: feeds the string's bytes to the hasher; nothing is
/// promised of the hasher's state.
pub assume_specification<H: std::hash::Hasher>[ <std::string::String as std::hash::Hash>::hash::<H> ](s: &std::string::String, state: &mut H);

} // verus!
