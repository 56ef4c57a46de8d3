//! A thin abstraction layer over the canonicalized-identifier and
//! arbitrary-precision-integer backends, so the backing implementation can be
//! swapped without touching the syntax tree.
//!
//! The canonicalization table is process-wide, grows monotonically, and is
//! safe under concurrent interning; two equal strings always receive handles
//! that compare equal, and a handle resolves back to the interned text.

use vstd::prelude::*;

verus! {

/// A canonical handle to an interned string.
pub type IString = string_cache::DefaultAtom;

/// An arbitrary-precision signed integer, for numeric literals beyond any
/// bounded machine range.
pub type BigInteger = num_bigint::BigInt;

#[verifier::external_type_specification]
#[verifier::external_body]
#[verifier::reject_recursive_types(Static)]
pub struct ExAtom<Static>(string_cache::Atom<Static>);

#[verifier::external_type_specification]
#[verifier::external_body]
pub struct ExEmptyStaticAtomSet(string_cache::EmptyStaticAtomSet);

#[verifier::external_type_specification]
#[verifier::external_body]
pub struct ExBigInt(num_bigint::BigInt);

/// The text held in the canonicalization table for a handle. An atom
/// determines its text: the table never maps one handle to two strings.
pub uninterp spec fn atom_text(a: IString) -> Seq<char>;

/// The integer a `BigInteger` denotes; the representation is kept normalized,
/// so one integer has one value of the type.
pub uninterp spec fn big_value(b: BigInteger) -> int;

/// Interns a `String`.
///
/// Relies on string_cache's `Atom::from`: the returned handle stands for
/// exactly the given text.
#[verifier::external_body]
pub fn interned_string(text: String) -> (r: IString)
    ensures
        atom_text(r) == text@,
{
    IString::from(text)
}

/// Interns a `&str`.
///
/// Relies on string_cache's `Atom::from`: the returned handle stands for
/// exactly the given text.
#[verifier::external_body]
pub fn interned(text: &str) -> (r: IString)
    ensures
        atom_text(r) == text@,
{
    IString::from(text)
}

/// Interns a string with static lifetime.
pub fn interned_static(text: &'static str) -> (r: IString)
    ensures
        atom_text(r) == text@,
{
    interned(text)
}

/// Produces a `String` from `atom`.
///
/// Relies on string_cache's `Display` for `Atom`, which writes the interned
/// text the handle was created from.
#[verifier::external_body]
pub fn resolve(atom: IString) -> (r: String)
    ensures
        r@ == atom_text(atom),
{
    atom.to_string()
}

/// Decides whether two handles intern the same text.
///
/// Relies on string_cache's `PartialEq` for `Atom`: shallow 64-bit equality
/// of handles is equivalent to equality of the interned strings, because a
/// given string is always interned the same way.
#[verifier::external_body]
pub fn atoms_equal(a: &IString, b: &IString) -> (r: bool)
    ensures
        r == (atom_text(*a) == atom_text(*b)),
{
    a == b
}

/// Interning and then resolving gives the original text back.
pub fn intern_round_trip(text: String) -> (r: String)
    ensures
        r@ == text@,
{
    let atom = interned_string(text);
    resolve(atom)
}

/// Two interned handles compare equal exactly when the interned texts are
/// equal.
pub fn interned_equal(s1: &str, s2: &str) -> (r: bool)
    ensures
        r == (s1@ == s2@),
{
    let a1 = interned(s1);
    let a2 = interned(s2);
    atoms_equal(&a1, &a2)
}

/// Relies on num_bigint's `Clone` for `BigInt`, which copies sign and
/// magnitude, so the clone denotes the same integer.
pub assume_specification[ <num_bigint::BigInt as Clone>::clone ](a: &num_bigint::BigInt) -> (r:
    num_bigint::BigInt)
    ensures
        big_value(r) == big_value(*a),
;

/// Converts a machine integer exactly.
///
/// Relies on num_bigint's `From<i64>` for `BigInt`, which represents the
/// given integer exactly.
#[verifier::external_body]
pub fn big_from_i64(v: i64) -> (r: BigInteger)
    ensures
        big_value(r) == v as int,
{
    BigInteger::from(v)
}

/// Decides exact equality of two arbitrary-precision integers.
///
/// Relies on num_bigint's `PartialEq` for `BigInt`, which compares sign and
/// normalized magnitude, that is, the denoted integers.
#[verifier::external_body]
pub fn big_eq(a: &BigInteger, b: &BigInteger) -> (r: bool)
    ensures
        r == (big_value(*a) == big_value(*b)),
{
    a == b
}

} // verus!
