//! Source locations, and the generic `Located<T>` wrapper that attaches a
//! location to any value.
//!
//! A location is a small recursive tag tree: a concrete `Span` in the source
//! text, a `Generated` marker for synthesized syntax, a `Unique` integer tag,
//! a documentation `Hint`, or `Unknown` when nothing better is available.

use vstd::prelude::*;
use vstd::std_specs::cmp::PartialEqSpec;

verus! {

/// A half-open byte range in the original source text, `start <= i < end`.
#[derive(Debug, Clone, Copy, PartialEq, Eq, Hash, Structural)]
pub struct Span {
    pub start: u64,
    pub end: u64,
}

/// Where a piece of syntax came from.
#[derive(Debug, Hash)]
pub enum SourceLocation {
    /// The default "empty" location: a valid value in its own right, not an
    /// absence.
    Unknown,
    /// Tags a location with an integer so it can be referred to again later;
    /// uniqueness of the tag is the caller's concern.
    Unique(i32, Box<SourceLocation>),
    /// The syntax was synthesized from code at the inner location.
    Generated(Box<SourceLocation>),
    /// Attaches a documentation string plus two sub-locations (for example
    /// the begin and end of a doc comment).
    Hint(String, Box<SourceLocation>, Box<SourceLocation>),
    /// A concrete range in the original source text.
    Span(Span),
}

/// Deep equality of two locations, comparing documentation strings by their
/// character sequences. This is exactly what the executable `==` on
/// `SourceLocation` decides.
pub open spec fn loc_eq(a: SourceLocation, b: SourceLocation) -> bool
    decreases a,
{
    match (a, b) {
        (SourceLocation::Unknown, SourceLocation::Unknown) => true,
        (SourceLocation::Unique(i1, l1), SourceLocation::Unique(i2, l2)) => i1 == i2 && loc_eq(
            *l1,
            *l2,
        ),
        (SourceLocation::Generated(l1), SourceLocation::Generated(l2)) => loc_eq(*l1, *l2),
        (SourceLocation::Hint(s1, p1, q1), SourceLocation::Hint(s2, p2, q2)) => s1@ == s2@
            && loc_eq(*p1, *p2) && loc_eq(*q1, *q2),
        (SourceLocation::Span(x), SourceLocation::Span(y)) => x == y,
        _ => false,
    }
}

/// `loc_eq` is reflexive.
pub proof fn lemma_loc_eq_reflexive(a: SourceLocation)
    ensures
        loc_eq(a, a),
    decreases a,
{
    match a {
        SourceLocation::Unique(_, l) => lemma_loc_eq_reflexive(*l),
        SourceLocation::Generated(l) => lemma_loc_eq_reflexive(*l),
        SourceLocation::Hint(_, p, q) => {
            lemma_loc_eq_reflexive(*p);
            lemma_loc_eq_reflexive(*q);
        },
        _ => {},
    }
}

/// `loc_eq` is symmetric.
pub proof fn lemma_loc_eq_symmetric(a: SourceLocation, b: SourceLocation)
    ensures
        loc_eq(a, b) == loc_eq(b, a),
    decreases a,
{
    match (a, b) {
        (SourceLocation::Unique(_, l1), SourceLocation::Unique(_, l2)) => {
            lemma_loc_eq_symmetric(*l1, *l2);
        },
        (SourceLocation::Generated(l1), SourceLocation::Generated(l2)) => {
            lemma_loc_eq_symmetric(*l1, *l2);
        },
        (SourceLocation::Hint(_, p1, q1), SourceLocation::Hint(_, p2, q2)) => {
            lemma_loc_eq_symmetric(*p1, *p2);
            lemma_loc_eq_symmetric(*q1, *q2);
        },
        _ => {},
    }
}

/// `loc_eq` is transitive. With reflexivity and symmetry this makes it an
/// equivalence, as the `Eq` claim on `SourceLocation` demands of the
/// executable `==`.
pub proof fn lemma_loc_eq_transitive(a: SourceLocation, b: SourceLocation, c: SourceLocation)
    requires
        loc_eq(a, b),
        loc_eq(b, c),
    ensures
        loc_eq(a, c),
    decreases a,
{
    match (a, b, c) {
        (
            SourceLocation::Unique(_, l1),
            SourceLocation::Unique(_, l2),
            SourceLocation::Unique(_, l3),
        ) => {
            lemma_loc_eq_transitive(*l1, *l2, *l3);
        },
        (
            SourceLocation::Generated(l1),
            SourceLocation::Generated(l2),
            SourceLocation::Generated(l3),
        ) => {
            lemma_loc_eq_transitive(*l1, *l2, *l3);
        },
        (
            SourceLocation::Hint(_, p1, q1),
            SourceLocation::Hint(_, p2, q2),
            SourceLocation::Hint(_, p3, q3),
        ) => {
            lemma_loc_eq_transitive(*p1, *p2, *p3);
            lemma_loc_eq_transitive(*q1, *q2, *q3);
        },
        _ => {},
    }
}

/// Decides deep equality of two locations.
pub fn loc_equal(a: &SourceLocation, b: &SourceLocation) -> (r: bool)
    ensures
        r == loc_eq(*a, *b),
    decreases *a,
{
    match (a, b) {
        (SourceLocation::Unknown, SourceLocation::Unknown) => true,
        (SourceLocation::Unique(i1, l1), SourceLocation::Unique(i2, l2)) => *i1 == *i2
            && loc_equal(l1, l2),
        (SourceLocation::Generated(l1), SourceLocation::Generated(l2)) => loc_equal(l1, l2),
        (SourceLocation::Hint(s1, p1, q1), SourceLocation::Hint(s2, p2, q2)) => *s1 == *s2
            && loc_equal(p1, p2) && loc_equal(q1, q2),
        (SourceLocation::Span(x), SourceLocation::Span(y)) => *x == *y,
        _ => false,
    }
}

impl PartialEq for SourceLocation {
    fn eq(&self, other: &SourceLocation) -> bool {
        loc_equal(self, other)
    }
}

impl vstd::std_specs::cmp::PartialEqSpecImpl for SourceLocation {
    open spec fn obeys_eq_spec() -> bool {
        true
    }

    open spec fn eq_spec(&self, other: &SourceLocation) -> bool {
        loc_eq(*self, *other)
    }
}

impl Eq for SourceLocation {

}

impl Clone for SourceLocation {
    /// A clone is `loc_eq`-equal to the original.
    fn clone(&self) -> (r: SourceLocation)
        ensures
            loc_eq(r, *self),
        decreases *self,
    {
        match self {
            SourceLocation::Unknown => SourceLocation::Unknown,
            SourceLocation::Unique(i, l) => SourceLocation::Unique(*i, Box::new((**l).clone())),
            SourceLocation::Generated(l) => SourceLocation::Generated(Box::new((**l).clone())),
            SourceLocation::Hint(s, p, q) => SourceLocation::Hint(
                s.clone(),
                Box::new((**p).clone()),
                Box::new((**q).clone()),
            ),
            SourceLocation::Span(x) => SourceLocation::Span(*x),
        }
    }
}

impl Default for SourceLocation {
    /// The default location is `Unknown`.
    fn default() -> (r: SourceLocation)
        ensures
            r == SourceLocation::Unknown,
    {
        SourceLocation::Unknown
    }
}

/// A value of any type paired with the location it came from.
///
/// Two equality behaviors coexist: `Located<T> == Located<T>` is strict and
/// compares location and value, while `Located<T> == T` ignores the location
/// and compares the value alone. Hashing combines location and value, so it
/// agrees with the strict equality. Both fields are public, so code that
/// pattern-matches on the value can ignore provenance entirely.
#[derive(Debug, Hash)]
pub struct Located<T> {
    pub location: SourceLocation,
    pub value: T,
}

/// Value-only equality of a wrapped value against a bare one: the location
/// plays no part.
pub open spec fn value_eq<T>(l: Located<T>, t: T) -> bool {
    l.value == t
}

/// Wraps a value with the `Unknown` location.
pub fn wrap<T>(value: T) -> (r: Located<T>)
    ensures
        r.value == value,
        r.location == SourceLocation::Unknown,
        value_eq(r, value),
{
    Located { location: SourceLocation::Unknown, value }
}

/// Wraps a value with an explicit location.
pub fn wrap_at<T>(value: T, location: SourceLocation) -> (r: Located<T>)
    ensures
        r.value == value,
        r.location == location,
        value_eq(r, value),
{
    Located { location, value }
}

impl<T> Located<T> {
    /// Applies `f` to the wrapped value and keeps the location untouched.
    pub fn map<U, F: FnOnce(T) -> U>(self, f: F) -> (r: Located<U>)
        requires
            call_requires(f, (self.value,)),
        ensures
            r.location == self.location,
            call_ensures(f, (self.value,), r.value),
    {
        Located { location: self.location, value: f(self.value) }
    }
}

/// Strict equality of two wrapped values is component-wise: the locations and
/// the values must both agree. Value-only equality against either bare value
/// holds whenever the values agree, whatever the locations are.
pub proof fn lemma_strict_equality<T>(t1: T, t2: T, loc1: SourceLocation, loc2: SourceLocation)
    ensures
        ((Located { location: loc1, value: t1 }) == (Located { location: loc2, value: t2 })) <==> (
        t1 == t2 && loc1 == loc2),
        t1 == t2 ==> value_eq((Located { location: loc1, value: t1 }), t2),
{
}

impl<T: PartialEq> PartialEq for Located<T> {
    fn eq(&self, other: &Located<T>) -> bool {
        loc_equal(&self.location, &other.location) && self.value == other.value
    }
}

impl<T: PartialEq> vstd::std_specs::cmp::PartialEqSpecImpl for Located<T> {
    open spec fn obeys_eq_spec() -> bool {
        <T as PartialEqSpec>::obeys_eq_spec()
    }

    open spec fn eq_spec(&self, other: &Located<T>) -> bool {
        loc_eq(self.location, other.location) && self.value.eq_spec(&other.value)
    }
}

impl<T: PartialEq> PartialEq<T> for Located<T> {
    fn eq(&self, other: &T) -> bool {
        self.value == *other
    }
}

impl<T: PartialEq> vstd::std_specs::cmp::PartialEqSpecImpl<T> for Located<T> {
    open spec fn obeys_eq_spec() -> bool {
        <T as PartialEqSpec>::obeys_eq_spec()
    }

    open spec fn eq_spec(&self, other: &T) -> bool {
        self.value.eq_spec(other)
    }
}

impl<T: Eq> Eq for Located<T> {

}

impl<T> From<T> for Located<T> {
    /// A bare value wraps with the `Unknown` location.
    fn from(value: T) -> (r: Located<T>) {
        wrap(value)
    }
}

impl<T> vstd::std_specs::convert::FromSpecImpl<T> for Located<T> {
    open spec fn obeys_from_spec() -> bool {
        true
    }

    open spec fn from_spec(value: T) -> Located<T> {
        Located { location: SourceLocation::Unknown, value }
    }
}

impl<T> From<(T, SourceLocation)> for Located<T> {
    /// A pair of a value and a location preserves the explicit location.
    fn from(pair: (T, SourceLocation)) -> (r: Located<T>) {
        wrap_at(pair.0, pair.1)
    }
}

impl<T> vstd::std_specs::convert::FromSpecImpl<(T, SourceLocation)> for Located<T> {
    open spec fn obeys_from_spec() -> bool {
        true
    }

    open spec fn from_spec(pair: (T, SourceLocation)) -> Located<T> {
        Located { location: pair.1, value: pair.0 }
    }
}

impl<T: Clone> Clone for Located<T> {
    /// A clone keeps a `loc_eq`-equal location and a value that `T::clone`
    /// could have produced from the original.
    fn clone(&self) -> (r: Located<T>)
        ensures
            loc_eq(r.location, self.location),
            vstd::pervasive::cloned(self.value, r.value),
    {
        Located { location: self.location.clone(), value: self.value.clone() }
    }
}

impl<T: Default> Default for Located<T> {
    /// The default wrapped value carries the `Unknown` location.
    fn default() -> (r: Located<T>)
        ensures
            r.location == SourceLocation::Unknown,
    {
        Located { location: SourceLocation::Unknown, value: T::default() }
    }
}

} // verus!
