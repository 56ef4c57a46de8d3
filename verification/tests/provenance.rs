use std::collections::hash_map::DefaultHasher;
use std::hash::{Hash, Hasher};

use isa_ast::ast::{AbstractType, Expression, IdentifierType, Literal, LocatedIdentifier};
use isa_ast::location::{wrap, wrap_at, Located, SourceLocation, Span};

fn hash_of<T: Hash>(t: &T) -> u64 {
    let mut h = DefaultHasher::new();
    t.hash(&mut h);
    h.finish()
}

#[test]
fn wrap_gives_unknown_location_and_value_only_equality() {
    let w = wrap(42u32);
    assert!(matches!(w.location, SourceLocation::Unknown));
    assert_eq!(w.value, 42u32);
    assert_eq!(w, 42u32);
}

#[test]
fn wrap_at_keeps_the_explicit_location() {
    let loc = SourceLocation::Span(Span { start: 3, end: 7 });
    let w = wrap_at("text", loc.clone());
    assert_eq!(w.location, loc);
    assert_eq!(w.value, "text");
}

#[test]
fn map_preserves_location() {
    let loc = SourceLocation::Span(Span { start: 3, end: 7 });
    let w = wrap_at(10i32, loc.clone());
    let m = w.map(|v| v + 1);
    assert_eq!(m.value, 11);
    assert_eq!(m.location, loc);
}

#[test]
fn map_preserves_nested_locations() {
    let outer = SourceLocation::Generated(Box::new(SourceLocation::Span(Span {
        start: 0,
        end: 4,
    })));
    let w = wrap_at(5u8, outer.clone());
    let m = w.map(|v| v * 2);
    assert_eq!(m.location, outer);
    assert_eq!(m.value, 10);
}

#[test]
fn strict_equality_compares_location_and_value() {
    let l1 = SourceLocation::Span(Span { start: 0, end: 2 });
    let l2 = SourceLocation::Span(Span { start: 5, end: 9 });
    let a = wrap_at(7u8, l1.clone());
    let b = wrap_at(7u8, l2.clone());
    let c = wrap_at(7u8, l1.clone());
    let d = wrap_at(8u8, l1.clone());
    assert_ne!(a, b);
    assert_eq!(a, c);
    assert_ne!(a, d);
    // Value-only equality ignores the location on both sides.
    assert_eq!(a, 7u8);
    assert_eq!(b, 7u8);
}

#[test]
fn hint_locations_compare_by_text_and_sublocations() {
    let h1 = SourceLocation::Hint(
        String::from("doc"),
        Box::new(SourceLocation::Span(Span { start: 1, end: 2 })),
        Box::new(SourceLocation::Unknown),
    );
    let h2 = SourceLocation::Hint(
        String::from("doc"),
        Box::new(SourceLocation::Span(Span { start: 1, end: 2 })),
        Box::new(SourceLocation::Unknown),
    );
    let h3 = SourceLocation::Hint(
        String::from("other"),
        Box::new(SourceLocation::Span(Span { start: 1, end: 2 })),
        Box::new(SourceLocation::Unknown),
    );
    assert_eq!(h1, h2);
    assert_ne!(h1, h3);
    assert_ne!(h1, SourceLocation::Unknown);
    let u1 = SourceLocation::Unique(4, Box::new(h1));
    let u2 = SourceLocation::Unique(4, Box::new(h2));
    let u3 = SourceLocation::Unique(5, Box::new(h3));
    assert_eq!(u1, u2);
    assert_ne!(u1, u3);
}

#[test]
fn from_constructors_match_wrap_and_wrap_at() {
    let bare: Located<u16> = Located::from(9u16);
    assert!(matches!(bare.location, SourceLocation::Unknown));
    assert_eq!(bare.value, 9u16);
    let loc = SourceLocation::Span(Span { start: 1, end: 3 });
    let paired: Located<u16> = Located::from((9u16, loc.clone()));
    assert_eq!(paired.location, loc.clone());
    assert_eq!(paired.value, 9u16);
    assert_eq!(paired, wrap_at(9u16, loc));
}

#[test]
fn default_location_is_unknown() {
    let loc = SourceLocation::default();
    assert_eq!(loc, SourceLocation::Unknown);
    let w = Located::<u8>::default();
    assert!(matches!(w.location, SourceLocation::Unknown));
    assert_eq!(w.value, 0u8);
}

#[test]
fn clone_keeps_location_and_value() {
    let loc = SourceLocation::Unique(
        9,
        Box::new(SourceLocation::Span(Span { start: 2, end: 8 })),
    );
    let w = wrap_at(3u64, loc);
    let copy = w.clone();
    assert_eq!(w, copy);
}

#[test]
fn hashing_includes_the_location() {
    let l1 = SourceLocation::Span(Span { start: 0, end: 2 });
    let l2 = SourceLocation::Span(Span { start: 5, end: 9 });
    let a = wrap_at(7u8, l1.clone());
    let b = wrap_at(7u8, l2);
    let c = wrap_at(7u8, l1);
    // Strictly equal values hash equal; value-only equal values with
    // different locations hash differently.
    assert_eq!(hash_of(&a), hash_of(&c));
    assert_ne!(hash_of(&a), hash_of(&b));
}

fn nat_identifier() -> LocatedIdentifier {
    wrap(IdentifierType::Regular(String::from("nat")))
}

fn function_nat_to_nat() -> AbstractType {
    AbstractType::Function {
        lhs: Box::new(wrap(AbstractType::Identifier(nat_identifier()))),
        rhs: Box::new(wrap(AbstractType::Identifier(nat_identifier()))),
        effect: Box::new(wrap(AbstractType::EffectSet(vec![]))),
    }
}

#[test]
fn identity_transform_keeps_tree_and_location() {
    let loc = SourceLocation::Span(Span { start: 10, end: 20 });
    let t = wrap_at(function_nat_to_nat(), loc.clone());
    let u = t.map(|v| v);
    assert_eq!(u.location, loc.clone());
    assert_eq!(u, wrap_at(function_nat_to_nat(), loc));
}

#[test]
fn attribute_wrapper_preserves_inner_location() {
    let inner_loc = SourceLocation::Span(Span { start: 2, end: 5 });
    let inner = wrap_at(Expression::Literal(wrap(Literal::Unit)), inner_loc.clone());
    let wrapped = wrap(Expression::Attribute(
        String::from("deprecated"),
        None,
        Box::new(inner),
    ));
    assert!(matches!(wrapped.location, SourceLocation::Unknown));
    if let Expression::Attribute(name, payload, unwrapped) = wrapped.value {
        assert_eq!(name, "deprecated");
        assert!(payload.is_none());
        assert_eq!(unwrapped.location, inner_loc);
    } else {
        panic!("expected an attribute node");
    }
}
