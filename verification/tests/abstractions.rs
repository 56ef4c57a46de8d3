use isa_ast::abstractions::{
    atoms_equal, big_eq, big_from_i64, intern_round_trip, interned, interned_equal,
    interned_static, interned_string, resolve,
};
use isa_ast::ast::Literal;

#[test]
fn intern_then_resolve_returns_the_text() {
    assert_eq!(
        intern_round_trip(String::from("register x0")),
        "register x0"
    );
    assert_eq!(intern_round_trip(String::new()), "");
}

#[test]
fn interning_canonicalizes_equal_strings() {
    assert!(interned_equal("add", "add"));
    assert!(!interned_equal("add", "sub"));
    assert!(interned_equal("", ""));
    let a = interned_string(String::from("op"));
    let b = interned("op");
    let c = interned_static("op");
    assert!(atoms_equal(&a, &b));
    assert!(atoms_equal(&b, &c));
    assert_eq!(resolve(a), "op");
}

#[test]
fn big_integers_compare_by_value() {
    let a = big_from_i64(123456789012345);
    let b = big_from_i64(123456789012345);
    let c = big_from_i64(-1);
    assert!(big_eq(&a, &b));
    assert!(!big_eq(&a, &c));
    assert!(big_eq(&c, &c));
    // The wrapper converts exactly: the backing integer agrees.
    assert_eq!(a, num_bigint::BigInt::from(123456789012345i64));
    assert_eq!(c, num_bigint::BigInt::from(-1i64));
}

#[test]
fn number_literals_with_equal_values_are_equal() {
    let m = Literal::Number(big_from_i64(42));
    let n = Literal::Number(big_from_i64(42));
    let k = Literal::Number(big_from_i64(7));
    assert_eq!(m, n);
    assert_ne!(m, k);
    // A clone of a literal denotes the same number.
    let copy = m.clone();
    assert_eq!(m, copy);
}
