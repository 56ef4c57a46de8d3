use isa_ast::errors::ParserError;
use isa_ast::location::{wrap_at, SourceLocation, Span};

#[test]
fn exactly_two_kinds_are_fatal() {
    let kinds = vec![
        ParserError::UnterminatedStringLiteral,
        ParserError::MalformedNumberLiteral('x'),
        ParserError::UnrecognizedCharacter('#'),
        ParserError::UnmatchedOpenBlock,
        ParserError::UnmatchedCloseBlock,
        ParserError::UnknownOperator,
    ];
    let mut fatal_count = 0;
    for k in &kinds {
        // Classification is constant: repeated calls agree.
        assert_eq!(k.is_fatal(), k.is_fatal());
        if k.is_fatal() {
            fatal_count += 1;
        }
    }
    assert_eq!(fatal_count, 2);
    assert!(ParserError::UnterminatedStringLiteral.is_fatal());
    assert!(ParserError::UnrecognizedCharacter('?').is_fatal());
    assert!(!ParserError::MalformedNumberLiteral('9').is_fatal());
    assert!(!ParserError::UnmatchedOpenBlock.is_fatal());
    assert!(!ParserError::UnmatchedCloseBlock.is_fatal());
    assert!(!ParserError::UnknownOperator.is_fatal());
}

#[test]
fn malformed_number_fault_is_recoverable_with_fixed_message() {
    let fault = wrap_at(
        ParserError::MalformedNumberLiteral('x'),
        SourceLocation::Span(Span { start: 10, end: 11 }),
    );
    assert!(!fault.value.is_fatal());
    assert_eq!(
        fault.location,
        SourceLocation::Span(Span { start: 10, end: 11 })
    );
    let text = fault.value.msg();
    assert_eq!(text, "number literal is this base cannot contain x");
    assert!(text.contains('x'));
}

#[test]
fn each_kind_renders_its_fixed_message() {
    assert_eq!(
        ParserError::UnterminatedStringLiteral.msg(),
        "unterminated string literal"
    );
    assert_eq!(
        ParserError::MalformedNumberLiteral('g').msg(),
        "number literal is this base cannot contain g"
    );
    assert_eq!(
        ParserError::UnrecognizedCharacter('~').msg(),
        "unrecognized character ~"
    );
    assert_eq!(ParserError::UnmatchedOpenBlock.msg(), "unmatched `{`");
    assert_eq!(ParserError::UnmatchedCloseBlock.msg(), "unmatched `}`");
    assert_eq!(ParserError::UnknownOperator.msg(), "unknown operator");
}

#[test]
fn message_is_independent_of_context() {
    let here = ParserError::UnknownOperator;
    let there = wrap_at(
        ParserError::UnknownOperator,
        SourceLocation::Span(Span { start: 400, end: 401 }),
    );
    assert_eq!(here.msg(), there.value.msg());
}

#[test]
fn fault_kinds_compare_by_kind_and_payload() {
    assert_eq!(
        ParserError::MalformedNumberLiteral('x'),
        ParserError::MalformedNumberLiteral('x')
    );
    assert_ne!(
        ParserError::MalformedNumberLiteral('x'),
        ParserError::MalformedNumberLiteral('y')
    );
    assert_ne!(
        ParserError::UnmatchedOpenBlock,
        ParserError::UnmatchedCloseBlock
    );
}
