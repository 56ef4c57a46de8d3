//! The closed taxonomy of lexical and syntactic faults.
//!
//! Every fault is produced already wrapped in `Located<ParserError>` with a
//! `Span` pinpointing it. `is_fatal` tells the driving tokenizer whether the
//! character stream is unreliable beyond the fault (stop scanning) or whether
//! the defect is localized (record it and resynchronize).

use vstd::prelude::*;
use crate::location::Located;

verus! {

/// A fault found while scanning or parsing, paired with a location.
pub type LocatedParseError = Located<ParserError>;

/// The six kinds of lexical/syntactic fault, each carrying only what its
/// message needs: the offending character, or nothing.
#[derive(Debug, Clone, Copy, PartialEq, Eq, Structural, Hash)]
pub enum ParserError {
    UnterminatedStringLiteral,
    /// Invalid character in a number literal.
    MalformedNumberLiteral(char),
    /// Character outside the alphabet of the language.
    UnrecognizedCharacter(char),
    UnmatchedOpenBlock,
    UnmatchedCloseBlock,
    UnknownOperator,
}

/// Relies on String::push: it appends the given character at the end.
pub assume_specification[ std::string::String::push ](s: &mut std::string::String, c: char)
    ensures
        final(s)@ == old(s)@ + seq![c],
;

impl ParserError {
    /// Whether scanning must stop at this fault.
    pub open spec fn spec_is_fatal(&self) -> bool {
        match self {
            ParserError::UnterminatedStringLiteral => true,
            ParserError::UnrecognizedCharacter(_) => true,
            ParserError::MalformedNumberLiteral(_) => false,
            ParserError::UnmatchedOpenBlock => false,
            ParserError::UnmatchedCloseBlock => false,
            ParserError::UnknownOperator => false,
        }
    }

    /// The one fixed message template of this fault kind, independent of any
    /// context.
    pub open spec fn spec_msg(&self) -> Seq<char> {
        match self {
            ParserError::UnterminatedStringLiteral => "unterminated string literal"@,
            ParserError::MalformedNumberLiteral(n) => "number literal is this base cannot contain "@
                + seq![*n],
            ParserError::UnrecognizedCharacter(c) => "unrecognized character "@ + seq![*c],
            ParserError::UnmatchedOpenBlock => "unmatched `{`"@,
            ParserError::UnmatchedCloseBlock => "unmatched `}`"@,
            ParserError::UnknownOperator => "unknown operator"@,
        }
    }

    /// A fatal fault means the token stream itself is unreliable beyond this
    /// point; a recoverable one means scanning may continue to collect more
    /// diagnostics.
    pub fn is_fatal(&self) -> (r: bool)
        ensures
            r == self.spec_is_fatal(),
    {
        match self {
            ParserError::MalformedNumberLiteral(_)
            | ParserError::UnmatchedOpenBlock
            | ParserError::UnmatchedCloseBlock
            | ParserError::UnknownOperator => false,
            ParserError::UnrecognizedCharacter(_)
            | ParserError::UnterminatedStringLiteral => true,
        }
    }

    /// Renders the fault's fixed human-readable message.
    pub fn msg(&self) -> (r: String)
        ensures
            r@ == self.spec_msg(),
    {
        match self {
            ParserError::UnterminatedStringLiteral => "unterminated string literal".to_owned(),
            ParserError::MalformedNumberLiteral(n) => {
                let mut s = "number literal is this base cannot contain ".to_owned();
                s.push(*n);
                s
            },
            ParserError::UnrecognizedCharacter(c) => {
                let mut s = "unrecognized character ".to_owned();
                s.push(*c);
                s
            },
            ParserError::UnmatchedOpenBlock => "unmatched `{`".to_owned(),
            ParserError::UnmatchedCloseBlock => "unmatched `}`".to_owned(),
            ParserError::UnknownOperator => "unknown operator".to_owned(),
        }
    }
}

/// Classification is total and constant: it depends on the fault kind alone,
/// and exactly two kinds are fatal, `UnterminatedStringLiteral` and
/// `UnrecognizedCharacter`.
pub proof fn lemma_exactly_two_fatal_kinds()
    ensures
        forall|e: ParserError|
            e.spec_is_fatal() <==> (e == ParserError::UnterminatedStringLiteral || e matches
            ParserError::UnrecognizedCharacter(_)),
{
}

} // verus!
