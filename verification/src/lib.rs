//! Front-end data model for a dependently-typed hardware/ISA description
//! language: source provenance (`SourceLocation`, `Located<T>`), the abstract
//! syntax algebra for kinds, types, patterns, expressions and top-level
//! definitions, and the lexical/syntactic fault taxonomy.

pub mod abstractions;
pub mod ast;
pub mod errors;
pub mod location;
