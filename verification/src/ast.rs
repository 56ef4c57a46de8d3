//! The abstract-syntax algebra: kinds, types, literals, patterns, mapping
//! patterns, expressions, clauses and top-level definitions.
//!
//! Every producible node is wrapped in `Located<...>`, so provenance survives
//! construction and rewriting. The family is one large mutually recursive set
//! of sum types; operations over it are expected to match exhaustively, which
//! the compiler checks statically. The three cross-cutting wrappers
//! (`Private`, `Attribute`, `Documentation`) recur in each clause and
//! definition family so that visibility, metadata and doc comments can attach
//! at any nesting level.

use vstd::prelude::*;
use crate::abstractions::BigInteger;
use crate::location::{Located, SourceLocation, Span};

verus! {

// Alias for text.
type Text = String;

// Alias for identifiers.
type Identifier = Text;

/// Structured payload of an attribute annotation: a nested
/// object/list/number/string/bool literal tree, used for deprecation- and
/// pragma-like metadata attached to arbitrary nodes.
#[derive(Debug, PartialEq, Eq)]
pub enum AttributeData {
    Object(Vec<(String, AttributeData)>),
    List(Vec<AttributeData>),
    Num(BigInteger),
    String(String),
    Bool(bool),
}

/// AttributeData with location.
pub type LocatedAttributeData = Located<AttributeData>;

/// External binding information for a value specification: a purity flag
/// plus a list of target-name pairs.
#[derive(Debug, Clone, PartialEq, Eq)]
pub struct ExternalBindings {
    pub is_pure: bool,
    pub bindings: Vec<(String, String)>,
}

/// The sort of a type-level entity.
#[derive(Debug, Clone, Copy, PartialEq, Eq, Structural)]
pub enum Kind {
    /// Base kind of types.
    Type,
    /// Kind of natural-number size expressions.
    Integer,
    /// Kind of vector order specifications.
    Order,
    /// Kind of constraints.
    Bool,
}

/// Kind with location.
pub type LocatedKind = Located<Kind>;

/// An identifier with kind, ticked to differentiate it from program
/// variables.
#[derive(Debug, Clone, PartialEq, Eq)]
pub struct KindIdentifier(pub Identifier);

/// Kind identifier with location.
pub type LocatedKindIdentifier = Located<KindIdentifier>;

/// An identifier: regular, or an operator stripped of its infix status.
#[derive(Debug, Clone, PartialEq, Eq)]
pub enum IdentifierType {
    Regular(Identifier),
    Operator(Identifier),
}

/// Identifier with location.
pub type LocatedIdentifier = Located<IdentifierType>;

/// One token of an unresolved infix stream: a primary operand, an infix
/// operator, or a prefix operator. Fixity resolution happens in a later
/// pass, not here.
#[derive(Debug, PartialEq, Eq)]
pub enum InfixToken<T> {
    Primary(T),
    Operator(LocatedIdentifier),
    Prefix(LocatedIdentifier),
}

/// The literal constants.
#[derive(Debug, Clone, PartialEq, Eq)]
pub enum Literal {
    /// Unit literal.
    Unit,
    /// Zero literal.
    Zero,
    /// One literal.
    One,
    /// Boolean true literal.
    True,
    /// Boolean false literal.
    False,
    /// Natural number constant.
    Number(BigInteger),
    /// Bit vector constant in hexadecimal format.
    Hexadecimal(String),
    /// Bit vector constant in binary format.
    Binary(String),
    /// Undefined value.
    Undefined,
    /// String constant.
    String(String),
    /// Real number constant.
    Real(String),
}

/// Literal with location.
pub type LocatedLiteral = Located<Literal>;

/// The closed algebra of abstract types.
#[derive(Debug, PartialEq, Eq)]
pub enum AbstractType {
    /// Identifier type.
    Identifier(LocatedIdentifier),
    /// Ticked variable type.
    Variable(LocatedKindIdentifier),
    /// Literal type.
    Literal(LocatedLiteral),
    /// Set type with natural number constants.
    NumberSet(Vec<BigInteger>),
    /// Membership type over two abstract types.
    In(Box<LocatedAbstractType>, Box<LocatedAbstractType>),
    /// Product type.
    Times(Box<LocatedAbstractType>, Box<LocatedAbstractType>),
    /// Sum type.
    Sum(Box<LocatedAbstractType>, Box<LocatedAbstractType>),
    /// Difference type.
    Minus(Box<LocatedAbstractType>, Box<LocatedAbstractType>),
    /// Exponential type.
    Exponential(Box<LocatedAbstractType>),
    /// Negated type.
    Negative(Box<LocatedAbstractType>),
    /// Unresolved infix-operator stream with token positions.
    Infix(Vec<(InfixToken<LocatedAbstractType>, Span)>),
    /// Increasing vector-order marker.
    Increasing,
    /// Decreasing vector-order marker.
    Decreasing,
    /// Effect-row set: a list of effect identifiers.
    EffectSet(Vec<LocatedIdentifier>),
    /// Function type; the last component is an effect.
    Function {
        lhs: Box<LocatedAbstractType>,
        rhs: Box<LocatedAbstractType>,
        effect: Box<LocatedAbstractType>,
    },
    /// Bidirectional mapping type; the last component is an effect.
    Bidirectional {
        lhs: Box<LocatedAbstractType>,
        rhs: Box<LocatedAbstractType>,
        effect: Box<LocatedAbstractType>,
    },
    /// Wildcard type.
    Wildcard,
    Tuple(Vec<LocatedAbstractType>),
    TypeConstructorApplication(LocatedIdentifier, Vec<LocatedAbstractType>),
    /// Type-level conditional: if the first, then the second, else the third.
    If {
        condition: Box<LocatedAbstractType>,
        then_branch: Box<LocatedAbstractType>,
        elsewise: Box<LocatedAbstractType>,
    },
    /// Existential quantification with a constraint and a body.
    Existential(Vec<LocatedKindIdentifier>, Box<LocatedAbstractType>, Box<LocatedAbstractType>),
    /// Parenthesization, kept explicit to preserve source fidelity.
    Parenthesized(Box<LocatedAbstractType>),
}

/// AbstractType with location.
pub type LocatedAbstractType = Located<AbstractType>;

/// A kind-annotated variable: identifiers, an optional annotation string,
/// and an optional kind.
#[derive(Debug, PartialEq, Eq)]
pub struct KindedIdentifier {
    identifiers: Vec<LocatedKindIdentifier>,
    annotation: Option<String>,
    kind: Option<LocatedKind>,
}

/// KindedIdentifier with location.
pub type LocatedKindedIdentifier = Located<KindedIdentifier>;

/// One item of a type quantifier: an optionally kinded identifier, or a
/// constraint.
#[derive(Debug, PartialEq, Eq)]
pub enum QuantifierItem {
    /// An optionally kinded identifier.
    KindedIdentifier(LocatedKindedIdentifier),
    /// A constraint for this type.
    Constraint(LocatedAbstractType),
}

/// QuantifierItem with location.
pub type LocatedQuantifierItem = Located<QuantifierItem>;

/// A type quantifier with constraints, or the sugar that omits both.
#[derive(Debug, PartialEq, Eq)]
pub enum TypeQuantifier {
    /// Explicit quantifier items.
    TypeQuantifiers(Vec<LocatedQuantifierItem>),
    /// Sugar, omitting quantifier and constraints.
    NoForAll,
}

/// TypeQuantifier with location.
pub type LocatedTypeQuantifier = Located<TypeQuantifier>;

/// A type scheme: a quantifier paired with a body type.
#[derive(Debug, PartialEq, Eq)]
pub struct TypeScheme {
    /// Type quantifier.
    pub quantifier: LocatedTypeQuantifier,
    /// Abstract type.
    pub abstract_type: LocatedAbstractType,
}

/// TypeScheme with location.
pub type LocatedTypeScheme = Located<TypeScheme>;

/// The pattern algebra.
#[derive(Debug, PartialEq, Eq)]
pub enum Pattern {
    /// Literal constant pattern.
    Literal(LocatedLiteral),
    /// Wildcard pattern, which always matches.
    Wildcard,
    Typed(Box<LocatedAbstractType>, Box<LocatedPattern>),
    Identifier(LocatedIdentifier),
    /// Binds a pattern to a type variable.
    Variable(Box<LocatedPattern>, Box<LocatedAbstractType>),
    /// Union constructor pattern.
    Constructor(LocatedIdentifier, Vec<LocatedPattern>),
    /// Fixed-length vector pattern.
    Vector(Vec<LocatedPattern>),
    /// Concatenated vector pattern.
    VectorConcat(Vec<LocatedPattern>),
    /// Vector subrange bound to a name.
    VectorSubrange(LocatedIdentifier, BigInteger, BigInteger),
    Tuple(Vec<LocatedPattern>),
    List(Vec<LocatedPattern>),
    Cons(Box<LocatedPattern>, Box<LocatedPattern>),
    /// Multi-way string append pattern.
    StringAppend(Vec<LocatedPattern>),
    Struct(Vec<LocatedFieldPattern>),
    /// Attribute-annotated pattern with an optional structured payload.
    Attribute(String, Option<LocatedAttributeData>, Box<LocatedPattern>),
}

/// Pattern with location.
pub type LocatedPattern = Located<Pattern>;

/// A field of a struct pattern: named, or a wildcard.
#[derive(Debug, PartialEq, Eq)]
pub enum FieldPattern {
    /// Field pattern.
    Field(LocatedIdentifier, Box<LocatedPattern>),
    /// Wildcard field pattern.
    Wildcard,
}

/// FieldPattern with location.
pub type LocatedFieldPattern = Located<FieldPattern>;

/// The two loop forms.
#[derive(Debug, Clone, Copy, PartialEq, Eq, Structural)]
pub enum LoopType {
    While,
    Until,
}

/// The separate keyword locations of a conditional, kept for precise
/// diagnostics.
#[derive(Debug, Clone, PartialEq, Eq)]
pub struct IfLocation {
    pub if_loc: SourceLocation,
    pub then_loc: SourceLocation,
    pub else_loc: Option<SourceLocation>,
}

/// An optional termination measure for a loop.
pub type Measure = Option<LocatedExpression>;

/// Measure with location.
pub type LocatedMeasure = Located<Measure>;

/// The expression algebra. The three `Internal` forms exist purely for
/// post-parse desugaring and never originate from the grammar.
#[derive(Debug, PartialEq, Eq)]
pub enum Expression {
    /// Block expression.
    Block(Vec<LocatedExpression>),
    /// Identifier expression.
    Identifier(LocatedIdentifier),
    /// Reference to an identifier.
    Reference(LocatedIdentifier),
    /// Dereference expression.
    Dereference(Box<LocatedExpression>),
    /// Literal constant expression.
    Literal(LocatedLiteral),
    /// Cast expression.
    Typed(Box<LocatedAbstractType>, Box<LocatedExpression>),
    /// Function application expression.
    Application(LocatedIdentifier, Vec<LocatedExpression>),
    /// Infix function application expression.
    InfixApplication(Box<LocatedExpression>, LocatedIdentifier, Box<LocatedExpression>),
    /// Unresolved infix-token stream with token positions.
    Infix(Vec<(InfixToken<LocatedExpression>, Span)>),
    /// Tuple expression.
    Tuple(Vec<LocatedExpression>),
    /// Conditional expression, carrying the keyword locations.
    If {
        condition: Box<LocatedExpression>,
        then_expr: Box<LocatedExpression>,
        else_expr: Box<LocatedExpression>,
        if_location: IfLocation,
    },
    /// Loop expression with an optional termination measure.
    Loop(LoopType, Box<LocatedMeasure>, Box<LocatedExpression>, Box<LocatedExpression>),
    /// Bounded for loop with explicit step and element type.
    For {
        identifier: LocatedIdentifier,
        start: Box<LocatedExpression>,
        end: Box<LocatedExpression>,
        step: Box<LocatedExpression>,
        typ: Box<LocatedAbstractType>,
        body: Box<LocatedExpression>,
    },
    /// Vector expression.
    Vector(Vec<LocatedExpression>),
    /// Vector access expression.
    VectorAccess(Box<LocatedExpression>, Box<LocatedExpression>),
    /// Subvector extraction expression.
    VectorSubrange(Box<LocatedExpression>, Box<LocatedExpression>, Box<LocatedExpression>),
    /// Vector functional update expression.
    VectorUpdate(Box<LocatedExpression>, Box<LocatedExpression>, Box<LocatedExpression>),
    /// Vector subrange update expression.
    VectorUpdateSubrange(
        Box<LocatedExpression>,
        Box<LocatedExpression>,
        Box<LocatedExpression>,
        Box<LocatedExpression>,
    ),
    /// Vector concatenation expression.
    VectorAppend(Box<LocatedExpression>, Box<LocatedExpression>),
    /// List expression.
    List(Vec<LocatedExpression>),
    /// Cons expression.
    Cons(Box<LocatedExpression>, Box<LocatedExpression>),
    /// Struct expression.
    Struct(Vec<LocatedExpression>),
    /// Functional update of a struct expression.
    StructUpdate(Box<LocatedExpression>, Vec<LocatedExpression>),
    /// Field projection from a struct expression.
    Field(Box<LocatedExpression>, LocatedIdentifier),
    /// Pattern matching expression.
    Match(Box<LocatedExpression>, Vec<LocatedPatternExpression>),
    /// Let expression.
    Let(LocatedLetBinding, Box<LocatedExpression>),
    /// Imperative assignment expression.
    Assign(Box<LocatedExpression>, Box<LocatedExpression>),
    /// Sizeof expression.
    Sizeof(Box<LocatedAbstractType>),
    /// Bare type-constraint assertion.
    Constraint(Box<LocatedAbstractType>),
    /// Exit expression.
    Exit(Box<LocatedExpression>),
    /// Throw expression.
    Throw(Box<LocatedExpression>),
    /// Try expression with handler clauses.
    Try(Box<LocatedExpression>, Vec<LocatedPatternExpression>),
    /// Return expression.
    Return(Box<LocatedExpression>),
    /// Labeled assert expression.
    Assert(Box<LocatedExpression>, Box<LocatedExpression>),
    /// Three-operand variable form.
    Variable(Box<LocatedExpression>, Box<LocatedExpression>, Box<LocatedExpression>),
    /// Attribute-annotated expression with an optional structured payload.
    Attribute(String, Option<LocatedAttributeData>, Box<LocatedExpression>),
    /// Internal-only pattern-let form, produced by desugaring.
    InternalPlet(Box<LocatedPattern>, Box<LocatedExpression>, Box<LocatedExpression>),
    /// Internal-only return form, produced by desugaring.
    InternalReturn(Box<LocatedExpression>),
    /// Internal-only assumption form, produced by desugaring.
    InternalAssume(Box<LocatedAbstractType>, Box<LocatedExpression>),
}

/// Expression with location.
pub type LocatedExpression = Located<Expression>;

/// An optional default value for indexed vectors.
pub type OptionalDefault = Option<LocatedExpression>;

/// Optional default value with location.
pub type LocatedOptionalDefault = Located<OptionalDefault>;

/// One arm of a pattern match, with an optional guard.
#[derive(Debug, PartialEq, Eq)]
pub enum PatternExpression {
    Pattern(Box<LocatedPattern>, Box<LocatedExpression>),
    PatternWhen(Box<LocatedPattern>, Box<LocatedExpression>, Box<LocatedExpression>),
}

/// PatternExpression with location.
pub type LocatedPatternExpression = Located<PatternExpression>;

/// A let binding.
#[derive(Debug, PartialEq, Eq)]
pub enum LetBinding {
    ValueBinding(Box<LocatedPattern>, Box<LocatedExpression>),
}

/// LetBinding with location.
pub type LocatedLetBinding = Located<LetBinding>;

/// An optional type annotation for functions.
pub type TypeAnnotationOption = Option<(LocatedTypeQuantifier, Box<LocatedAbstractType>)>;

/// TypeAnnotationOption with location.
pub type LocatedTypeAnnotationOption = Located<TypeAnnotationOption>;

/// An optional type scheme.
pub type TypeSchemeOption = Option<LocatedTypeScheme>;

/// TypeSchemeOption with location.
pub type LocatedTypeSchemeOption = Located<TypeSchemeOption>;

/// An optional effect annotation for functions.
pub type EffectOption = Option<LocatedAbstractType>;

/// EffectOption with location.
pub type LocatedEffectOption = Located<EffectOption>;

/// An optional recursion measure for functions.
pub type RecursiveMeasureOption = Option<(Box<LocatedPattern>, Box<LocatedExpression>)>;

/// RecursiveMeasureOption with location.
pub type LocatedRecursiveOption = Located<RecursiveMeasureOption>;

/// A function clause, possibly wrapped by visibility, attribute or
/// documentation annotations.
#[derive(Debug, PartialEq, Eq)]
pub enum FunctionClause {
    Private(Box<LocatedFunctionClause>),
    Attribute(String, Option<LocatedAttributeData>, Box<LocatedFunctionClause>),
    Documentation(String, Box<LocatedFunctionClause>),
    Clause(LocatedIdentifier, Box<LocatedPatternExpression>),
}

/// FunctionClause with location.
pub type LocatedFunctionClause = Located<FunctionClause>;

/// A constructor of a tagged-union type definition, possibly wrapped by the
/// cross-cutting annotations.
#[derive(Debug, PartialEq, Eq)]
pub enum TypeUnion {
    Private(Box<LocatedTypeUnion>),
    Attribute(String, Option<LocatedAttributeData>, Box<LocatedTypeUnion>),
    Documentation(String, Box<LocatedTypeUnion>),
    TypeIdentifier(Box<LocatedAbstractType>, LocatedIdentifier),
    AnonymousRecord(Vec<(LocatedAbstractType, LocatedIdentifier)>, LocatedIdentifier),
}

/// TypeUnion with location.
pub type LocatedTypeUnion = Located<TypeUnion>;

/// One substitution of a template instantiation: a type for a kind variable,
/// or an identifier for an identifier.
#[derive(Debug, PartialEq, Eq)]
pub enum InstantiationSubstitution {
    TypeSubstitution(LocatedKindIdentifier, Box<LocatedAbstractType>),
    IdentifierSubstitution(LocatedIdentifier, LocatedIdentifier),
}

/// InstantiationSubstitution with location.
pub type LocatedInstantiationSubstitution = Located<InstantiationSubstitution>;

/// An index specification for bitfields in register types.
#[derive(Debug, PartialEq, Eq)]
pub enum IndexRange {
    /// Single index.
    Single(Box<LocatedAbstractType>),
    /// Index range.
    Range(Box<LocatedAbstractType>, Box<LocatedAbstractType>),
    /// Concatenation of index ranges.
    Concat(Box<LocatedIndexRange>, Box<LocatedIndexRange>),
}

/// IndexRange with location.
pub type LocatedIndexRange = Located<IndexRange>;

/// A default kinding/typing assumption, such as the default order for
/// literal vectors and vector shorthands.
#[derive(Debug, PartialEq, Eq)]
pub enum DefaultTypingSpec {
    Order(LocatedKind, Box<LocatedAbstractType>),
}

/// DefaultTypingSpec with location.
pub type LocatedDefaultTypingSpec = Located<DefaultTypingSpec>;

/// The mapping-pattern algebra, the pattern language of bidirectional
/// mappings.
#[derive(Debug, PartialEq, Eq)]
pub enum MappingPattern {
    Literal(LocatedLiteral),
    Identifier(LocatedIdentifier),
    Application(LocatedIdentifier, Vec<LocatedMappingPattern>),
    Vector(Vec<LocatedMappingPattern>),
    VectorConcat(Vec<LocatedMappingPattern>),
    VectorSubrange(LocatedIdentifier, BigInteger, BigInteger),
    Tuple(Vec<LocatedMappingPattern>),
    List(Vec<LocatedMappingPattern>),
    Cons(Box<LocatedMappingPattern>, Box<LocatedMappingPattern>),
    StringAppend(Vec<LocatedMappingPattern>),
    Typed(Box<LocatedMappingPattern>, Box<LocatedAbstractType>),
    As(Box<LocatedMappingPattern>, LocatedIdentifier),
    Struct(Vec<(LocatedIdentifier, LocatedMappingPattern)>),
}

/// MappingPattern with location.
pub type LocatedMappingPattern = Located<MappingPattern>;

/// A mapping pattern with an optional guard.
#[derive(Debug, PartialEq, Eq)]
pub enum MappingPatternExpression {
    Pattern(LocatedMappingPattern),
    PatternWhen(LocatedMappingPattern, Box<LocatedExpression>),
}

/// MappingPatternExpression with location.
pub type LocatedMappingPatternExpression = Located<MappingPatternExpression>;

/// One clause of a bidirectional mapping.
#[derive(Debug, PartialEq, Eq)]
pub enum MappingClause {
    Attribute(String, Option<LocatedAttributeData>, Box<LocatedMappingClause>),
    Documentation(String, Box<LocatedMappingClause>),
    Bidirectional(LocatedMappingPatternExpression, LocatedMappingPatternExpression),
    ForwardsDeprecated(LocatedMappingPatternExpression, Box<LocatedExpression>),
    Forwards(LocatedPatternExpression),
    Backwards(LocatedPatternExpression),
}

/// MappingClause with location.
pub type LocatedMappingClause = Located<MappingClause>;

/// A mapping definition: a bidirectional pattern-match function.
#[derive(Debug, PartialEq, Eq)]
pub enum MappingDefinition {
    Mapping(LocatedIdentifier, LocatedTypeSchemeOption, Vec<LocatedMappingClause>),
}

/// MappingDefinition with location.
pub type LocatedMappingDefinition = Located<MappingDefinition>;

/// An outcome declaration: a named effect-handler signature with associated
/// type parameters.
#[derive(Debug, PartialEq, Eq)]
pub enum OutcomeSpec {
    Outcome(LocatedIdentifier, Box<LocatedTypeScheme>, Vec<LocatedKindIdentifier>),
}

/// OutcomeSpec with location.
pub type LocatedOutcomeSpec = Located<OutcomeSpec>;

/// A function definition.
#[derive(Debug, PartialEq, Eq)]
pub enum FunctionDefinition {
    Function(
        LocatedRecursiveOption,
        LocatedTypeAnnotationOption,
        LocatedEffectOption,
        Vec<LocatedFunctionClause>,
    ),
}

/// FunctionDefinition with location.
pub type LocatedFunctionDefinition = Located<FunctionDefinition>;

/// The body of a type definition.
#[derive(Debug, PartialEq, Eq)]
pub enum TypeDefinition {
    Abbreviation(LocatedIdentifier, LocatedTypeQuantifier, LocatedKind, Box<LocatedAbstractType>),
    Record(LocatedIdentifier, LocatedTypeQuantifier, Vec<(LocatedAbstractType, LocatedIdentifier)>),
    Variant(LocatedIdentifier, LocatedTypeQuantifier, Vec<LocatedTypeUnion>),
    Enum(
        LocatedIdentifier,
        Vec<(LocatedIdentifier, Box<LocatedAbstractType>)>,
        Vec<(LocatedIdentifier, Option<Box<LocatedExpression>>)>,
    ),
    Abstract(LocatedIdentifier, LocatedKind),
    Bitfield(
        LocatedIdentifier,
        Box<LocatedAbstractType>,
        Vec<(LocatedIdentifier, LocatedIndexRange)>,
    ),
}

/// TypeDefinition with location.
pub type LocatedTypeDefinition = Located<TypeDefinition>;

/// A value type specification, optionally carrying external binding
/// information.
#[derive(Debug, PartialEq, Eq)]
pub enum ValueSpecification {
    ValueSpec(Box<LocatedTypeScheme>, LocatedIdentifier, Option<ExternalBindings>),
}

/// ValueSpecification with location.
pub type LocatedValueSpecification = Located<ValueSpecification>;

/// A register declaration.
#[derive(Debug, PartialEq, Eq)]
pub enum DeclarationSpecification {
    Register(Box<LocatedAbstractType>, LocatedIdentifier, Option<Box<LocatedExpression>>),
}

/// DeclarationSpecification with location.
pub type LocatedDeclarationSpecification = Located<DeclarationSpecification>;

/// A fragment of a scattered definition: a function, enum, variant or
/// mapping declared once and extended incrementally across a file, closed by
/// an `End` naming the same identifier. The openness between the declaration
/// and its `End` is a property the elaborator checks; the model represents
/// the fragments as they come.
#[derive(Debug, PartialEq, Eq)]
pub enum ScatteredDefinition {
    Function(
        LocatedRecursiveOption,
        LocatedTypeAnnotationOption,
        LocatedEffectOption,
        LocatedIdentifier,
    ),
    FunctionClause(LocatedFunctionClause),
    Enumeration(LocatedIdentifier),
    EnumerationMember(LocatedIdentifier, LocatedIdentifier),
    Variant(LocatedIdentifier, LocatedTypeQuantifier),
    UnionClause(LocatedIdentifier, LocatedTypeUnion),
    Mapping(LocatedIdentifier, LocatedTypeAnnotationOption),
    MapClause(LocatedIdentifier, LocatedMappingClause),
    End(LocatedIdentifier),
}

/// ScatteredDefinition with location.
pub type LocatedScatteredDefinition = Located<ScatteredDefinition>;

/// A termination measure attached to one loop of a function.
#[derive(Debug, PartialEq, Eq)]
pub struct LoopMeasure {
    pub loop_type: LoopType,
    pub expression: Box<LocatedExpression>,
}

/// Associativity of a fixity declaration.
#[derive(Debug, Clone, Copy, PartialEq, Eq, Structural)]
pub enum Precedence {
    Infix,
    InfixL,
    InfixR,
}

/// A fixity token: associativity, numeric priority, and the operator name.
#[derive(Debug, PartialEq, Eq)]
pub struct FixityToken(pub Precedence, pub BigInteger, pub String);

/// The top-level definition sum type.
#[derive(Debug, PartialEq, Eq)]
pub enum Definition {
    TypeDefinition(LocatedTypeDefinition),
    Constraint(Box<LocatedAbstractType>),
    FunctionDefinition(LocatedFunctionDefinition),
    MappingDefinition(LocatedMappingDefinition),
    Implementation(LocatedFunctionClause),
    ValueDefinition(LocatedLetBinding),
    Overload(LocatedIdentifier, Vec<LocatedIdentifier>),
    Fixity(Precedence, BigInteger, LocatedIdentifier),
    ValueSpec(LocatedValueSpecification),
    OutcomeSpec(LocatedOutcomeSpec, Vec<LocatedDefinition>),
    Instantiation(LocatedIdentifier, Vec<LocatedInstantiationSubstitution>),
    DefaultTypingSpec(LocatedDefaultTypingSpec),
    ScatteredDefinition(LocatedScatteredDefinition),
    Measure(LocatedIdentifier, Box<LocatedPattern>, Box<LocatedExpression>),
    LoopMeasures(LocatedIdentifier, Vec<LoopMeasure>),
    Register(LocatedDeclarationSpecification),
    Pragma(String, String, i32),
    Private(Box<LocatedDefinition>),
    Attribute(String, Option<LocatedAttributeData>, Box<LocatedDefinition>),
    Documentation(String, Box<LocatedDefinition>),
    /// Internal mutual-recursion grouping, produced only by elaboration.
    InternalMutRec(Vec<LocatedFunctionDefinition>),
}

/// Definition with location.
pub type LocatedDefinition = Located<Definition>;

/// An assignment target: a strict subset of expression shapes.
#[derive(Debug, PartialEq, Eq)]
pub enum LValueExpression {
    Identifier(LocatedIdentifier),
    Memory(LocatedIdentifier, Vec<LocatedExpression>),
    Vector(Box<LocatedLValueExpression>, Box<LocatedExpression>),
    VectorRange(Box<LocatedLValueExpression>, Box<LocatedExpression>, Box<LocatedExpression>),
    VectorConcat(Vec<LocatedLValueExpression>),
    Field(Box<LocatedLValueExpression>, LocatedIdentifier),
}

/// LValueExpression with location.
pub type LocatedLValueExpression = Located<LValueExpression>;

/// A whole compiled unit: an ordered sequence of (source-unit name,
/// definition sequence) groups. The order is significant for scattered
/// definition assembly and later shadowing and overload resolution.
#[derive(Debug, PartialEq, Eq)]
pub struct Definitions(pub Vec<(String, Vec<LocatedDefinition>)>);

} // verus!
