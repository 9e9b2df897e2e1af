//! The data model: type expressions, generic parameters, type declarations,
//! blocks of statements, and the synthesized shim program.

use vstd::prelude::*;

verus! {

/// A static type expression of the language's type grammar.
///
/// Shapes the rewrite does not need to look inside of are carried without
/// their payload (`Typeof`, `Other`); they are always classified as foreign.
#[derive(Debug, PartialEq)]
pub enum TypeExpression {
    /// A bare type name, such as `string` or `Object`.
    Basic(String),
    /// A string-literal singleton type; the payload is the literal text.
    StringLiteral(String),
    /// A boolean-literal singleton type.
    BooleanLiteral(bool),
    /// An array shorthand `{ T }`.
    Array(Box<TypeExpression>),
    /// A table type with an ordered field list.
    Table(Vec<TypeField>),
    /// A union `A | B | ...` of its ordered members.
    Union(Vec<TypeExpression>),
    /// An intersection `A & B & ...` of its ordered members.
    Intersection(Vec<TypeExpression>),
    /// An optional type `T?`.
    Optional(Box<TypeExpression>),
    /// A parenthesized tuple of types.
    Tuple(Vec<TypeExpression>),
    /// A variadic type `...T`.
    Variadic(Box<TypeExpression>),
    /// A function type `(arguments) -> return`.
    Callback(Vec<TypeExpression>, Box<TypeExpression>),
    /// A named type applied to arguments, `Name<A, B>`.
    Generic(String, Vec<TypeExpression>),
    /// A generic pack reference `Name...`.
    GenericPack(String),
    /// A `typeof(...)` type; its expression is opaque to the rewrite.
    Typeof,
    /// A module-qualified reference `module.Inner`.
    ModuleQualified(String, Box<TypeExpression>),
    /// A variadic pack `...Name`.
    VariadicPack(String),
    /// Any grammar production not modeled above.
    Other,
}

/// One field of a table type.
#[derive(Debug, PartialEq)]
pub struct TypeField {
    pub key: TypeFieldKey,
    pub value: TypeExpression,
}

/// The key of a table-type field.
#[derive(Debug, PartialEq)]
pub enum TypeFieldKey {
    /// A plain named key, `name: T`.
    Name(String),
    /// An index signature `[K]: T`; the payload is `K`.
    IndexSignature(Box<TypeExpression>),
    /// Any other key shape.
    Other,
}

/// Whether a generic parameter is a single name or a parameter pack.
#[derive(Debug, PartialEq, Eq, Clone, Copy, Structural)]
pub enum GenericParameterKind {
    Simple,
    Pack,
}

/// One generic parameter of a type declaration, with an optional default.
#[derive(Debug, PartialEq)]
pub struct GenericParameter {
    pub name: String,
    pub kind: GenericParameterKind,
    pub default: Option<TypeExpression>,
}

/// One `export type Name<...> = ...` (or unexported `type ...`) statement.
#[derive(Debug, PartialEq)]
pub struct TypeDeclaration {
    pub name: String,
    pub generics: Option<Vec<GenericParameter>>,
    pub definition: TypeExpression,
    pub exported: bool,
}

/// A statement of a block, as far as the rewrite needs to see it.
#[derive(Debug, PartialEq)]
pub enum Statement {
    /// A type declaration.
    TypeDecl(TypeDeclaration),
    /// A statement that carries a nested block, such as a `do ... end` body.
    Nested(Block),
    /// Any other statement kind; opaque to the rewrite.
    Other,
}

/// An ordered sequence of statements; the module root is itself a block.
#[derive(Debug, PartialEq)]
pub struct Block {
    pub stmts: Vec<Statement>,
}

/// The synthesized shim: a local binding that requires the target module,
/// the re-export declarations in collection order, and a final return of
/// the binding.
#[derive(Debug, PartialEq)]
pub struct SynthesizedProgram {
    pub require_binding: String,
    pub require_path: String,
    pub re_exports: Vec<TypeDeclaration>,
}

} // verus!
