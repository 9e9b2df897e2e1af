//! The mathematical model of the data types: each value of the executable
//! model is abstracted to a view built from `Seq` and plain values, and the
//! contracts of the library speak of these views.

use vstd::prelude::*;

use crate::ast::{
    GenericParameter, GenericParameterKind, SynthesizedProgram, TypeDeclaration, TypeExpression,
    TypeField, TypeFieldKey,
};

verus! {

/// The view of a `TypeExpression`.
#[verifier::ext_equal]
pub enum TypeExprV {
    Basic(Seq<char>),
    StringLiteral(Seq<char>),
    BooleanLiteral(bool),
    Array(Box<TypeExprV>),
    Table(Seq<FieldV>),
    Union(Seq<TypeExprV>),
    Intersection(Seq<TypeExprV>),
    Optional(Box<TypeExprV>),
    Tuple(Seq<TypeExprV>),
    Variadic(Box<TypeExprV>),
    Callback(Seq<TypeExprV>, Box<TypeExprV>),
    Generic(Seq<char>, Seq<TypeExprV>),
    GenericPack(Seq<char>),
    Typeof,
    ModuleQualified(Seq<char>, Box<TypeExprV>),
    VariadicPack(Seq<char>),
    Other,
}

/// The view of a table field.
#[verifier::ext_equal]
pub struct FieldV {
    pub key: KeyV,
    pub value: TypeExprV,
}

/// The view of a table-field key.
#[verifier::ext_equal]
pub enum KeyV {
    Name(Seq<char>),
    IndexSignature(Box<TypeExprV>),
    Other,
}

/// The view of a generic parameter.
#[verifier::ext_equal]
pub struct ParamV {
    pub name: Seq<char>,
    pub kind: GenericParameterKind,
    pub default: Option<TypeExprV>,
}

/// The view of a type declaration.
#[verifier::ext_equal]
pub struct DeclV {
    pub name: Seq<char>,
    pub generics: Option<Seq<ParamV>>,
    pub definition: TypeExprV,
    pub exported: bool,
}

/// The view of a synthesized shim program.
#[verifier::ext_equal]
pub struct ProgramV {
    pub require_binding: Seq<char>,
    pub require_path: Seq<char>,
    pub re_exports: Seq<DeclV>,
}

/// The view of a type expression.
pub open spec fn type_view(e: TypeExpression) -> TypeExprV
    decreases e,
{
    match e {
        TypeExpression::Basic(name) => TypeExprV::Basic(name@),
        TypeExpression::StringLiteral(text) => TypeExprV::StringLiteral(text@),
        TypeExpression::BooleanLiteral(b) => TypeExprV::BooleanLiteral(b),
        TypeExpression::Array(element) => TypeExprV::Array(Box::new(type_view(*element))),
        TypeExpression::Table(fields) => TypeExprV::Table(field_views(fields@)),
        TypeExpression::Union(members) => TypeExprV::Union(type_views(members@)),
        TypeExpression::Intersection(members) => TypeExprV::Intersection(type_views(members@)),
        TypeExpression::Optional(base) => TypeExprV::Optional(Box::new(type_view(*base))),
        TypeExpression::Tuple(members) => TypeExprV::Tuple(type_views(members@)),
        TypeExpression::Variadic(inner) => TypeExprV::Variadic(Box::new(type_view(*inner))),
        TypeExpression::Callback(arguments, ret) => TypeExprV::Callback(
            type_views(arguments@),
            Box::new(type_view(*ret)),
        ),
        TypeExpression::Generic(name, args) => TypeExprV::Generic(name@, type_views(args@)),
        TypeExpression::GenericPack(name) => TypeExprV::GenericPack(name@),
        TypeExpression::Typeof => TypeExprV::Typeof,
        TypeExpression::ModuleQualified(module, inner) => TypeExprV::ModuleQualified(
            module@,
            Box::new(type_view(*inner)),
        ),
        TypeExpression::VariadicPack(name) => TypeExprV::VariadicPack(name@),
        TypeExpression::Other => TypeExprV::Other,
    }
}

/// The views of a sequence of type expressions, in order.
pub open spec fn type_views(s: Seq<TypeExpression>) -> Seq<TypeExprV>
    decreases s,
{
    if s.len() == 0 {
        Seq::empty()
    } else {
        type_views(s.drop_last()).push(type_view(s.last()))
    }
}

/// The view of a table field.
pub open spec fn field_view(f: TypeField) -> FieldV
    decreases f,
{
    FieldV { key: key_view(f.key), value: type_view(f.value) }
}

/// The views of a sequence of table fields, in order.
pub open spec fn field_views(s: Seq<TypeField>) -> Seq<FieldV>
    decreases s,
{
    if s.len() == 0 {
        Seq::empty()
    } else {
        field_views(s.drop_last()).push(field_view(s.last()))
    }
}

/// `type_views` maps the view over the sequence, element by element.
pub proof fn lemma_type_views(s: Seq<TypeExpression>)
    ensures
        type_views(s).len() == s.len(),
        forall|i: int| 0 <= i < s.len() ==> type_views(s)[i] == type_view(s[i]),
    decreases s.len(),
{
    if s.len() > 0 {
        lemma_type_views(s.drop_last());
    }
}

/// `field_views` maps the view over the sequence, element by element.
pub proof fn lemma_field_views(s: Seq<TypeField>)
    ensures
        field_views(s).len() == s.len(),
        forall|i: int| 0 <= i < s.len() ==> field_views(s)[i] == field_view(s[i]),
    decreases s.len(),
{
    if s.len() > 0 {
        lemma_field_views(s.drop_last());
    }
}

/// The view of a table-field key.
pub open spec fn key_view(k: TypeFieldKey) -> KeyV
    decreases k,
{
    match k {
        TypeFieldKey::Name(name) => KeyV::Name(name@),
        TypeFieldKey::IndexSignature(inner) => KeyV::IndexSignature(Box::new(type_view(*inner))),
        TypeFieldKey::Other => KeyV::Other,
    }
}

/// The view of a generic parameter.
pub open spec fn param_view(p: GenericParameter) -> ParamV {
    ParamV {
        name: p.name@,
        kind: p.kind,
        default: match p.default {
            Some(d) => Some(type_view(d)),
            None => None,
        },
    }
}

/// The views of a sequence of generic parameters, in order.
pub open spec fn param_views(s: Seq<GenericParameter>) -> Seq<ParamV> {
    Seq::new(s.len(), |i: int| param_view(s[i]))
}

/// The view of a type declaration.
pub open spec fn decl_view(d: TypeDeclaration) -> DeclV {
    DeclV {
        name: d.name@,
        generics: match d.generics {
            Some(ps) => Some(param_views(ps@)),
            None => None,
        },
        definition: type_view(d.definition),
        exported: d.exported,
    }
}

/// The views of a sequence of type declarations, in order.
pub open spec fn decl_views(s: Seq<TypeDeclaration>) -> Seq<DeclV> {
    Seq::new(s.len(), |i: int| decl_view(s[i]))
}

/// The view of a synthesized program.
pub open spec fn program_view(p: SynthesizedProgram) -> ProgramV {
    ProgramV {
        require_binding: p.require_binding@,
        require_path: p.require_path@,
        re_exports: decl_views(p.re_exports@),
    }
}

/// The views of the diagnostics handed over by the parser.
pub open spec fn string_views(s: Seq<String>) -> Seq<Seq<char>> {
    Seq::new(s.len(), |i: int| s[i]@)
}

} // verus!
