//! The type-expression classifier: decides whether a type expression can be
//! guaranteed to stay resolvable once it is referenced from outside the
//! module that declares it.

use vstd::prelude::*;

use crate::ast::{TypeExpression, TypeField, TypeFieldKey};
use crate::text::str_eq;
use crate::view::{
    field_view, field_views, lemma_field_views, lemma_type_views, type_view, type_views, FieldV,
    KeyV, TypeExprV,
};

verus! {

/// The primitive type names that resolve everywhere.
pub open spec fn is_primitive_name(name: Seq<char>) -> bool {
    ||| name == "string"@
    ||| name == "boolean"@
    ||| name == "nil"@
    ||| name == "number"@
    ||| name == "userdata"@
    ||| name == "buffer"@
    ||| name == "thread"@
    ||| name == "never"@
    ||| name == "any"@
    ||| name == "unknown"@
}

/// Whether `e`, or anything reachable from it, cannot be guaranteed
/// resolvable after relocation outside the declaring module.
pub open spec fn is_foreign(e: TypeExprV) -> bool
    decreases e,
{
    match e {
        TypeExprV::Basic(name) => !is_primitive_name(name),
        TypeExprV::StringLiteral(_) => false,
        TypeExprV::BooleanLiteral(_) => false,
        TypeExprV::Array(element) => is_foreign(*element),
        TypeExprV::Optional(base) => is_foreign(*base),
        TypeExprV::Variadic(inner) => is_foreign(*inner),
        TypeExprV::Callback(arguments, ret) => is_foreign(*ret) || any_foreign(arguments),
        TypeExprV::Union(members) => any_foreign(members),
        TypeExprV::Intersection(members) => any_foreign(members),
        TypeExprV::Tuple(members) => any_foreign(members),
        TypeExprV::Table(fields) => any_field_foreign(fields),
        TypeExprV::Generic(_, _) => true,
        TypeExprV::GenericPack(_) => true,
        TypeExprV::Typeof => true,
        TypeExprV::ModuleQualified(_, _) => true,
        TypeExprV::VariadicPack(_) => true,
        TypeExprV::Other => true,
    }
}

/// Whether some member of a sequence of type expressions is foreign.
pub open spec fn any_foreign(s: Seq<TypeExprV>) -> bool
    decreases s,
{
    exists|i: int| 0 <= i < s.len() && is_foreign(#[trigger] s[i])
}

/// Whether some table field disqualifies its table: a foreign field value,
/// a foreign index-signature key, or a key of an unmodeled shape.
pub open spec fn any_field_foreign(s: Seq<FieldV>) -> bool
    decreases s,
{
    exists|i: int| 0 <= i < s.len() && field_is_foreign(#[trigger] s[i])
}

/// Whether one table field disqualifies its table.
pub open spec fn field_is_foreign(f: FieldV) -> bool
    decreases f,
{
    is_foreign(f.value) || match f.key {
        KeyV::Name(_) => false,
        KeyV::IndexSignature(inner) => is_foreign(*inner),
        KeyV::Other => true,
    }
}

/// The structural size of a type expression: one for the node itself plus
/// the sizes of everything reachable from it. It bounds the work of the
/// classifier's worklist traversal.
pub open spec fn type_size(e: TypeExprV) -> nat
    decreases e,
{
    match e {
        TypeExprV::Basic(_) => 1,
        TypeExprV::StringLiteral(_) => 1,
        TypeExprV::BooleanLiteral(_) => 1,
        TypeExprV::Array(element) => 1 + type_size(*element),
        TypeExprV::Optional(base) => 1 + type_size(*base),
        TypeExprV::Variadic(inner) => 1 + type_size(*inner),
        TypeExprV::Callback(arguments, ret) => 1 + type_size(*ret) + seq_size(arguments),
        TypeExprV::Union(members) => 1 + seq_size(members),
        TypeExprV::Intersection(members) => 1 + seq_size(members),
        TypeExprV::Tuple(members) => 1 + seq_size(members),
        TypeExprV::Table(fields) => 1 + fields_size(fields),
        TypeExprV::Generic(_, _) => 1,
        TypeExprV::GenericPack(_) => 1,
        TypeExprV::Typeof => 1,
        TypeExprV::ModuleQualified(_, _) => 1,
        TypeExprV::VariadicPack(_) => 1,
        TypeExprV::Other => 1,
    }
}

/// The total size of a sequence of type expressions.
pub open spec fn seq_size(s: Seq<TypeExprV>) -> nat
    decreases s,
{
    if s.len() == 0 {
        0
    } else {
        seq_size(s.drop_last()) + type_size(s.last())
    }
}

/// The total size of a sequence of table fields; a field counts its value
/// and, for an index signature, its key type.
pub open spec fn fields_size(s: Seq<FieldV>) -> nat
    decreases s,
{
    if s.len() == 0 {
        0
    } else {
        fields_size(s.drop_last()) + field_size(s.last())
    }
}

/// The size of one table field.
pub open spec fn field_size(f: FieldV) -> nat
    decreases f,
{
    type_size(f.value) + match f.key {
        KeyV::Name(_) => 0,
        KeyV::IndexSignature(inner) => type_size(*inner),
        KeyV::Other => 0,
    }
}

/// The views of a stack of borrowed type expressions.
pub open spec fn stack_views(s: Seq<&TypeExpression>) -> Seq<TypeExprV> {
    Seq::new(s.len(), |i: int| type_view(*s[i]))
}

/// Pushing onto the worklist adds the pushed expression's size and its
/// foreignness to those of the rest.
proof fn lemma_stack_push(s: Seq<TypeExprV>, x: TypeExprV)
    ensures
        seq_size(s.push(x)) == seq_size(s) + type_size(x),
        any_foreign(s.push(x)) <==> (any_foreign(s) || is_foreign(x)),
{
    assert(s.push(x).drop_last() =~= s);
    assert(s.push(x).last() == x);
    assert(any_foreign(s.push(x)) <==> (any_foreign(s) || is_foreign(x))) by {
        if any_foreign(s.push(x)) {
            let i = choose|i: int| 0 <= i < s.push(x).len() && is_foreign(#[trigger] s.push(x)[i]);
            if i < s.len() {
                assert(s[i] == s.push(x)[i]);
                assert(any_foreign(s));
            } else {
                assert(is_foreign(x));
            }
        }
        if any_foreign(s) {
            let i = choose|i: int| 0 <= i < s.len() && is_foreign(#[trigger] s[i]);
            assert(s.push(x)[i] == s[i]);
            assert(any_foreign(s.push(x)));
        }
        if is_foreign(x) {
            assert(s.push(x)[s.len() as int] == x);
            assert(any_foreign(s.push(x)));
        }
    }
}

/// Tests a type name against the primitive allow-list.
fn is_primitive(name: &str) -> (r: bool)
    ensures
        r == is_primitive_name(name@),
{
    str_eq(name, "string") || str_eq(name, "boolean") || str_eq(name, "nil")
        || str_eq(name, "number") || str_eq(name, "userdata") || str_eq(name, "buffer")
        || str_eq(name, "thread") || str_eq(name, "never") || str_eq(name, "any")
        || str_eq(name, "unknown")
}

/// Pushes every member of `members`, left to right, onto the worklist.
fn push_all<'a>(stack: &mut Vec<&'a TypeExpression>, members: &'a Vec<TypeExpression>)
    ensures
        stack_views(final(stack)@) =~= stack_views(old(stack)@) + type_views(members@),
{
    let ghost base = stack_views(stack@);
    let ghost wanted = type_views(members@);
    proof {
        lemma_type_views(members@);
    }
    let mut j: usize = 0;
    while j < members.len()
        invariant
            j <= members@.len(),
            wanted == type_views(members@),
            wanted.len() == members@.len(),
            forall|i: int| 0 <= i < members@.len() ==> wanted[i] == type_view(members@[i]),
            stack_views(stack@) =~= base + wanted.take(j as int),
        decreases members@.len() - j,
    {
        stack.push(&members[j]);
        proof {
            assert(stack_views(stack@) =~= (base + wanted.take(j as int)).push(
                type_view(members@[j as int]),
            ));
            assert((base + wanted.take(j as int)).push(type_view(members@[j as int])) =~= base
                + wanted.take(j as int + 1));
        }
        j = j + 1;
    }
    proof {
        assert(wanted.take(members@.len() as int) =~= wanted);
    }
}

/// The classifier: returns `true` exactly when the expression, or anything
/// reachable from it, cannot be guaranteed resolvable once relocated
/// outside its declaring module. An explicit worklist bounds the stack
/// depth on adversarially nested input.
pub fn has_private_type(type_info: &TypeExpression) -> (r: bool)
    ensures
        r == is_foreign(type_view(*type_info)),
{
    let mut check_types: Vec<&TypeExpression> = Vec::new();
    check_types.push(type_info);
    proof {
        assert(stack_views(check_types@) =~= Seq::empty().push(type_view(*type_info)));
        lemma_stack_push(Seq::empty(), type_view(*type_info));
    }
    loop
        invariant
            is_foreign(type_view(*type_info)) <==> any_foreign(stack_views(check_types@)),
        decreases seq_size(stack_views(check_types@)),
    {
        let ghost pre = stack_views(check_types@);
        let current = match check_types.pop() {
            Some(current) => current,
            None => {
                return false;
            },
        };
        proof {
            assert(pre =~= stack_views(check_types@).push(type_view(*current)));
            lemma_stack_push(stack_views(check_types@), type_view(*current));
        }
        let ghost popped = stack_views(check_types@);
        match current {
            TypeExpression::Basic(name) => {
                if !is_primitive(name.as_str()) {
                    return true;
                }
            },
            TypeExpression::StringLiteral(_) => {},
            TypeExpression::BooleanLiteral(_) => {},
            TypeExpression::Array(element) => {
                check_types.push(&**element);
                proof {
                    assert(stack_views(check_types@) =~= popped.push(type_view(**element)));
                    lemma_stack_push(popped, type_view(**element));
                }
            },
            TypeExpression::Optional(base) => {
                check_types.push(&**base);
                proof {
                    assert(stack_views(check_types@) =~= popped.push(type_view(**base)));
                    lemma_stack_push(popped, type_view(**base));
                }
            },
            TypeExpression::Variadic(inner) => {
                check_types.push(&**inner);
                proof {
                    assert(stack_views(check_types@) =~= popped.push(type_view(**inner)));
                    lemma_stack_push(popped, type_view(**inner));
                }
            },
            TypeExpression::Callback(arguments, ret) => {
                check_types.push(&**ret);
                proof {
                    assert(stack_views(check_types@) =~= popped.push(type_view(**ret)));
                    lemma_stack_push(popped, type_view(**ret));
                }
                let ghost mid = stack_views(check_types@);
                push_all(&mut check_types, arguments);
                proof {
                    lemma_stack_append(mid, type_views(arguments@));
                }
            },
            TypeExpression::Union(members) => {
                push_all(&mut check_types, members);
                proof {
                    lemma_stack_append(popped, type_views(members@));
                }
            },
            TypeExpression::Intersection(members) => {
                push_all(&mut check_types, members);
                proof {
                    lemma_stack_append(popped, type_views(members@));
                }
            },
            TypeExpression::Tuple(members) => {
                push_all(&mut check_types, members);
                proof {
                    lemma_stack_append(popped, type_views(members@));
                }
            },
            TypeExpression::Table(fields) => {
                let foreign_key = push_table_fields(&mut check_types, fields);
                if foreign_key {
                    return true;
                }
            },
            TypeExpression::Generic(_, _) => {
                return true;
            },
            TypeExpression::GenericPack(_) => {
                return true;
            },
            TypeExpression::Typeof => {
                return true;
            },
            TypeExpression::ModuleQualified(_, _) => {
                return true;
            },
            TypeExpression::VariadicPack(_) => {
                return true;
            },
            TypeExpression::Other => {
                return true;
            },
        }
    }
}

/// Appending a sequence to the worklist adds its total size, and the whole
/// is foreign exactly when one of the parts is.
proof fn lemma_stack_append(s: Seq<TypeExprV>, t: Seq<TypeExprV>)
    ensures
        seq_size(s + t) == seq_size(s) + seq_size(t),
        any_foreign(s + t) <==> (any_foreign(s) || any_foreign(t)),
    decreases t.len(),
{
    if t.len() == 0 {
        assert(s + t =~= s);
        assert(!any_foreign(t));
    } else {
        lemma_stack_append(s, t.drop_last());
        lemma_stack_push(s + t.drop_last(), t.last());
        assert(s + t =~= (s + t.drop_last()).push(t.last()));
        lemma_any_foreign_unsnoc(t);
    }
}

/// A sequence has a foreign member exactly when its last member is foreign
/// or an earlier one is.
proof fn lemma_any_foreign_unsnoc(t: Seq<TypeExprV>)
    requires
        t.len() > 0,
    ensures
        any_foreign(t) <==> (any_foreign(t.drop_last()) || is_foreign(t.last())),
{
    assert(t.drop_last().push(t.last()) =~= t);
    lemma_stack_push(t.drop_last(), t.last());
}

/// Pushes, for every field of a table, its value type and, for an index
/// signature, its key type. Returns `true` when a key of an unmodeled
/// shape is found; the table is then foreign outright.
fn push_table_fields<'a>(stack: &mut Vec<&'a TypeExpression>, fields: &'a Vec<TypeField>) -> (r:
    bool)
    ensures
        r ==> any_field_foreign(field_views(fields@)),
        !r ==> {
            &&& seq_size(stack_views(final(stack)@)) + 1 <= seq_size(
                stack_views(old(stack)@),
            ) + type_size(TypeExprV::Table(field_views(fields@)))
            &&& (any_foreign(stack_views(final(stack)@)) <==> (any_foreign(stack_views(old(stack)@))
                || any_field_foreign(field_views(fields@))))
        },
{
    let ghost base = stack_views(stack@);
    let ghost fvs = field_views(fields@);
    proof {
        lemma_field_views(fields@);
    }
    let mut j: usize = 0;
    while j < fields.len()
        invariant
            j <= fields@.len(),
            fvs == field_views(fields@),
            fvs.len() == fields@.len(),
            forall|i: int| 0 <= i < fields@.len() ==> fvs[i] == field_view(fields@[i]),
            base == stack_views(old(stack)@),
            seq_size(stack_views(stack@)) <= seq_size(base) + fields_size(fvs.take(j as int)),
            any_foreign(stack_views(stack@)) <==> (any_foreign(base) || any_field_foreign(
                fvs.take(j as int),
            )),
        decreases fields@.len() - j,
    {
        let ghost before = stack_views(stack@);
        let field = &fields[j];
        stack.push(&field.value);
        proof {
            assert(stack_views(stack@) =~= before.push(type_view(field.value)));
            lemma_stack_push(before, type_view(field.value));
        }
        let ghost mid = stack_views(stack@);
        match &field.key {
            TypeFieldKey::Name(_) => {},
            TypeFieldKey::IndexSignature(inner) => {
                stack.push(&**inner);
                proof {
                    assert(stack_views(stack@) =~= mid.push(type_view(**inner)));
                    lemma_stack_push(mid, type_view(**inner));
                }
            },
            TypeFieldKey::Other => {
                proof {
                    assert(fvs[j as int] == field_view(fields@[j as int]));
                    assert(field_is_foreign(fvs[j as int]));
                    assert(any_field_foreign(fvs));
                }
                return true;
            },
        }
        proof {
            assert(fvs.take(j as int + 1).drop_last() =~= fvs.take(j as int));
            assert(fvs.take(j as int + 1).last() == fvs[j as int]);
            lemma_any_field_foreign_take_snoc(fvs, j as int);
        }
        j = j + 1;
    }
    proof {
        assert(fvs.take(fields@.len() as int) =~= fvs);
    }
    false
}

/// Extending a prefix of fields by one more field adds exactly that
/// field's possible disqualification.
proof fn lemma_any_field_foreign_take_snoc(s: Seq<FieldV>, j: int)
    requires
        0 <= j < s.len(),
    ensures
        any_field_foreign(s.take(j + 1)) <==> (any_field_foreign(s.take(j)) || field_is_foreign(
            s[j],
        )),
        fields_size(s.take(j + 1)) == fields_size(s.take(j)) + field_size(s[j]),
{
    assert(s.take(j + 1).drop_last() =~= s.take(j));
    assert(s.take(j + 1).last() == s[j]);
    if any_field_foreign(s.take(j + 1)) {
        let i = choose|i: int|
            0 <= i < s.take(j + 1).len() && field_is_foreign(#[trigger] s.take(j + 1)[i]);
        if i < j {
            assert(s.take(j)[i] == s.take(j + 1)[i]);
            assert(any_field_foreign(s.take(j)));
        }
    }
    if any_field_foreign(s.take(j)) {
        let i = choose|i: int| 0 <= i < s.take(j).len() && field_is_foreign(#[trigger] s.take(j)[i]);
        assert(s.take(j + 1)[i] == s.take(j)[i]);
        assert(any_field_foreign(s.take(j + 1)));
    }
    if field_is_foreign(s[j]) {
        assert(s.take(j + 1)[j] == s[j]);
        assert(any_field_foreign(s.take(j + 1)));
    }
}

} // verus!
