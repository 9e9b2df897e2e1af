//! The export collector: finds every exported type declaration in every
//! lexical block, in source order and with nesting erased, and rewrites
//! each into a re-export through the require binding.

use vstd::prelude::*;

use crate::ast::{Block, GenericParameter, GenericParameterKind, Statement, TypeDeclaration,
    TypeExpression};
use crate::rebuild::{rebuild, rebuilt_params};
use crate::view::{decl_view, decl_views, param_views, type_view, type_views, DeclV, ParamV,
    TypeExprV};

verus! {

/// The views of the exported declarations of a block, in the order of a
/// depth-first, left-to-right traversal of its statements.
pub open spec fn exports_of_block(b: Block) -> Seq<DeclV>
    decreases b,
{
    exports_of_stmts(b.stmts@)
}

/// The exported declarations contributed by a statement sequence.
pub open spec fn exports_of_stmts(s: Seq<Statement>) -> Seq<DeclV>
    decreases s,
{
    if s.len() == 0 {
        Seq::empty()
    } else {
        exports_of_stmt(s[0]) + exports_of_stmts(s.drop_first())
    }
}

/// The exported declarations contributed by one statement: an exported
/// declaration contributes itself, a nested block contributes its own
/// exports, and everything else contributes nothing.
pub open spec fn exports_of_stmt(st: Statement) -> Seq<DeclV>
    decreases st,
{
    match st {
        Statement::TypeDecl(d) => if d.exported {
            seq![decl_view(d)]
        } else {
            Seq::empty()
        },
        Statement::Nested(b) => exports_of_block(b),
        Statement::Other => Seq::empty(),
    }
}

/// The generic-argument list of the re-export reference: every parameter
/// is passed positionally, a simple one as a bare name and a pack as a
/// generic-pack reference.
pub open spec fn param_ref(p: ParamV) -> TypeExprV {
    match p.kind {
        GenericParameterKind::Simple => TypeExprV::Basic(p.name),
        GenericParameterKind::Pack => TypeExprV::GenericPack(p.name),
    }
}

/// The reference arguments for a whole parameter list, in order.
pub open spec fn param_refs(ps: Seq<ParamV>) -> Seq<TypeExprV> {
    Seq::new(ps.len(), |i: int| param_ref(ps[i]))
}

/// The new definition of a re-exported declaration: a module-qualified
/// reference to the declaration's own name, applied to the reference
/// arguments when the declaration is generic.
pub open spec fn rewritten_definition(binding: Seq<char>, d: DeclV) -> TypeExprV {
    match d.generics {
        None => TypeExprV::ModuleQualified(binding, Box::new(TypeExprV::Basic(d.name))),
        Some(ps) => TypeExprV::ModuleQualified(
            binding,
            Box::new(TypeExprV::Generic(d.name, param_refs(ps))),
        ),
    }
}

/// One rewritten declaration: same name and export marker, rebuilt
/// generics, and the module-qualified reference as its definition.
pub open spec fn rewritten_decl(binding: Seq<char>, d: DeclV) -> DeclV {
    DeclV {
        name: d.name,
        generics: match d.generics {
            None => None,
            Some(ps) => Some(rebuilt_params(ps)),
        },
        definition: rewritten_definition(binding, d),
        exported: d.exported,
    }
}

/// A sequence of declarations, each rewritten.
pub open spec fn rewrite_all(ds: Seq<DeclV>, binding: Seq<char>) -> Seq<DeclV> {
    ds.map_values(|d: DeclV| rewritten_decl(binding, d))
}

/// The collector's whole output for a module block.
pub open spec fn collected_reexports(b: Block, binding: Seq<char>) -> Seq<DeclV> {
    rewrite_all(exports_of_block(b), binding)
}

/// The exports of a concatenation are the concatenated exports; this is
/// what erases nesting while preserving order.
pub proof fn lemma_exports_concat(s1: Seq<Statement>, s2: Seq<Statement>)
    ensures
        exports_of_stmts(s1 + s2) == exports_of_stmts(s1) + exports_of_stmts(s2),
    decreases s1.len(),
{
    if s1.len() == 0 {
        assert(s1 + s2 =~= s2);
        assert(exports_of_stmts(s1) + exports_of_stmts(s2) =~= exports_of_stmts(s2));
    } else {
        assert((s1 + s2)[0] == s1[0]);
        assert((s1 + s2).drop_first() =~= s1.drop_first() + s2);
        lemma_exports_concat(s1.drop_first(), s2);
        assert(exports_of_stmt(s1[0]) + (exports_of_stmts(s1.drop_first()) + exports_of_stmts(s2))
            =~= (exports_of_stmt(s1[0]) + exports_of_stmts(s1.drop_first())) + exports_of_stmts(
            s2,
        ));
    }
}

/// Taking one more statement appends exactly that statement's exports.
pub proof fn lemma_exports_take_snoc(s: Seq<Statement>, k: int)
    requires
        0 <= k < s.len(),
    ensures
        exports_of_stmts(s.take(k + 1)) == exports_of_stmts(s.take(k)) + exports_of_stmt(s[k]),
{
    assert(s.take(k + 1) =~= s.take(k) + seq![s[k]]);
    lemma_exports_concat(s.take(k), seq![s[k]]);
    assert(seq![s[k]][0] == s[k]);
    assert(seq![s[k]].drop_first() =~= Seq::<Statement>::empty());
    assert(exports_of_stmts(Seq::<Statement>::empty()) =~= Seq::<DeclV>::empty());
    assert(exports_of_stmt(s[k]) + Seq::<DeclV>::empty() =~= exports_of_stmt(s[k]));
    assert(exports_of_stmts(seq![s[k]]) =~= exports_of_stmt(s[k]));
}

/// Rewriting distributes over concatenation.
pub proof fn lemma_rewrite_all_concat(a: Seq<DeclV>, b: Seq<DeclV>, binding: Seq<char>)
    ensures
        rewrite_all(a + b, binding) == rewrite_all(a, binding) + rewrite_all(b, binding),
{
    assert(rewrite_all(a + b, binding) =~= rewrite_all(a, binding) + rewrite_all(b, binding));
}

/// Builds the reference arguments for a declaration's parameter list.
#[verifier::loop_isolation(false)]
fn reference_arguments(params: &Vec<GenericParameter>) -> (r: Vec<TypeExpression>)
    ensures
        type_views(r@) == param_refs(param_views(params@)),
{
    let mut out: Vec<TypeExpression> = Vec::new();
    let mut i: usize = 0;
    while i < params.len()
        invariant
            i <= params@.len(),
            type_views(out@) =~= param_refs(param_views(params@)).take(i as int),
        decreases params@.len() - i,
    {
        let p = &params[i];
        let arg = match p.kind {
            GenericParameterKind::Simple => TypeExpression::Basic(p.name.clone()),
            GenericParameterKind::Pack => TypeExpression::GenericPack(p.name.clone()),
        };
        proof {
            crate::view::lemma_type_views(out@);
            assert(type_view(arg) == param_ref(param_views(params@)[i as int]));
        }
        out.push(arg);
        proof {
            crate::view::lemma_type_views(out@);
            assert(type_views(out@) =~= param_refs(param_views(params@)).take(i as int + 1));
        }
        i = i + 1;
    }
    proof {
        assert(param_refs(param_views(params@)).take(params@.len() as int) =~= param_refs(
            param_views(params@),
        ));
    }
    out
}

/// Rewrites one exported declaration into its re-export form.
fn rewrite_declaration(d: TypeDeclaration, binding: &str) -> (r: TypeDeclaration)
    ensures
        decl_view(r) == rewritten_decl(binding@, decl_view(d)),
{
    let TypeDeclaration { name, generics, definition: _, exported } = d;
    match generics {
        None => {
            let r = TypeDeclaration {
                definition: TypeExpression::ModuleQualified(
                    binding.to_owned(),
                    Box::new(TypeExpression::Basic(name.clone())),
                ),
                name,
                generics: None,
                exported,
            };
            proof {
                reveal_with_fuel(type_view, 2);
                assert(decl_view(r) =~= rewritten_decl(binding@, decl_view(d)));
            }
            r
        },
        Some(params) => {
            let args = reference_arguments(&params);
            let new_params = rebuild(params);
            let r = TypeDeclaration {
                definition: TypeExpression::ModuleQualified(
                    binding.to_owned(),
                    Box::new(TypeExpression::Generic(name.clone(), args)),
                ),
                name,
                generics: Some(new_params),
                exported,
            };
            proof {
                reveal_with_fuel(type_view, 2);
                assert(decl_view(r) =~= rewritten_decl(binding@, decl_view(d)));
            }
            r
        },
    }
}

/// Collects and rewrites the exported declarations of a whole module.
pub fn collect(module: Block, binding: &str) -> (r: Vec<TypeDeclaration>)
    ensures
        decl_views(r@) == collected_reexports(module, binding@),
{
    let mut out: Vec<TypeDeclaration> = Vec::new();
    collect_into(module, binding, &mut out);
    proof {
        assert(decl_views(Seq::<TypeDeclaration>::empty()) =~= Seq::<DeclV>::empty());
        assert(Seq::<DeclV>::empty() + collected_reexports(module, binding@)
            =~= collected_reexports(module, binding@));
    }
    out
}

/// Appends the rewritten exports of one block, traversing nested blocks
/// depth first and left to right.
#[verifier::loop_isolation(false)]
fn collect_into(b: Block, binding: &str, out: &mut Vec<TypeDeclaration>)
    ensures
        decl_views(final(out)@) == decl_views(old(out)@) + rewrite_all(
            exports_of_block(b),
            binding@,
        ),
    decreases b,
{
    let ghost sorig = b.stmts@;
    let ghost out0 = out@;
    let Block { stmts } = b;
    let mut rest = stmts;
    let ghost mut k: int = 0;
    while rest.len() > 0
        invariant
            0 <= k,
            k + rest@.len() == sorig.len(),
            rest@ =~= sorig.subrange(k, sorig.len() as int),
            decl_views(out@) =~= decl_views(out0) + rewrite_all(
                exports_of_stmts(sorig.take(k)),
                binding@,
            ),
        decreases rest@.len(),
    {
        let st = rest.remove(0);
        proof {
            assert(st == sorig[k]);
            assert(rest@ =~= sorig.subrange(k + 1, sorig.len() as int));
        }
        let ghost before = out@;
        match st {
            Statement::TypeDecl(d) => {
                if d.exported {
                    let nd = rewrite_declaration(d, binding);
                    out.push(nd);
                    proof {
                        assert(decl_views(out@) =~= decl_views(before).push(decl_view(nd)));
                    }
                }
            },
            Statement::Nested(inner) => {
                proof {
                    assert(decreases_to!(b => b.stmts));
                    assert(decreases_to!(b.stmts => b.stmts@));
                    assert(decreases_to!(b.stmts@ => b.stmts@[k]));
                    assert(decreases_to!(st => inner));
                    assert(decreases_to!(b => inner));
                }
                collect_into(inner, binding, out);
            },
            Statement::Other => {},
        }
        proof {
            lemma_exports_take_snoc(sorig, k);
            lemma_rewrite_all_concat(
                exports_of_stmts(sorig.take(k)),
                exports_of_stmt(sorig[k]),
                binding@,
            );
            assert(decl_views(out@) =~= decl_views(out0) + rewrite_all(
                exports_of_stmts(sorig.take(k + 1)),
                binding@,
            ));
            k = k + 1;
        }
    }
    proof {
        assert(sorig.take(sorig.len() as int) =~= sorig);
    }
}

} // verus!
