//! The laws the library states about itself, proved from the same spec
//! functions that the executable functions' contracts use.

use vstd::prelude::*;

use crate::ast::{Block, Statement, TypeDeclaration};
use crate::classify::is_foreign;
use crate::collect::{
    collected_reexports, exports_of_block, exports_of_stmt, exports_of_stmts, param_refs,
    rewritten_decl,
};
use crate::driver::parse_failure_view;
use crate::rebuild::{rebuilt_param, rebuilt_params};
use crate::shim::shim_of;
use crate::view::{DeclV, ParamV, TypeExprV};

verus! {

/// Purity: the shim is a function of the parsed module and the require
/// path alone, so re-running on the same inputs yields identical output.
pub proof fn lemma_shim_deterministic(b1: Block, b2: Block, p1: Seq<char>, p2: Seq<char>)
    requires
        b1 == b2,
        p1 == p2,
    ensures
        shim_of(b1, p1) == shim_of(b2, p2),
{
}

/// Order preservation: the re-exports carry the exported declarations'
/// names in their lexical order, regardless of nesting, one re-export
/// per export found.
pub proof fn lemma_order_preserved(b: Block, binding: Seq<char>)
    ensures
        collected_reexports(b, binding).len() == exports_of_block(b).len(),
        forall|i: int|
            0 <= i < exports_of_block(b).len() ==> #[trigger] collected_reexports(b, binding)[i]
                == rewritten_decl(binding, exports_of_block(b)[i]),
        forall|i: int|
            0 <= i < exports_of_block(b).len() ==> #[trigger] collected_reexports(
                b,
                binding,
            )[i].name == exports_of_block(b)[i].name,
{
}

/// Flattening: a statement that carries a nested block contributes the
/// block's own exports, exactly as if they stood at the top level.
pub proof fn lemma_flattening(inner: Block)
    ensures
        exports_of_stmt(Statement::Nested(inner)) == exports_of_block(inner),
{
}

/// Splitting a statement list splits its exports; together with the
/// flattening lemma, nesting only interleaves, never reorders or drops.
pub proof fn lemma_exports_split(s1: Seq<Statement>, s2: Seq<Statement>)
    ensures
        exports_of_stmts(s1 + s2) == exports_of_stmts(s1) + exports_of_stmts(s2),
{
    crate::collect::lemma_exports_concat(s1, s2);
}

/// A declaration without the export marker contributes nothing.
pub proof fn lemma_non_exported_omitted(d: TypeDeclaration)
    requires
        !d.exported,
    ensures
        exports_of_stmt(Statement::TypeDecl(d)) == Seq::<DeclV>::empty(),
{
}

/// Everything the collector emits carries the export marker.
pub proof fn lemma_collected_all_exported(b: Block, binding: Seq<char>)
    ensures
        forall|i: int|
            0 <= i < collected_reexports(b, binding).len() ==> #[trigger] collected_reexports(
                b,
                binding,
            )[i].exported,
{
    lemma_exports_all_exported(b.stmts@);
}

/// Every export found in a statement list carries the export marker.
pub proof fn lemma_exports_all_exported(s: Seq<Statement>)
    ensures
        forall|i: int|
            0 <= i < exports_of_stmts(s).len() ==> #[trigger] exports_of_stmts(s)[i].exported,
    decreases s,
{
    if s.len() > 0 {
        lemma_exports_stmt_all_exported(s[0]);
        lemma_exports_all_exported(s.drop_first());
        assert forall|i: int| 0 <= i < exports_of_stmts(s).len() implies #[trigger] exports_of_stmts(
            s,
        )[i].exported by {
            let head = exports_of_stmt(s[0]);
            if i < head.len() {
                assert(exports_of_stmts(s)[i] == head[i]);
            } else {
                assert(exports_of_stmts(s)[i] == exports_of_stmts(s.drop_first())[i - head.len()]);
            }
        }
    }
}

/// Every export found in one statement carries the export marker.
pub proof fn lemma_exports_stmt_all_exported(st: Statement)
    ensures
        forall|i: int|
            0 <= i < exports_of_stmt(st).len() ==> #[trigger] exports_of_stmt(st)[i].exported,
    decreases st,
{
    match st {
        Statement::TypeDecl(_) => {},
        Statement::Nested(b) => {
            lemma_exports_all_exported(b.stmts@);
        },
        Statement::Other => {},
    }
}

/// A default the classifier accepts is preserved unchanged.
pub proof fn lemma_safe_default_kept(p: ParamV, d: TypeExprV)
    requires
        p.default == Some(d),
        !is_foreign(d),
    ensures
        rebuilt_param(p) == p,
{
}

/// A foreign default is dropped; the parameter itself always survives,
/// with its name and kind.
pub proof fn lemma_foreign_default_dropped(p: ParamV, d: TypeExprV)
    requires
        p.default == Some(d),
        is_foreign(d),
    ensures
        rebuilt_param(p).default is None,
        rebuilt_param(p).name == p.name,
        rebuilt_param(p).kind == p.kind,
{
}

/// Rebuilding keeps every parameter's name, kind and position; only
/// defaults can change. The reference site passes every parameter
/// positionally, simple ones as bare names and packs as pack references.
pub proof fn lemma_parameters_preserved(ps: Seq<ParamV>)
    ensures
        rebuilt_params(ps).len() == ps.len(),
        forall|i: int|
            0 <= i < ps.len() ==> #[trigger] rebuilt_params(ps)[i].name == ps[i].name
                && rebuilt_params(ps)[i].kind == ps[i].kind,
        param_refs(ps).len() == ps.len(),
{
}

/// A failed parse always carries a non-empty message.
pub proof fn lemma_parse_failure_nonempty(diags: Seq<Seq<char>>)
    ensures
        parse_failure_view(diags).len() > 0,
{
    reveal_strlit("failed to parse code");
    reveal_strlit("unable to parse code: ");
    reveal_strlit("unable to parse code:\n- ");
}

} // verus!
