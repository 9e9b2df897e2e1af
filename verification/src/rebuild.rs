//! The generic-parameter rebuilder: keeps each parameter's name, kind and
//! position, and drops a default value exactly when the classifier finds
//! it foreign.

use vstd::prelude::*;

use crate::ast::GenericParameter;
use crate::classify::{has_private_type, is_foreign};
use crate::view::{param_view, param_views, ParamV};

verus! {

/// One rebuilt parameter: the default is dropped when it is foreign and
/// kept unchanged otherwise; name and kind are always preserved.
pub open spec fn rebuilt_param(p: ParamV) -> ParamV {
    match p.default {
        Some(d) => if is_foreign(d) {
            ParamV { name: p.name, kind: p.kind, default: None }
        } else {
            p
        },
        None => p,
    }
}

/// The rebuilt parameter list, in the original order.
pub open spec fn rebuilt_params(ps: Seq<ParamV>) -> Seq<ParamV> {
    Seq::new(ps.len(), |i: int| rebuilt_param(ps[i]))
}

/// Rebuilds a generic parameter list for the re-export boundary.
#[verifier::loop_isolation(false)]
pub fn rebuild(params: Vec<GenericParameter>) -> (r: Vec<GenericParameter>)
    ensures
        param_views(r@) == rebuilt_params(param_views(params@)),
{
    let ghost orig = params@;
    let mut rest = params;
    let mut out: Vec<GenericParameter> = Vec::new();
    let ghost mut k: int = 0;
    while rest.len() > 0
        invariant
            0 <= k,
            k + rest@.len() == orig.len(),
            rest@ =~= orig.subrange(k, orig.len() as int),
            param_views(out@) =~= rebuilt_params(param_views(orig)).take(k),
        decreases rest@.len(),
    {
        let p = rest.remove(0);
        proof {
            assert(p == orig[k]);
            assert(rest@ =~= orig.subrange(k + 1, orig.len() as int));
        }
        let GenericParameter { name, kind, default } = p;
        let rebuilt = match default {
            Some(d) => {
                if has_private_type(&d) {
                    GenericParameter { name, kind, default: None }
                } else {
                    GenericParameter { name, kind, default: Some(d) }
                }
            },
            None => GenericParameter { name, kind, default: None },
        };
        proof {
            assert(param_view(rebuilt) == rebuilt_param(param_view(orig[k])));
        }
        out.push(rebuilt);
        proof {
            assert(param_views(out@) =~= rebuilt_params(param_views(orig)).take(k + 1));
            k = k + 1;
        }
    }
    proof {
        assert(rebuilt_params(param_views(orig)).take(orig.len() as int) =~= rebuilt_params(
            param_views(orig),
        ));
    }
    out
}

} // verus!
