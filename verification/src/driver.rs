//! The driver decisions: how parser diagnostics are aggregated into one
//! terminal error message, how a formatter failure is reported, and the
//! parse-to-shim step as one function over the parse outcome. The parser
//! and formatter themselves are outside collaborators; whoever runs them
//! hands their outcomes to these functions as plain values.

use vstd::prelude::*;

use crate::ast::{Block, SynthesizedProgram};
use crate::shim::{build_shim, shim_of};
use crate::text::{join, join_view, push_str};
use crate::view::{program_view, string_views};

verus! {

/// The message reported for a failed parse: a fixed message when the
/// parser gave no diagnostic, a single diagnostic inlined, or several as
/// a bulleted list.
pub open spec fn parse_failure_view(diags: Seq<Seq<char>>) -> Seq<char> {
    if diags.len() == 0 {
        "failed to parse code"@
    } else if diags.len() == 1 {
        "unable to parse code: "@ + diags[0]
    } else {
        "unable to parse code:\n- "@ + join_view(diags, "\n- "@)
    }
}

/// The message reported when the formatter rejects the synthesized tree.
pub open spec fn format_failure_view(error: Seq<char>) -> Seq<char> {
    "unable to format code: "@ + error
}

/// Aggregates the parser's diagnostics into the terminal error message.
pub fn parse_failure_message(diagnostics: &Vec<String>) -> (r: String)
    ensures
        r@ == parse_failure_view(string_views(diagnostics@)),
{
    if diagnostics.len() == 0 {
        "failed to parse code".to_owned()
    } else if diagnostics.len() == 1 {
        let mut r = "unable to parse code: ".to_owned();
        push_str(&mut r, diagnostics[0].as_str());
        r
    } else {
        let mut r = "unable to parse code:\n- ".to_owned();
        let joined = join(diagnostics, "\n- ");
        push_str(&mut r, joined.as_str());
        r
    }
}

/// Wraps the formatter's error into the terminal error message.
pub fn format_failure_message(error: &str) -> (r: String)
    ensures
        r@ == format_failure_view(error@),
{
    let mut r = "unable to format code: ".to_owned();
    push_str(&mut r, error);
    r
}

/// The step from the parse outcome to the synthesized shim: a parsed
/// module always yields its shim, and any parse diagnostics abort the
/// call with the aggregated message and no partial output.
pub fn plan_shim(parsed: Result<Block, Vec<String>>, require_path: String) -> (r: Result<
    SynthesizedProgram,
    String,
>)
    ensures
        parsed matches Ok(module) ==> r matches Ok(p) && program_view(p) == shim_of(
            module,
            require_path@,
        ),
        parsed matches Err(diags) ==> r matches Err(m) && m@ == parse_failure_view(
            string_views(diags@),
        ),
{
    match parsed {
        Ok(module) => Ok(build_shim(module, require_path)),
        Err(diags) => Err(parse_failure_message(&diags)),
    }
}

} // verus!
