//! The shim synthesizer: assembles the target program from a require
//! binding, the collected re-exports, and a final return of the binding.

use vstd::prelude::*;

use crate::ast::{Block, SynthesizedProgram, TypeDeclaration};
use crate::collect::{collect, collected_reexports};
use crate::view::{decl_views, program_view, DeclV, ProgramV};

verus! {

/// The fixed name of the local binding that requires the target module.
pub open spec fn binding_name() -> Seq<char> {
    "module"@
}

/// The synthesized program for a require path and a re-export sequence:
/// the require binding, the re-exports verbatim, and the final return.
pub open spec fn synthesized_program(path: Seq<char>, decls: Seq<DeclV>) -> ProgramV {
    ProgramV { require_binding: binding_name(), require_path: path, re_exports: decls }
}

/// The whole shim of a module block: its exports, collected and rewritten
/// through the require binding, assembled into the synthesized program.
pub open spec fn shim_of(b: Block, path: Seq<char>) -> ProgramV {
    synthesized_program(path, collected_reexports(b, binding_name()))
}

/// Assembles the synthesized program.
pub fn synthesize(require_path: String, re_exports: Vec<TypeDeclaration>) -> (p:
    SynthesizedProgram)
    ensures
        program_view(p) == synthesized_program(require_path@, decl_views(re_exports@)),
{
    SynthesizedProgram { require_binding: "module".to_owned(), require_path, re_exports }
}

/// Builds the whole shim for a parsed module: collect, rewrite, assemble.
/// This stage is a pure data transformation and cannot fail.
pub fn build_shim(module: Block, require_path: String) -> (p: SynthesizedProgram)
    ensures
        program_view(p) == shim_of(module, require_path@),
{
    let decls = collect(module, "module");
    synthesize(require_path, decls)
}

} // verus!
