//! Builds a re-export shim for a module of a Lua-family language with a
//! static type syntax: every exported type alias of the module is re-declared
//! so that it resolves through a `require` of the module at a given path.

pub mod ast;
pub mod classify;
pub mod collect;
pub mod driver;
pub mod laws;
pub mod rebuild;
pub mod shim;
pub mod text;
pub mod view;
