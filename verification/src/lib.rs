//! Build-time synthesis of C wrapper functions for macro-only entry points.
//!
//! A C library may expose part of its API only as preprocessor macros, which
//! binding extractors cannot see. This crate turns a declarative table of
//! macro signatures into two C artifacts: a header that declares one real
//! function per macro, and a source file whose function bodies forward to the
//! macros. Each declaration and definition is guarded by push-macro /
//! undef / pop-macro directives so that the macro namespace is left exactly
//! as it was found.

pub mod table;
pub mod text;
pub mod emit;
pub mod filter;
pub mod duktape;




