//! A minimal intermediate-representation (IR) library with a textual C
//! emitter.
//!
//! A front-end builds functions out of typed values and instructions inside
//! basic blocks, collects the functions into a [`module::Module`], and hands
//! the module to [`cbackend::CBackend`], which renders it to C source text
//! together with a deduplicated list of required standard-library imports.
//!
//! The emitter is a pure function of the module: [`emitspec`] gives the
//! exact text (or error) for every module, and [`laws`] proves what holds
//! of it.

pub mod entities;
pub mod instruction;
pub mod instbuilder;
pub mod function;
pub mod module;
pub mod text;
pub mod emitspec;
pub mod cbackend;
pub mod laws;

pub use module::Module;
