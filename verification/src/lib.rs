//! In-process micro-services: the service descriptor, the grammar that reads
//! one from text, the code generator, and the decisions of the call-dispatch
//! runtime.

pub mod compiler;
pub mod decl;
pub mod descriptor;
pub mod generator;
pub mod no_send;
pub mod parser;
pub mod runtime;
pub mod text;
