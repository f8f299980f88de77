//! Embedding core of a sandboxed script runtime: the rules by which numbered
//! operations issued by script code reach native handlers and by which their
//! results, immediate or deferred, travel back.
//!
//! The script engine itself is a collaborator. Every value it owns appears here
//! as a [`value::Handle`] or as plain data read from it, so each decision the
//! core takes is a function from plain values to plain values.

pub mod buffer;
pub mod context;
pub mod error;
pub mod eval;
pub mod inspect;
pub mod modules;
pub mod ops;
pub mod rejections;
pub mod runtime;
pub mod scheduler;
pub mod shared;
pub mod text;
pub mod value;
