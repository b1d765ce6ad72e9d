//! A verified object-model and property-resolution engine for a stack-based,
//! prototype/class-hybrid scripting runtime.
//!
//! The crate models the garbage-collected object graph as a typed arena: every
//! object, class, scope, domain and script is an index into a table held by
//! [`heap::Avm`], and references between heap entities are plain indices.
//! Prototype and parent links always point at earlier-allocated entries, which
//! both reflects how the chains are built and gives every chain walk a
//! termination measure.
//!
//! Method bodies are opaque handles: the engine decides *which* function must
//! run (a getter, a setter, a bound method) and hands that decision back to the
//! host interpreter, which owns execution.

pub mod class;
pub mod display;
pub mod domain;
pub mod drawing;
pub mod engine;
pub mod error;
pub mod event;
pub mod globals;
pub mod heap;
pub mod laws;
pub mod names;
pub mod property;
pub mod regexp;
pub mod resolve;
pub mod storage;
pub mod swf_types;
pub mod traits;
pub mod value;
pub mod variants;
