//! Typed errors raised by the object engine.

use vstd::prelude::*;

verus! {

/// Errors surfaced by the engine.
///
/// Verification-class errors (a redefined export, a slot index that was never
/// allocated) indicate that the loaded program or the engine state violates a
/// structural invariant; they are fatal to the operation that raised them.
/// Script-level conditions (a missing property) are *not* errors: they yield
/// `Value::Undefined` instead.
#[derive(Clone, Debug, PartialEq, Eq, Structural)]
pub enum EngineError {
    /// A slot index referenced storage that was never allocated.
    SlotOutOfBounds { id: u32 },
    /// An assignment targeted a constant property while strict semantics
    /// were in force.
    WriteToConst,
    /// A getter or setter was installed from a non-executable value.
    NotExecutable,
    /// An accessor half was merged into a property entry that is not
    /// virtual.
    NotVirtual,
    /// A name was exported twice into the same domain (or an ancestor).
    Redefinition,
    /// A looked-up definition does not exist in the domain chain.
    MissingDefinition,
    /// Resolving a nested class's superclass through the scope chain failed.
    UnresolvedSuperclass,
    /// Class installation recursed deeper than the engine permits.
    DepthExceeded,
    /// A value that is not a function object was called.
    NotCallable,
    /// A bound builtin was invoked without a receiver.
    NoThis,
    /// A builtin required an argument that was not supplied.
    NoArgument,
    /// A coercion needed the host (floating-point formatting, or a method
    /// call on an object) and cannot be finished inside the engine.
    HostCoercionRequired,
    /// An object index did not name a live heap entry.
    BadObjectRef,
    /// An argument held a value outside the set the member accepts.
    InvalidArgument,
}

impl EngineError {
    /// A short human-readable description of the error.
    pub fn message(&self) -> String {
        match self {
            EngineError::SlotOutOfBounds { .. } => String::from_str("slot index out of bounds"),
            EngineError::WriteToConst => String::from_str("illegal write to a constant property"),
            EngineError::NotExecutable => {
                String::from_str("attempted to install an accessor without a valid method")
            },
            EngineError::NotVirtual => {
                String::from_str("attempted to install an accessor on a non-virtual property")
            },
            EngineError::Redefinition => {
                String::from_str("attempted to redefine an existing exported name")
            },
            EngineError::MissingDefinition => String::from_str("definition does not exist"),
            EngineError::UnresolvedSuperclass => String::from_str("could not resolve superclass"),
            EngineError::DepthExceeded => String::from_str("class nesting too deep"),
            EngineError::NotCallable => String::from_str("object is not callable"),
            EngineError::NoThis => String::from_str("no valid this parameter"),
            EngineError::NoArgument => String::from_str("no argument specified"),
            EngineError::HostCoercionRequired => {
                String::from_str("coercion requires the host interpreter")
            },
            EngineError::BadObjectRef => String::from_str("dangling object reference"),
            EngineError::InvalidArgument => String::from_str("argument is invalid"),
        }
    }
}

} // verus!
