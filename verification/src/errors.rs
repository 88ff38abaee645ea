//! The error taxonomy of the engine.

use vstd::prelude::*;

use crate::trap::Trap;

verus! {

/// An error from compiling a function body.
#[derive(Debug)]
pub enum CompileError {
    /// The Wasm translation failed.
    Wasm(String),
    /// The code generator failed.
    Codegen(String),
    /// An implementation limit was exceeded.
    ImplLimit,
}

/// An error while instantiating a module.
#[derive(Debug)]
pub enum InstantiationError {
    /// An import could not be resolved, its type did not match, or an
    /// initializer was out of bounds.  Fatal to instantiation.
    Link(String),
    /// The start function trapped.
    StartTrap(Trap),
    /// A runtime resource was unavailable or a quota was exceeded.
    Resource(String),
}

/// An error condition while setting up a wasm instance, be it validation,
/// compilation, or instantiation.
#[derive(Debug)]
pub enum SetupError {
    /// The module did not pass validation.
    Validate(String),
    /// A wasm compilation error occurred.
    Compile(CompileError),
    /// Some runtime resource was unavailable or insufficient, or the start
    /// function trapped.
    Instantiate(InstantiationError),
    /// Debug information generation failed.
    DebugInfo(String),
}

/// A general embedder-facing error carrying a message.
#[derive(Debug)]
pub struct EngineError {
    /// The error message.
    pub message: String,
}

impl EngineError {
    /// Creates an error with the given message.
    pub fn new(message: String) -> (r: EngineError)
        ensures
            r.message == message,
    {
        EngineError { message }
    }

    /// Returns the error message.
    pub fn message(&self) -> (r: String)
        ensures
            r == self.message,
    {
        self.message.clone()
    }
}

} // verus!
