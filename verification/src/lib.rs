//! Core execution engine of a WebAssembly runtime.
//!
//! The engine compiles a translated module into a relocatable code image,
//! places that image in executable code memory, publishes it, links call
//! sites, and instantiates the result inside a [`store::Store`].  Invoking an
//! exported function validates the argument vector, marshals it through a
//! per-signature trampoline, and turns any runtime fault into a structured
//! [`trap::Trap`] carrying a Wasm-level backtrace.
//!
//! Native code generation, the binary parser and the platform signal handler
//! are external collaborators; the engine works on their outputs, which enter
//! as plain data (function images, relocation and trap records, runtime
//! events).
//!
//! Some of the runtime's pointer-level machinery has no counterpart here:
//! host references and their reclamation (externrefs, the activations table,
//! stack maps and `gc`), store identity by reference, the fiber driver that
//! suspends async calls (only its out-of-gas decision is present), and the
//! artifact's unwind and address-map sections.  None of it is representable
//! as plain verified values without weakening what the rest states.

pub mod code_memory;
pub mod compiler;
pub mod config;
pub mod errors;
pub mod frame_info;
pub mod func;
pub mod instance;
pub mod instantiate;
pub mod link;
pub mod linker;
pub mod module;
pub mod sig_registry;
pub mod store;
pub mod trampoline;
pub mod trap;
pub mod types;
pub mod values;
