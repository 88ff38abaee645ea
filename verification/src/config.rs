//! Engine configuration.

use vstd::prelude::*;

verus! {

/// The default soft limit on the Wasm call stack, in bytes.
pub const DEFAULT_MAX_WASM_STACK: u64 = 1048576;

/// The stack cost charged per Wasm frame when enforcing the soft limit.
pub const WASM_FRAME_COST: u64 = 16384;

/// The default per-store quota on instances, memories and tables.
pub const DEFAULT_RESOURCE_QUOTA: usize = 10000;

/// Global configuration of an engine.
#[derive(Debug, Clone, Copy)]
pub struct Config {
    /// Emit debug information and register loaded images with the debugger.
    pub debug_info: bool,
    /// Compile interrupt checks at loop back-edges and function entries.
    pub interruptable: bool,
    /// Compile fuel checks; execution then traps or yields when fuel runs
    /// out.
    pub consume_fuel: bool,
    /// Per-store quota on live instances.
    pub max_instances: usize,
    /// Per-store quota on live linear memories.
    pub max_memories: usize,
    /// Per-store quota on live tables.
    pub max_tables: usize,
    /// Soft limit on the Wasm call stack, in bytes, enforced at function
    /// entry.
    pub max_wasm_stack: u64,
}

impl Config {
    /// Creates the default configuration: no debug info, no interrupts, no
    /// fuel metering, and the default quotas.
    pub fn new() -> (r: Config)
        ensures
            !r.debug_info,
            !r.interruptable,
            !r.consume_fuel,
            r.max_instances == DEFAULT_RESOURCE_QUOTA,
            r.max_memories == DEFAULT_RESOURCE_QUOTA,
            r.max_tables == DEFAULT_RESOURCE_QUOTA,
            r.max_wasm_stack == DEFAULT_MAX_WASM_STACK,
    {
        Config {
            debug_info: false,
            interruptable: false,
            consume_fuel: false,
            max_instances: DEFAULT_RESOURCE_QUOTA,
            max_memories: DEFAULT_RESOURCE_QUOTA,
            max_tables: DEFAULT_RESOURCE_QUOTA,
            max_wasm_stack: DEFAULT_MAX_WASM_STACK,
        }
    }

    /// Enables or disables interrupt checks.
    pub fn interruptable(&mut self, enable: bool)
        ensures
            *final(self) == (Config { interruptable: enable, ..*old(self) }),
    {
        self.interruptable = enable;
    }

    /// Enables or disables fuel metering.
    pub fn consume_fuel(&mut self, enable: bool)
        ensures
            *final(self) == (Config { consume_fuel: enable, ..*old(self) }),
    {
        self.consume_fuel = enable;
    }

    /// Sets the soft limit on the Wasm call stack, in bytes.
    pub fn max_wasm_stack(&mut self, bytes: u64)
        ensures
            *final(self) == (Config { max_wasm_stack: bytes, ..*old(self) }),
    {
        self.max_wasm_stack = bytes;
    }

    /// Sets the per-store instance quota.
    pub fn max_instances(&mut self, n: usize)
        ensures
            *final(self) == (Config { max_instances: n, ..*old(self) }),
    {
        self.max_instances = n;
    }
}

/// An engine: immutable compilation configuration shared by stores.
#[derive(Debug, Clone, Copy)]
pub struct Engine {
    /// The engine's configuration.
    pub config: Config,
}

impl Engine {
    /// Creates an engine from a configuration.
    pub fn new(config: Config) -> (r: Engine)
        ensures
            r.config == config,
    {
        Engine { config }
    }

    /// Returns the engine's configuration.
    pub fn config(&self) -> (r: &Config)
        ensures
            r == &self.config,
    {
        &self.config
    }
}

} // verus!
