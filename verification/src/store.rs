//! The store: the unit of isolation.
//!
//! A store owns instances and the pools of memories, tables, globals and
//! host functions they reference, interns signatures, keeps the frame-info
//! index of every registered module's published code, and carries the
//! interrupt flag and fuel counter that compiled code polls.  All operations
//! execute on the thread that created the store; only the interrupt flag is
//! ever touched from outside, through an [`InterruptHandle`].

use vstd::prelude::*;

use crate::config::{Config, Engine, WASM_FRAME_COST};
use crate::errors::EngineError;
use crate::frame_info::{FunctionInfo, ModuleFrameInfo, StoreFrameInfo, TrapRecord};
use crate::instantiate::CompiledModule;
use crate::sig_registry::{spec_find_sig, SignatureRegistry};
use crate::trap::dec_str;
use crate::types::{FuncType, GlobalType, MemoryType, TableType};
use crate::values::Val;

verus! {

/// The per-store fields compiled code polls: the interrupt flag, set from
/// other threads through an [`InterruptHandle`], and the fuel counter, which
/// counts up toward zero.
#[derive(Debug, Clone, Copy)]
pub struct VMInterrupts {
    /// Whether an interrupt has been requested and not yet consumed.
    pub interrupted: bool,
    /// Fuel consumed so far, offset so that crossing zero means exhaustion.
    pub fuel_consumed: i64,
}

/// What happens when fuel runs out.
#[derive(Debug, Clone, Copy)]
pub enum OutOfGas {
    /// Raise a trap; the default.
    Trap,
    /// Yield to the caller and re-inject fuel, `injection_count` more times;
    /// only for async stores.
    InjectFuel {
        /// How many injections remain.
        injection_count: u32,
        /// How much fuel each injection adds.
        fuel_to_inject: u64,
    },
}

/// What the executor must do on an out-of-gas condition.
#[derive(Debug, Clone, Copy, PartialEq, Eq, Structural)]
pub enum OutOfGasAction {
    /// Raise the out-of-fuel trap.
    TrapNow,
    /// Suspend the fiber; on resumption the given fuel has been injected.
    Yield(u64),
}

/// A host function: its signature and what it does when called.
#[derive(Debug)]
pub struct HostFunc {
    /// The signature the function is callable under.
    pub ty: FuncType,
    /// The function's behavior.
    pub behavior: HostBehavior,
}

/// What a host function does when compiled code calls it.
#[derive(Debug)]
pub enum HostBehavior {
    /// Return the given values.
    Return(Vec<Val>),
    /// Return a trap with the given message.
    TrapMsg(String),
}

/// A reference to a callable function: either a host function or a defined
/// function of an instantiated module.
#[derive(Debug, Clone, Copy, PartialEq, Eq, Structural)]
pub enum FuncRef {
    /// A host function, by index in the store's pool.
    Host(usize),
    /// A defined function of an instance: the instance's index in the store
    /// and the function's module-level index.
    Wasm {
        /// The owning instance's index in the store.
        instance: usize,
        /// The function's index within the instance's module.
        index: u32,
    },
}

/// A linear memory owned by the store.
#[derive(Debug)]
pub struct MemoryInstance {
    /// The memory's type.
    pub ty: MemoryType,
    /// The memory's bytes.
    pub data: Vec<u8>,
}

/// A table owned by the store.
#[derive(Debug)]
pub struct TableInstance {
    /// The table's type.
    pub ty: TableType,
    /// The table's current element count.
    pub size: usize,
}

/// A global owned by the store.
#[derive(Debug)]
pub struct GlobalInstance {
    /// The global's type.
    pub ty: GlobalType,
    /// The global's current value.
    pub value: Val,
}

/// One live instance: which module it instantiates and which store-owned
/// entities its index spaces resolve to.
#[derive(Debug)]
pub struct InstanceData {
    /// The instantiated module, by index in the store's registered modules.
    pub module_id: usize,
    /// For every imported function index, what it calls.
    pub func_imports: Vec<FuncRef>,
    /// For every memory index, the backing memory in the store's pool.
    pub memory_ids: Vec<usize>,
    /// For every table index, the backing table in the store's pool.
    pub table_ids: Vec<usize>,
    /// For every global index, the backing global in the store's pool.
    pub global_ids: Vec<usize>,
}

/// A `Store` is a collection of WebAssembly instances and host-defined
/// items.  It is the unit of isolation: instances never share mutable state
/// across stores.
#[derive(Debug)]
pub struct Store {
    /// The engine the store was created in.
    pub engine: Engine,
    /// Whether calls in this store run on fibers and may suspend.
    pub is_async: bool,
    /// The fields compiled code polls.
    pub interrupts: VMInterrupts,
    /// The store's signature registry.
    pub signatures: SignatureRegistry,
    /// The frame-info index over registered modules' published code.
    pub frame_info: StoreFrameInfo,
    /// The modules whose code this store pins, in registration order.
    pub modules: Vec<CompiledModule>,
    /// The store's instances.
    pub instances: Vec<InstanceData>,
    /// The store's host functions.
    pub host_funcs: Vec<HostFunc>,
    /// The store's memories.
    pub memories: Vec<MemoryInstance>,
    /// The store's tables.
    pub tables: Vec<TableInstance>,
    /// The store's globals.
    pub globals: Vec<GlobalInstance>,
    /// Live instances counted against the quota.
    pub instance_count: usize,
    /// Live memories counted against the quota.
    pub memory_count: usize,
    /// Live tables counted against the quota.
    pub table_count: usize,
    /// An adjustment added to `interrupts.fuel_consumed` to get the true
    /// amount of fuel consumed.
    pub fuel_adj: i64,
    /// What happens when fuel runs out.
    pub out_of_gas_behavior: OutOfGas,
}

/// Validity of a function reference against the store's pools.
pub open spec fn spec_funcref_valid(s: &Store, r: FuncRef) -> bool {
    match r {
        FuncRef::Host(h) => (h as int) < s.host_funcs@.len(),
        FuncRef::Wasm { instance, index } => {
            &&& (instance as int) < s.instances@.len()
            &&& (s.instances@[instance as int].module_id as int) < s.modules@.len()
            &&& (index as int) < s.modules@[s.instances@[instance as int].module_id as int].module.functions@.len()
            &&& (index as int) >= s.modules@[s.instances@[instance as int].module_id as int].module.num_imported_funcs
        },
    }
}

/// Validity of one instance against the store: each index space is fully
/// populated and every reference resolves into the store's pools.
pub open spec fn spec_instance_valid(s: &Store, i: &InstanceData) -> bool {
    &&& (i.module_id as int) < s.modules@.len()
    &&& i.func_imports@.len() == s.modules@[i.module_id as int].module.num_imported_funcs
    &&& i.memory_ids@.len() == s.modules@[i.module_id as int].module.memory_plans@.len()
    &&& i.table_ids@.len() == s.modules@[i.module_id as int].module.table_plans@.len()
    &&& i.global_ids@.len() == s.modules@[i.module_id as int].module.globals@.len()
    &&& forall|k: int|
        0 <= k < i.func_imports@.len() ==> spec_funcref_valid(s, #[trigger] i.func_imports@[k])
    &&& forall|k: int|
        0 <= k < i.memory_ids@.len() ==> ((#[trigger] i.memory_ids@[k]) as int)
            < s.memories@.len()
    &&& forall|k: int|
        0 <= k < i.table_ids@.len() ==> ((#[trigger] i.table_ids@[k]) as int) < s.tables@.len()
    &&& forall|k: int|
        0 <= k < i.global_ids@.len() ==> ((#[trigger] i.global_ids@[k]) as int)
            < s.globals@.len()
}

impl Store {
    /// The store invariant: registries and frame info are well formed,
    /// every pinned module is well formed, every instance's references
    /// resolve, and the fuel accounting stays within range.
    pub open spec fn wf(&self) -> bool {
        &&& self.signatures.wf()
        &&& self.frame_info.wf()
        &&& forall|m: int| 0 <= m < self.modules@.len() ==> (#[trigger] self.modules@[m]).wf()
        &&& forall|i: int|
            0 <= i < self.instances@.len() ==> spec_instance_valid(
                self,
                #[trigger] &self.instances@[i],
            )
        &&& 0 <= self.fuel_adj
        &&& self.fuel_adj + self.interrupts.fuel_consumed <= i64::MAX
        &&& -self.fuel_adj <= self.interrupts.fuel_consumed
    }

    /// Creates a new store to be associated with the given engine.
    pub fn new(engine: &Engine) -> (r: Store)
        ensures
            r.wf(),
            r.engine.config == engine.config,
            !r.is_async,
            !r.interrupts.interrupted,
            r.interrupts.fuel_consumed == 0,
            r.fuel_adj == 0,
            r.modules@.len() == 0,
            r.instances@.len() == 0,
            r.host_funcs@.len() == 0,
            r.memories@.len() == 0,
            r.tables@.len() == 0,
            r.globals@.len() == 0,
            r.frame_info.modules@.len() == 0,
            r.signatures.types@.len() == 0,
            r.instance_count == 0,
            r.memory_count == 0,
            r.table_count == 0,
            r.out_of_gas_behavior is Trap,
    {
        Store::internal_new(engine, false)
    }

    /// Creates a new async store: calls in it run on fibers and may
    /// suspend, so fuel exhaustion can yield instead of trapping.
    pub fn new_async(engine: &Engine) -> (r: Store)
        ensures
            r.wf(),
            r.engine.config == engine.config,
            r.is_async,
            !r.interrupts.interrupted,
            r.interrupts.fuel_consumed == 0,
            r.fuel_adj == 0,
            r.modules@.len() == 0,
            r.instances@.len() == 0,
            r.host_funcs@.len() == 0,
            r.memories@.len() == 0,
            r.tables@.len() == 0,
            r.globals@.len() == 0,
            r.frame_info.modules@.len() == 0,
            r.signatures.types@.len() == 0,
            r.instance_count == 0,
            r.memory_count == 0,
            r.table_count == 0,
            r.out_of_gas_behavior is Trap,
    {
        Store::internal_new(engine, true)
    }

    /// Creates a store.
    fn internal_new(engine: &Engine, is_async: bool) -> (r: Store)
        ensures
            r.wf(),
            r.engine.config == engine.config,
            r.is_async == is_async,
            !r.interrupts.interrupted,
            r.interrupts.fuel_consumed == 0,
            r.fuel_adj == 0,
            r.modules@.len() == 0,
            r.instances@.len() == 0,
            r.host_funcs@.len() == 0,
            r.memories@.len() == 0,
            r.tables@.len() == 0,
            r.globals@.len() == 0,
            r.frame_info.modules@.len() == 0,
            r.signatures.types@.len() == 0,
            r.instance_count == 0,
            r.memory_count == 0,
            r.table_count == 0,
            r.out_of_gas_behavior is Trap,
    {
        Store {
            engine: Engine { config: engine.config.clone() },
            is_async,
            interrupts: VMInterrupts { interrupted: false, fuel_consumed: 0 },
            signatures: SignatureRegistry::new(),
            frame_info: StoreFrameInfo::new(),
            modules: Vec::new(),
            instances: Vec::new(),
            host_funcs: Vec::new(),
            memories: Vec::new(),
            tables: Vec::new(),
            globals: Vec::new(),
            instance_count: 0,
            memory_count: 0,
            table_count: 0,
            fuel_adj: 0,
            out_of_gas_behavior: OutOfGas::Trap,
        }
    }

    /// Returns the engine this store is associated with.
    pub fn engine(&self) -> (r: &Engine)
        ensures
            r == &self.engine,
    {
        &self.engine
    }

    /// Whether this is an async store.
    pub fn is_async(&self) -> (r: bool)
        ensures
            r == self.is_async,
    {
        self.is_async
    }

    /// The soft limit on Wasm frames, from the configured stack limit: one
    /// frame is charged a fixed share of the stack.
    pub fn max_wasm_frames(&self) -> (r: u64)
        ensures
            r == self.engine.config.max_wasm_stack / WASM_FRAME_COST,
    {
        self.engine.config.max_wasm_stack / WASM_FRAME_COST
    }

    /// Registers a module's published code with this store: its code range
    /// and per-function ranges enter the frame-info index, its signatures
    /// are interned, and its code is pinned for the store's lifetime.
    ///
    /// Registering the same code range again changes nothing: frame info
    /// keeps its guard on the first address, a module whose non-empty image
    /// range is already pinned is not pinned again (the existing index is
    /// returned), and interning signatures that are already interned leaves
    /// the registry as it was.
    ///
    /// Returns the module's index among the store's registered modules.
    pub fn register_module(&mut self, module: CompiledModule) -> (id: usize)
        requires
            old(self).wf(),
            module.wf(),
        ensures
            final(self).wf(),
            (id as int) < final(self).modules@.len(),
            // Pinning: a module whose non-empty image range is already
            // pinned is not pinned again; otherwise it is appended.
            (module.code.image@.len() > 0 && spec_find_pinned(
                old(self).modules@,
                module.code.image_start,
                module.code.image@.len() as int,
            ) is Some) ==> (id as int == spec_find_pinned(
                old(self).modules@,
                module.code.image_start,
                module.code.image@.len() as int,
            )->Some_0 && final(self).modules == old(self).modules && final(self).modules@[
                id as int].code.image_start == module.code.image_start && final(self).modules@[
                id as int].code.image@.len() == module.code.image@.len()),
            (module.code.image@.len() == 0 || spec_find_pinned(
                old(self).modules@,
                module.code.image_start,
                module.code.image@.len() as int,
            ) is None) ==> (id == old(self).modules@.len() && final(self).modules@ == old(
                self,
            ).modules@.push(module)),
            // The classification law: a skipped registration (empty range,
            // or first address already classified) leaves frame info
            // unchanged; a performed registration classifies exactly the
            // old ranges plus the module's published range.
            (module.code.image@.len() == 0 || old(self).frame_info.spec_contains(
                module.code.image_start,
            )) ==> final(self).frame_info.modules@ == old(self).frame_info.modules@,
            (module.code.image@.len() > 0 && !old(self).frame_info.spec_contains(
                module.code.image_start,
            )) ==> {
                &&& final(self).frame_info.modules@.len() == old(self).frame_info.modules@.len()
                    + 1
                &&& forall|pc: u64|
                    final(self).frame_info.spec_contains(pc) <==> (old(
                        self,
                    ).frame_info.spec_contains(pc) || (module.code.image_start <= pc
                        < module.code.image_start + module.code.image@.len()))
            },
            // Signatures: afterwards every signature of the module is
            // interned; interned indices never move; and a module whose
            // signatures were all interned before leaves the registry as it
            // was, so no signature is ever registered twice.
            forall|sidx: int|
                0 <= sidx < module.module.signatures@.len() ==> spec_find_sig(
                    final(self).signatures.types@,
                    (#[trigger] module.module.signatures@[sidx])@,
                ) is Some,
            forall|v: (Seq<crate::types::ValType>, Seq<crate::types::ValType>)|
                (#[trigger] spec_find_sig(old(self).signatures.types@, v)) matches Some(i)
                    ==> spec_find_sig(final(self).signatures.types@, v) == Some(i),
            (forall|sidx: int|
                0 <= sidx < module.module.signatures@.len() ==> spec_find_sig(
                    old(self).signatures.types@,
                    (#[trigger] module.module.signatures@[sidx])@,
                ) is Some) ==> final(self).signatures == old(self).signatures,
            final(self).instances == old(self).instances,
            final(self).host_funcs == old(self).host_funcs,
            final(self).memories == old(self).memories,
            final(self).tables == old(self).tables,
            final(self).globals == old(self).globals,
            final(self).interrupts == old(self).interrupts,
            final(self).fuel_adj == old(self).fuel_adj,
            final(self).engine == old(self).engine,
            final(self).instance_count == old(self).instance_count,
            final(self).memory_count == old(self).memory_count,
            final(self).table_count == old(self).table_count,
    {
        let pinned = self.find_pinned(module.code.image_start, module.code.image.len());
        let info = build_module_frame_info(&module);
        let ghost pre = self.frame_info.modules@;
        let ghost ghost_info = info;
        self.frame_info.register(info);
        proof {
            if ghost_info.start < ghost_info.end && !crate::frame_info::spec_seq_contains_pc(
                pre,
                ghost_info.start,
            ) {
                crate::frame_info::lemma_register_classifies(pre, ghost_info, 0);
                assert forall|pc: u64|
                    self.frame_info.spec_contains(pc) <==> (crate::frame_info::spec_seq_contains_pc(
                        pre,
                        pc,
                    ) || ghost_info.spec_contains(pc)) by {
                    crate::frame_info::lemma_register_classifies(pre, ghost_info, pc);
                }
            }
        }
        self.register_signatures(&module);
        match pinned {
            Some(j) => {
                proof {
                    lemma_find_pinned_found(
                        old(self).modules@,
                        module.code.image_start,
                        module.code.image@.len() as int,
                    );
                    assert forall|i: int|
                        0 <= i < self.instances@.len() implies spec_instance_valid(
                        self,
                        &self.instances@[i],
                    ) by {
                        assert(spec_instance_valid(old(self), &old(self).instances@[i]));
                        assert forall|k: int|
                            0 <= k < self.instances@[i].func_imports@.len() implies spec_funcref_valid(
                            self,
                            #[trigger] self.instances@[i].func_imports@[k],
                        ) by {
                            assert(spec_funcref_valid(
                                old(self),
                                old(self).instances@[i].func_imports@[k],
                            ));
                        }
                    }
                }
                j
            }
            None => {
                let id = self.modules.len();
                self.modules.push(module);
                proof {
                    assert forall|i: int|
                        0 <= i < self.instances@.len() implies spec_instance_valid(
                        self,
                        &self.instances@[i],
                    ) by {
                        assert(spec_instance_valid(old(self), &old(self).instances@[i]));
                        assert forall|k: int|
                            0 <= k < self.instances@[i].func_imports@.len() implies spec_funcref_valid(
                            self,
                            #[trigger] self.instances@[i].func_imports@[k],
                        ) by {
                            assert(spec_funcref_valid(
                                old(self),
                                old(self).instances@[i].func_imports@[k],
                            ));
                        }
                    }
                }
                id
            }
        }
    }

    /// Looks up a pinned module with the same non-empty image range.
    fn find_pinned(&self, start: u64, len: usize) -> (r: Option<usize>)
        ensures
            match r {
                Some(j) => (j as int) < self.modules@.len() && spec_find_pinned(
                    self.modules@,
                    start,
                    len as int,
                ) == Some(j as int),
                None => spec_find_pinned(self.modules@, start, len as int) is None,
            },
    {
        if len == 0 {
            proof {
                lemma_find_pinned_len_zero(self.modules@, start);
            }
            return None;
        }
        let n = self.modules.len();
        let mut i: usize = 0;
        while i < n
            invariant
                n == self.modules@.len(),
                len > 0,
                i <= n,
                forall|j: int|
                    0 <= j < i ==> !((#[trigger] self.modules@[j]).code.image_start == start
                        && self.modules@[j].code.image@.len() == len),
            decreases n - i,
        {
            let m = &self.modules[i];
            if m.code.image_start == start && m.code.image.len() == len {
                proof {
                    lemma_find_pinned_prefix(self.modules@, start, len as int, i as int);
                }
                return Some(i);
            }
            i += 1;
        }
        proof {
            lemma_find_pinned_none(self.modules@, start, len as int, n as int);
        }
        None
    }

    /// Interns every signature of the module in the store's registry.
    /// Afterwards each is interned; indices already interned never move;
    /// and when all were interned before, the registry is left as it was.
    fn register_signatures(&mut self, module: &CompiledModule)
        requires
            old(self).signatures.wf(),
        ensures
            final(self).signatures.wf(),
            *final(self) == (Store { signatures: final(self).signatures, ..*old(self) }),
            forall|sidx: int|
                0 <= sidx < module.module.signatures@.len() ==> spec_find_sig(
                    final(self).signatures.types@,
                    (#[trigger] module.module.signatures@[sidx])@,
                ) is Some,
            forall|v: (Seq<crate::types::ValType>, Seq<crate::types::ValType>)|
                (#[trigger] spec_find_sig(old(self).signatures.types@, v)) matches Some(i)
                    ==> spec_find_sig(final(self).signatures.types@, v) == Some(i),
            (forall|sidx: int|
                0 <= sidx < module.module.signatures@.len() ==> spec_find_sig(
                    old(self).signatures.types@,
                    (#[trigger] module.module.signatures@[sidx])@,
                ) is Some) ==> final(self).signatures == old(self).signatures,
    {
        let ns = module.module.signatures.len();
        let mut s: usize = 0;
        while s < ns
            invariant
                ns == module.module.signatures@.len(),
                s <= ns,
                self.signatures.wf(),
                *self == (Store { signatures: self.signatures, ..*old(self) }),
                forall|j: int|
                    0 <= j < s ==> spec_find_sig(
                        self.signatures.types@,
                        (#[trigger] module.module.signatures@[j])@,
                    ) is Some,
                forall|v: (Seq<crate::types::ValType>, Seq<crate::types::ValType>)|
                    (#[trigger] spec_find_sig(old(self).signatures.types@, v)) matches Some(i)
                        ==> spec_find_sig(self.signatures.types@, v) == Some(i),
                (forall|sidx: int|
                    0 <= sidx < ns ==> spec_find_sig(
                        old(self).signatures.types@,
                        (#[trigger] module.module.signatures@[sidx])@,
                    ) is Some) ==> self.signatures == old(self).signatures,
            decreases ns - s,
        {
            let _ = self.signatures.register(&module.module.signatures[s]);
            s += 1;
        }
    }

    /// Looks up the shared index of one of a registered module's
    /// signatures: the index the indirect-call type check compares.
    pub fn lookup_shared_signature(&self, module_id: usize, sig: u32) -> (r: Option<usize>)
        requires
            self.wf(),
            (module_id as int) < self.modules@.len(),
            (sig as int) < self.modules@[module_id as int].module.signatures@.len(),
        ensures
            match r {
                Some(i) => crate::sig_registry::spec_find_sig(
                    self.signatures.types@,
                    self.modules@[module_id as int].module.signatures@[sig as int]@,
                ) == Some(i as int),
                None => crate::sig_registry::spec_find_sig(
                    self.signatures.types@,
                    self.modules@[module_id as int].module.signatures@[sig as int]@,
                ) is None,
            },
    {
        self.signatures.lookup(&self.modules[module_id].module.signatures[sig as usize])
    }

    /// Increments this store's resource counts for a module about to be
    /// instantiated, failing when a quota would be exceeded.  A count that
    /// saturates the machine word also fails the quota.
    pub fn bump_resource_counts(&mut self, module_id: usize) -> (r: Result<(), EngineError>)
        requires
            old(self).wf(),
            (module_id as int) < old(self).modules@.len(),
        ensures
            final(self).wf(),
            final(self).frame_info == old(self).frame_info,
            final(self).modules == old(self).modules,
            final(self).instances == old(self).instances,
            final(self).host_funcs == old(self).host_funcs,
            final(self).signatures == old(self).signatures,
            final(self).memories == old(self).memories,
            final(self).tables == old(self).tables,
            final(self).globals == old(self).globals,
            final(self).interrupts == old(self).interrupts,
            final(self).fuel_adj == old(self).fuel_adj,
            final(self).engine == old(self).engine,
            final(self).is_async == old(self).is_async,
            r is Ok ==> {
                &&& final(self).instance_count == spec_saturating_add(
                    old(self).instance_count as int,
                    1,
                )
                &&& final(self).memory_count == spec_saturating_add(
                    old(self).memory_count as int,
                    spec_defined_memories(&old(self).modules@[module_id as int]),
                )
                &&& final(self).table_count == spec_saturating_add(
                    old(self).table_count as int,
                    spec_defined_tables(&old(self).modules@[module_id as int]),
                )
            },
            r is Ok <==> {
                &&& spec_saturating_add(old(self).instance_count as int, 1) <= old(
                    self,
                ).engine.config.max_instances
                &&& spec_saturating_add(
                    old(self).memory_count as int,
                    spec_defined_memories(&old(self).modules@[module_id as int]),
                ) <= old(self).engine.config.max_memories
                &&& spec_saturating_add(
                    old(self).table_count as int,
                    spec_defined_tables(&old(self).modules@[module_id as int]),
                ) <= old(self).engine.config.max_tables
            },
    {
        proof {
            assert(old(self).modules@[module_id as int].wf());
        }
        let memories = self.modules[module_id].module.memory_plans.len()
            - self.modules[module_id].module.num_imported_memories;
        let tables = self.modules[module_id].module.table_plans.len()
            - self.modules[module_id].module.num_imported_tables;
        match bump(self.instance_count, self.engine.config.max_instances, 1, "instance") {
            Ok(v) => {
                self.instance_count = v;
            }
            Err(e) => {
                return Err(e);
            }
        }
        match bump(self.memory_count, self.engine.config.max_memories, memories, "memory") {
            Ok(v) => {
                self.memory_count = v;
            }
            Err(e) => {
                return Err(e);
            }
        }
        match bump(self.table_count, self.engine.config.max_tables, tables, "table") {
            Ok(v) => {
                self.table_count = v;
            }
            Err(e) => {
                return Err(e);
            }
        }
        Ok(())
    }

    /// Creates an [`InterruptHandle`] which can be used to interrupt the
    /// execution of instances within this store.  Fails unless the engine
    /// was configured as interruptable.
    pub fn interrupt_handle(&self) -> (r: Result<InterruptHandle, EngineError>)
        ensures
            r is Ok <==> self.engine.config.interruptable,
            r matches Err(e) ==> e.message@ == spec_interrupts_disabled_message(),
    {
        proof {
            reveal_strlit("interrupts aren't enabled for this `Store`");
        }
        if self.engine.config.interruptable {
            Ok(InterruptHandle {})
        } else {
            Err(EngineError::new(String::from_str("interrupts aren't enabled for this `Store`")))
        }
    }

    /// Returns the amount of fuel consumed by this store's execution so
    /// far, or `None` when fuel metering is disabled.
    pub fn fuel_consumed(&self) -> (r: Option<u64>)
        requires
            self.wf(),
        ensures
            self.engine.config.consume_fuel ==> r == Some(
                (self.fuel_adj + self.interrupts.fuel_consumed) as u64,
            ),
            !self.engine.config.consume_fuel ==> r is None,
    {
        if !self.engine.config.consume_fuel {
            return None;
        }
        let consumed = self.interrupts.fuel_consumed;
        Some((self.fuel_adj + consumed) as u64)
    }

    /// Adds fuel to this store for Wasm to consume while executing.  The
    /// engine must have fuel metering enabled.
    ///
    /// A fuel amount past the counter's range is treated as infinite: the
    /// consumed total is preserved and the counter is pinned at its widest.
    pub fn add_fuel(&mut self, fuel: u64)
        requires
            old(self).wf(),
            old(self).engine.config.consume_fuel,
        ensures
            final(self).wf(),
            *final(self) == (Store {
                fuel_adj: final(self).fuel_adj,
                interrupts: final(self).interrupts,
                ..*old(self)
            }),
            final(self).interrupts.interrupted == old(self).interrupts.interrupted,
            // The true consumed total never changes when fuel is added.
            final(self).fuel_adj + final(self).interrupts.fuel_consumed == old(self).fuel_adj
                + old(self).interrupts.fuel_consumed,
            // In the normal range the counter moves down by exactly `fuel`.
            (fuel <= i64::MAX && old(self).interrupts.fuel_consumed - fuel >= i64::MIN && old(
                self,
            ).fuel_adj + fuel <= i64::MAX) ==> final(self).interrupts.fuel_consumed == old(
                self,
            ).interrupts.fuel_consumed - fuel && final(self).fuel_adj == old(self).fuel_adj
                + fuel,
    {
        let fuel_i: i64 = if fuel > (i64::MAX as u64) {
            i64::MAX
        } else {
            fuel as i64
        };
        let consumed = self.interrupts.fuel_consumed;
        let adj = self.fuel_adj;
        let sub_ok = consumed >= i64::MIN + fuel_i;
        let add_ok = adj <= i64::MAX - fuel_i;
        if sub_ok && add_ok {
            self.fuel_adj = adj + fuel_i;
            self.interrupts.fuel_consumed = consumed - fuel_i;
        } else {
            // Preserve the consumed total and treat the fuel as infinite.
            self.interrupts.fuel_consumed = (consumed + adj) - i64::MAX;
            self.fuel_adj = i64::MAX;
        }
    }

    /// Configures the store to raise a trap whenever it runs out of fuel;
    /// the default.
    pub fn out_of_fuel_trap(&mut self)
        ensures
            *final(self) == (Store { out_of_gas_behavior: OutOfGas::Trap, ..*old(self) }),
    {
        self.out_of_gas_behavior = OutOfGas::Trap;
    }

    /// Configures the store to yield and re-inject `fuel_to_inject` fuel up
    /// to `injection_count` times when fuel runs out; only for async
    /// stores.
    pub fn out_of_fuel_async_yield(&mut self, injection_count: u32, fuel_to_inject: u64)
        requires
            old(self).is_async,
        ensures
            *final(self) == (Store {
                out_of_gas_behavior: OutOfGas::InjectFuel { injection_count, fuel_to_inject },
                ..*old(self)
            }),
    {
        self.out_of_gas_behavior = OutOfGas::InjectFuel { injection_count, fuel_to_inject };
    }

    /// Decides what happens on an out-of-gas condition: trap, or, while
    /// injections remain on an async store, yield with the fuel to inject.
    pub fn out_of_gas(&mut self) -> (r: OutOfGasAction)
        requires
            old(self).wf(),
        ensures
            final(self).wf(),
            *final(self) == (Store {
                out_of_gas_behavior: final(self).out_of_gas_behavior,
                ..*old(self)
            }),
            match old(self).out_of_gas_behavior {
                OutOfGas::Trap => r == OutOfGasAction::TrapNow && final(self).out_of_gas_behavior
                    == old(self).out_of_gas_behavior,
                OutOfGas::InjectFuel { injection_count, fuel_to_inject } => {
                    if injection_count == 0 || !old(self).is_async {
                        r == OutOfGasAction::TrapNow
                            && final(self).out_of_gas_behavior == old(self).out_of_gas_behavior
                    } else {
                        r == OutOfGasAction::Yield(fuel_to_inject)
                            && final(self).out_of_gas_behavior == (OutOfGas::InjectFuel {
                            injection_count: (injection_count - 1) as u32,
                            fuel_to_inject,
                        })
                    }
                },
            },
    {
        match self.out_of_gas_behavior {
            OutOfGas::Trap => OutOfGasAction::TrapNow,
            OutOfGas::InjectFuel { injection_count, fuel_to_inject } => {
                if injection_count == 0 || !self.is_async {
                    OutOfGasAction::TrapNow
                } else {
                    self.out_of_gas_behavior = OutOfGas::InjectFuel {
                        injection_count: injection_count - 1,
                        fuel_to_inject,
                    };
                    OutOfGasAction::Yield(fuel_to_inject)
                }
            }
        }
    }

    /// Charges `units` of metered work against the fuel counter and
    /// reports whether fuel is now exhausted.  The counter saturates at the
    /// top of its range instead of wrapping.
    pub fn consume_fuel_units(&mut self, units: u64) -> (out: bool)
        requires
            old(self).wf(),
        ensures
            final(self).wf(),
            *final(self) == (Store { interrupts: final(self).interrupts, ..*old(self) }),
            final(self).interrupts.interrupted == old(self).interrupts.interrupted,
            final(self).interrupts.fuel_consumed == spec_consume_units(
                old(self).interrupts.fuel_consumed as int,
                old(self).fuel_adj as int,
                units as int,
            ),
            out == (final(self).interrupts.fuel_consumed > 0),
    {
        let cap: i64 = i64::MAX - self.fuel_adj;
        let w: i64 = if units > (i64::MAX as u64) {
            i64::MAX
        } else {
            units as i64
        };
        let c = self.interrupts.fuel_consumed;
        let nc: i64 = if c > cap - w {
            cap
        } else {
            c + w
        };
        self.interrupts.fuel_consumed = nc;
        nc > 0
    }


    /// Checks a function reference against the store's pools: the runtime
    /// test that a handle belongs to this store.
    pub fn check_funcref(&self, r: FuncRef) -> (ok: bool)
        ensures
            ok == spec_funcref_valid(self, r),
    {
        match r {
            FuncRef::Host(h) => h < self.host_funcs.len(),
            FuncRef::Wasm { instance, index } => {
                if instance >= self.instances.len() {
                    return false;
                }
                let mid = self.instances[instance].module_id;
                if mid >= self.modules.len() {
                    return false;
                }
                let m = &self.modules[mid];
                (index as usize) < m.module.functions.len() && (index as usize)
                    >= m.module.num_imported_funcs
            }
        }
    }

    /// Sets the interrupt flag; the next interrupt check in compiled code
    /// raises the interrupt trap and clears it.
    pub fn set_interrupted(&mut self)
        requires
            old(self).wf(),
        ensures
            final(self).wf(),
            *final(self) == (Store { interrupts: final(self).interrupts, ..*old(self) }),
            final(self).interrupts.interrupted,
            final(self).interrupts.fuel_consumed == old(self).interrupts.fuel_consumed,
    {
        self.interrupts.interrupted = true;
    }

    /// Consumes a pending interrupt, if one is set: the check compiled code
    /// performs at every function entry and loop back-edge.  Returns whether
    /// an interrupt was consumed; afterwards the flag is always clear, so
    /// subsequent execution resumes normally.
    pub fn check_interrupt(&mut self) -> (hit: bool)
        requires
            old(self).wf(),
        ensures
            final(self).wf(),
            *final(self) == (Store { interrupts: final(self).interrupts, ..*old(self) }),
            final(self).interrupts.fuel_consumed == old(self).interrupts.fuel_consumed,
            hit == old(self).interrupts.interrupted,
            !final(self).interrupts.interrupted,
    {
        let hit = self.interrupts.interrupted;
        self.interrupts.interrupted = false;
        hit
    }
}

/// The counter move performed by one fuel charge: add the units, capped so
/// that the true consumed total never leaves the counter's range.
pub open spec fn spec_consume_units(consumed: int, adj: int, units: int) -> int {
    let w = if units > i64::MAX {
        i64::MAX as int
    } else {
        units
    };
    let cap = i64::MAX - adj;
    if consumed + w > cap {
        cap
    } else {
        consumed + w
    }
}


/// The counter after `k` single units of metered work.
pub open spec fn spec_consume_k(consumed: int, adj: int, k: nat) -> int
    decreases k,
{
    if k == 0 {
        consumed
    } else {
        spec_consume_units(spec_consume_k(consumed, adj, (k - 1) as nat), adj, 1)
    }
}

/// The fuel budget law: after `add_fuel(n)` on a fresh counter the counter
/// reads `-n` with adjustment `n`, every unit of metered work moves it by
/// one, and exhaustion fires exactly when the work performed exceeds `n`:
/// the total Wasm work performed before the out-of-gas handler runs is
/// exactly `n` fuel units.
pub proof fn lemma_fuel_budget(n: u64, k: nat)
    requires
        n < i64::MAX,
        k <= n + 1,
    ensures
        spec_consume_k(-(n as int), n as int, k) == k - n,
        (spec_consume_k(-(n as int), n as int, k) > 0) <==> k > n,
    decreases k,
{
    if k > 0 {
        lemma_fuel_budget(n, (k - 1) as nat);
    }
}

/// The stable message of a disabled interrupt handle.
pub open spec fn spec_interrupts_disabled_message() -> Seq<char> {
    "interrupts aren't enabled for this `Store`"@
}

/// The first pinned module with the given non-empty image range.
pub open spec fn spec_find_pinned(modules: Seq<CompiledModule>, start: u64, len: int) -> Option<
    int,
>
    decreases modules.len(),
{
    if modules.len() == 0 {
        None
    } else if modules[0].code.image_start == start && modules[0].code.image@.len() == len && len
        > 0 {
        Some(0)
    } else {
        match spec_find_pinned(modules.drop_first(), start, len) {
            Some(i) => Some(i + 1),
            None => None,
        }
    }
}

/// An empty range never matches a pinned module.
proof fn lemma_find_pinned_len_zero(modules: Seq<CompiledModule>, start: u64)
    ensures
        spec_find_pinned(modules, start, 0) is None,
    decreases modules.len(),
{
    if modules.len() > 0 {
        lemma_find_pinned_len_zero(modules.drop_first(), start);
    }
}

/// If every index below `i` differs and index `i` matches, `i` is the
/// first match.
proof fn lemma_find_pinned_prefix(modules: Seq<CompiledModule>, start: u64, len: int, i: int)
    requires
        len > 0,
        0 <= i < modules.len(),
        forall|j: int|
            0 <= j < i ==> !((#[trigger] modules[j]).code.image_start == start
                && modules[j].code.image@.len() == len),
        modules[i].code.image_start == start && modules[i].code.image@.len() == len,
    ensures
        spec_find_pinned(modules, start, len) == Some(i),
    decreases i,
{
    if i == 0 {
    } else {
        lemma_find_pinned_prefix(modules.drop_first(), start, len, i - 1);
    }
}

/// A found index matches and is in range.
proof fn lemma_find_pinned_found(modules: Seq<CompiledModule>, start: u64, len: int)
    ensures
        spec_find_pinned(modules, start, len) matches Some(i) ==> 0 <= i < modules.len()
            && modules[i].code.image_start == start && modules[i].code.image@.len() == len && len
            > 0,
    decreases modules.len(),
{
    if modules.len() > 0 && !(modules[0].code.image_start == start && modules[0].code.image@.len()
        == len && len > 0) {
        lemma_find_pinned_found(modules.drop_first(), start, len);
    }
}

/// If no index matches, nothing is found.
proof fn lemma_find_pinned_none(modules: Seq<CompiledModule>, start: u64, len: int, n: int)
    requires
        n == modules.len(),
        forall|j: int|
            0 <= j < n ==> !((#[trigger] modules[j]).code.image_start == start
                && modules[j].code.image@.len() == len),
    ensures
        spec_find_pinned(modules, start, len) is None,
    decreases n,
{
    if n > 0 {
        lemma_find_pinned_none(modules.drop_first(), start, len, n - 1);
    }
}

/// The number of memories a module defines (excluding imported ones).
pub open spec fn spec_defined_memories(m: &CompiledModule) -> int {
    m.module.memory_plans@.len() - m.module.num_imported_memories
}

/// The number of tables a module defines (excluding imported ones).
pub open spec fn spec_defined_tables(m: &CompiledModule) -> int {
    m.module.table_plans@.len() - m.module.num_imported_tables
}

/// Bumps one resource counter against its quota, returning the new count
/// or failing with the stable resource-limit message when the quota would
/// be exceeded.
fn bump(slot: usize, max: usize, amt: usize, desc: &str) -> (r: Result<usize, EngineError>)
    ensures
        r is Ok <==> spec_saturating_add(slot as int, amt as int) <= max,
        r matches Ok(v) ==> v == spec_saturating_add(slot as int, amt as int),
        r matches Err(e) ==> e.message@ == spec_resource_limit_message(
            desc@,
            spec_saturating_add(slot as int, amt as int),
        ),
{
    proof {
        reveal_strlit("resource limit exceeded: ");
        reveal_strlit(" count too high at ");
    }
    let new: usize = if slot > usize::MAX - amt {
        usize::MAX
    } else {
        slot + amt
    };
    if new > max {
        let mut msg = String::from_str("resource limit exceeded: ");
        msg.append(desc);
        msg.append(" count too high at ");
        let num = dec_str(new as u64);
        msg.append(num.as_str());
        return Err(EngineError::new(msg));
    }
    Ok(new)
}

/// A saturating add on a machine-word counter.
pub open spec fn spec_saturating_add(a: int, b: int) -> int {
    if a + b > usize::MAX {
        usize::MAX as int
    } else {
        a + b
    }
}

/// The stable resource-limit message.
pub open spec fn spec_resource_limit_message(desc: Seq<char>, n: int) -> Seq<char> {
    "resource limit exceeded: "@ + desc + " count too high at "@ + crate::trap::spec_dec_str(
        n as nat,
    )
}

/// A threadsafe handle used to interrupt instances executing within a
/// particular store.
///
/// The handle is obtained from [`Store::interrupt_handle`]; delivering the
/// interrupt is the cross-thread write of the store's shared flag, so the
/// store is named at delivery.  The handle itself carries no state: with
/// stores as plain values there is no shared word for it to hold, and
/// nothing ties a handle to the store that issued it beyond the issuing
/// check.
#[derive(Debug)]
pub struct InterruptHandle {}

impl InterruptHandle {
    /// Flags that execution within the handle's store should be
    /// interrupted.  This does not stop Wasm immediately: the flag is
    /// consumed by the next interrupt check at a loop back-edge or
    /// function entry.
    pub fn interrupt(&self, store: &mut Store)
        requires
            old(store).wf(),
        ensures
            final(store).wf(),
            *final(store) == (Store { interrupts: final(store).interrupts, ..*old(store) }),
            final(store).interrupts.interrupted,
            final(store).interrupts.fuel_consumed == old(store).interrupts.fuel_consumed,
    {
        store.set_interrupted();
    }
}

/// Builds the frame-info entry for a compiled module: its published code
/// range, its per-function ranges with their names, and its trap table at
/// absolute addresses.
fn build_module_frame_info(m: &CompiledModule) -> (r: ModuleFrameInfo)
    requires
        m.wf(),
    ensures
        r.wf(),
        r.start == m.code.image_start,
        r.end == m.code.image_start + m.code.image@.len(),
        r.module_name == m.module.name,
        r.functions@.len() == m.func_ranges@.len(),
        forall|f: int|
            0 <= f < m.func_ranges@.len() ==> (#[trigger] r.functions@[f]).start
                == m.code.image_start + m.func_ranges@[f].0 && r.functions@[f].len
                == m.func_ranges@[f].1 && r.functions@[f].index as int
                == m.module.num_imported_funcs + f && r.functions@[f].name == m.module.func_names@[
                m.module.num_imported_funcs + f],
        r.traps@.len() == m.traps@.len(),
        forall|i: int|
            0 <= i < m.traps@.len() ==> (#[trigger] r.traps@[i]).offset == m.code.image_start
                + m.traps@[i].offset && r.traps@[i].source_loc == m.traps@[i].source_loc && r.traps@[
                i].code == m.traps@[i].code,
{
    let start = m.code.image_start;
    let image_len = m.code.image.len() as u64;
    let end = start + image_len;
    let nf = m.func_ranges.len();
    let mut functions: Vec<FunctionInfo> = Vec::new();
    let mut f: usize = 0;
    while f < nf
        invariant
            m.wf(),
            start == m.code.image_start,
            image_len == m.code.image@.len(),
            nf == m.func_ranges@.len(),
            f <= nf,
            functions@.len() == f as int,
            forall|g: int|
                0 <= g < f ==> (#[trigger] functions@[g]).start == start + m.func_ranges@[g].0
                    && functions@[g].len == m.func_ranges@[g].1 && functions@[g].index as int
                    == m.module.num_imported_funcs + g && functions@[g].name
                    == m.module.func_names@[m.module.num_imported_funcs + g],
        decreases nf - f,
    {
        proof {
            assert(m.module.wf());
            assert(m.func_ranges@.len() == m.module.functions@.len()
                - m.module.num_imported_funcs);
        }
        let range = m.func_ranges[f];
        let index = (m.module.num_imported_funcs + f) as u32;
        let name = crate::frame_info::clone_opt_string(
            &m.module.func_names[m.module.num_imported_funcs + f],
        );
        functions.push(FunctionInfo { start: start + range.0, len: range.1, index, name });
        f += 1;
    }
    let nt = m.traps.len();
    let mut traps: Vec<TrapRecord> = Vec::new();
    let mut i: usize = 0;
    while i < nt
        invariant
            m.wf(),
            start == m.code.image_start,
            image_len == m.code.image@.len(),
            nt == m.traps@.len(),
            i <= nt,
            traps@.len() == i as int,
            forall|j: int|
                0 <= j < i ==> (#[trigger] traps@[j]).offset == start + m.traps@[j].offset
                    && traps@[j].source_loc == m.traps@[j].source_loc && traps@[j].code
                    == m.traps@[j].code,
        decreases nt - i,
    {
        let t = m.traps[i];
        traps.push(TrapRecord { offset: start + t.offset, source_loc: t.source_loc, code: t.code });
        i += 1;
    }
    proof {
        assert forall|p: int, q: int| 0 <= p < q < traps@.len() implies (
        #[trigger] traps@[p]).offset < (#[trigger] traps@[q]).offset by {
            assert(m.traps@[p].offset < m.traps@[q].offset);
        }
        assert forall|g: int| 0 <= g < functions@.len() implies start <= (
        #[trigger] functions@[g]).start && functions@[g].start + functions@[g].len <= end by {
            assert(m.func_ranges@[g].0 + m.func_ranges@[g].1 <= m.code.image@.len());
        }
    }
    ModuleFrameInfo {
        start,
        end,
        module_name: crate::frame_info::clone_opt_string(&m.module.name),
        functions,
        traps,
    }
}

} // verus!
