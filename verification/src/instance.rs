//! Instantiation: materializing a compiled module inside a store.
//!
//! `Instance::new` resolves the module's imports against the caller's
//! externs, type-checking each one, allocates the defined memories, tables
//! and globals, charges the store's resource quotas, runs the data
//! initializers against the allocated memories, and finally runs the start
//! function if one is declared.  A missing or mismatched import fails with
//! a link error before the store changes at all; a trapping start function
//! destroys the instance and surfaces the trap, leaving the store usable.

use vstd::prelude::*;

use crate::errors::{EngineError, InstantiationError};
use crate::func::{run_function, Func, WasmFrame};
use crate::module::EntityIndex;
use crate::store::{
    FuncRef, GlobalInstance, HostBehavior, InstanceData, MemoryInstance, Store, TableInstance,
    spec_funcref_valid, spec_instance_valid,
};
use crate::trap::Trap;
use crate::types::{GlobalType, Limits, MemoryType, Mutability, TableType, ValType};
use crate::values::Val;

verus! {

/// The size of one Wasm page, in bytes.
pub const WASM_PAGE_SIZE: u64 = 65536;

/// A handle to a global in a store.
#[derive(Debug, Clone, Copy, PartialEq, Eq, Structural)]
pub struct Global {
    /// The global's index in the store's pool.
    pub id: usize,
}

impl Global {
    /// Creates a host-defined global with the given type and initial value.
    /// Fails exactly when the value's type is not the global's content
    /// type.
    pub fn new(store: &mut Store, ty: GlobalType, value: Val) -> (r: Result<Global, EngineError>)
        requires
            old(store).wf(),
        ensures
            final(store).wf(),
            r is Ok <==> value.spec_ty() == ty.content,
            r matches Ok(g) ==> {
                &&& g.id == old(store).globals@.len()
                &&& final(store).globals@.len() == old(store).globals@.len() + 1
                &&& final(store).globals@.last().ty == ty
                &&& final(store).globals@.last().value == value
                &&& forall|k: int|
                    0 <= k < old(store).globals@.len() ==> final(store).globals@[k] == old(
                        store,
                    ).globals@[k]
            },
            r is Err ==> *final(store) == *old(store),
            *final(store) == (Store { globals: final(store).globals, ..*old(store) }),
    {
        proof {
            reveal_strlit("value provided does not match the type of this global");
        }
        let vt = value.ty();
        if !crate::func::val_type_eq(vt, ty.content) {
            return Err(
                EngineError::new(
                    String::from_str("value provided does not match the type of this global"),
                ),
            );
        }
        let id = store.globals.len();
        store.globals.push(GlobalInstance { ty, value });
        proof {
            lemma_pools_grow_keep_valid(old(store), store);
        }
        Ok(Global { id })
    }

    /// Returns the global's type.
    pub fn ty(&self, store: &Store) -> (r: GlobalType)
        requires
            (self.id as int) < store.globals@.len(),
        ensures
            r == store.globals@[self.id as int].ty,
    {
        store.globals[self.id].ty
    }

    /// Returns the global's current value.
    pub fn get(&self, store: &Store) -> (r: Val)
        requires
            (self.id as int) < store.globals@.len(),
        ensures
            r == store.globals@[self.id as int].value,
    {
        store.globals[self.id].value
    }
}

/// A handle to a linear memory in a store.
#[derive(Debug, Clone, Copy, PartialEq, Eq, Structural)]
pub struct Memory {
    /// The memory's index in the store's pool.
    pub id: usize,
}

impl Memory {
    /// Creates a host-defined memory of the given type, zero-filled at its
    /// minimum size.
    pub fn new(store: &mut Store, ty: MemoryType) -> (r: Memory)
        requires
            old(store).wf(),
            ty.limits.min * WASM_PAGE_SIZE <= usize::MAX,
        ensures
            final(store).wf(),
            r.id == old(store).memories@.len(),
            final(store).memories@.len() == old(store).memories@.len() + 1,
            final(store).memories@.last().ty == ty,
            final(store).memories@.last().data@.len() == ty.limits.min * WASM_PAGE_SIZE,
            forall|k: int|
                0 <= k < old(store).memories@.len() ==> final(store).memories@[k] == old(
                    store,
                ).memories@[k],
            *final(store) == (Store { memories: final(store).memories, ..*old(store) }),
    {
        let id = store.memories.len();
        let bytes = (ty.limits.min as u64) * WASM_PAGE_SIZE;
        let mut data: Vec<u8> = Vec::new();
        crate::compiler::append_zeros(&mut data, bytes as usize);
        store.memories.push(MemoryInstance { ty, data });
        proof {
            lemma_pools_grow_keep_valid(old(store), store);
        }
        Memory { id }
    }

    /// Returns the memory's type.
    pub fn ty(&self, store: &Store) -> (r: MemoryType)
        requires
            (self.id as int) < store.memories@.len(),
        ensures
            r == store.memories@[self.id as int].ty,
    {
        store.memories[self.id].ty
    }

    /// Returns the memory's current size in bytes.
    pub fn data_size(&self, store: &Store) -> (r: usize)
        requires
            (self.id as int) < store.memories@.len(),
        ensures
            r == store.memories@[self.id as int].data@.len(),
    {
        store.memories[self.id].data.len()
    }

    /// Reads one byte of the memory.
    pub fn read_byte(&self, store: &Store, addr: usize) -> (r: u8)
        requires
            (self.id as int) < store.memories@.len(),
            (addr as int) < store.memories@[self.id as int].data@.len(),
        ensures
            r == store.memories@[self.id as int].data@[addr as int],
    {
        store.memories[self.id].data[addr]
    }
}

/// A handle to a table in a store.
#[derive(Debug, Clone, Copy, PartialEq, Eq, Structural)]
pub struct Table {
    /// The table's index in the store's pool.
    pub id: usize,
}

impl Table {
    /// Creates a host-defined table of the given type at its minimum size.
    pub fn new(store: &mut Store, ty: TableType) -> (r: Table)
        requires
            old(store).wf(),
        ensures
            final(store).wf(),
            r.id == old(store).tables@.len(),
            final(store).tables@.len() == old(store).tables@.len() + 1,
            final(store).tables@.last().ty == ty,
            final(store).tables@.last().size == ty.limits.min,
            forall|k: int|
                0 <= k < old(store).tables@.len() ==> final(store).tables@[k] == old(
                    store,
                ).tables@[k],
            *final(store) == (Store { tables: final(store).tables, ..*old(store) }),
    {
        let id = store.tables.len();
        let size = ty.limits.min as usize;
        store.tables.push(TableInstance { ty, size });
        proof {
            lemma_pools_grow_keep_valid(old(store), store);
        }
        Table { id }
    }

    /// Returns the table's type.
    pub fn ty(&self, store: &Store) -> (r: TableType)
        requires
            (self.id as int) < store.tables@.len(),
        ensures
            r == store.tables@[self.id as int].ty,
    {
        store.tables[self.id].ty
    }
}

/// An external value: anything that can be imported into or exported from a
/// module.
#[derive(Debug, Clone, Copy)]
pub enum Extern {
    /// A function.
    Func(Func),
    /// A global.
    Global(Global),
    /// A table.
    Table(Table),
    /// A memory.
    Memory(Memory),
}

impl Extern {
    /// The underlying function, if this external is one.
    pub fn func(&self) -> (r: Option<&Func>)
        ensures
            match r {
                Some(f) => *self matches Extern::Func(g) && f == &g,
                None => !(*self matches Extern::Func(_)),
            },
    {
        match self {
            Extern::Func(f) => Some(f),
            _ => None,
        }
    }

    /// The underlying global, if this external is one.
    pub fn global(&self) -> (r: Option<&Global>)
        ensures
            match r {
                Some(g) => *self matches Extern::Global(h) && g == &h,
                None => !(*self matches Extern::Global(_)),
            },
    {
        match self {
            Extern::Global(g) => Some(g),
            _ => None,
        }
    }

    /// The underlying memory, if this external is one.
    pub fn memory(&self) -> (r: Option<&Memory>)
        ensures
            match r {
                Some(m) => *self matches Extern::Memory(n) && m == &n,
                None => !(*self matches Extern::Memory(_)),
            },
    {
        match self {
            Extern::Memory(m) => Some(m),
            _ => None,
        }
    }

    /// The underlying table, if this external is one.
    pub fn table(&self) -> (r: Option<&Table>)
        ensures
            match r {
                Some(t) => *self matches Extern::Table(u) && t == &u,
                None => !(*self matches Extern::Table(_)),
            },
    {
        match self {
            Extern::Table(t) => Some(t),
            _ => None,
        }
    }
}

/// Whether provided limits satisfy declared limits: at least the declared
/// minimum, and within the declared maximum when one is declared.
pub open spec fn spec_limits_match(provided: Limits, declared: Limits) -> bool {
    &&& provided.min >= declared.min
    &&& match declared.max {
        Some(dm) => provided.max matches Some(pm) && pm <= dm,
        None => true,
    }
}

/// Checks provided limits against declared limits.
fn limits_match(provided: &Limits, declared: &Limits) -> (r: bool)
    ensures
        r == spec_limits_match(*provided, *declared),
{
    if provided.min < declared.min {
        return false;
    }
    match declared.max {
        Some(dm) => match provided.max {
            Some(pm) => pm <= dm,
            None => false,
        },
        None => true,
    }
}

/// Whether one provided external satisfies one declared import.
pub open spec fn spec_import_matches(s: &Store, module_id: int, e: EntityIndex, ext: Extern) -> bool {
    let m = &s.modules@[module_id].module;
    match e {
        EntityIndex::Function(i) => ext matches Extern::Func(f) && spec_funcref_valid(s, f.kind)
            && crate::func::spec_func_ty(s, f.kind) == m.signatures@[m.functions@[i as int] as int]@,
        EntityIndex::Memory(i) => ext matches Extern::Memory(mem) && (mem.id as int)
            < s.memories@.len() && spec_limits_match(
            s.memories@[mem.id as int].ty.limits,
            m.memory_plans@[i as int].limits,
        ),
        EntityIndex::Table(i) => ext matches Extern::Table(t) && (t.id as int) < s.tables@.len()
            && s.tables@[t.id as int].ty.element == m.table_plans@[i as int].element
            && spec_limits_match(s.tables@[t.id as int].ty.limits, m.table_plans@[i as int].limits),
        EntityIndex::Global(i) => ext matches Extern::Global(g) && (g.id as int)
            < s.globals@.len() && s.globals@[g.id as int].ty.content == m.globals@[i as int].ty.content
            && s.globals@[g.id as int].ty.mutability == m.globals@[i as int].ty.mutability,
    }
}

/// Whether an import vector resolves a module's imports completely: right
/// count, and every position matches its declared import.
pub open spec fn spec_imports_ok(s: &Store, module_id: int, imports: Seq<Extern>) -> bool {
    let m = &s.modules@[module_id].module;
    &&& imports.len() == m.imports@.len()
    &&& forall|k: int|
        0 <= k < imports.len() ==> spec_import_matches(
            s,
            module_id,
            m.imports@[k].2,
            #[trigger] imports[k],
        )
}

/// A handle to an instantiated module in a store.
#[derive(Debug, Clone, Copy, PartialEq, Eq, Structural)]
pub struct Instance {
    /// The instance's index in the store.
    pub id: usize,
}

impl Instance {
    /// Instantiates a registered module with the given imports.
    ///
    /// Imports are resolved positionally and type-checked; a missing or
    /// mismatched import fails with a link error if and only if the vector
    /// does not satisfy the module's imports, and then the store is left
    /// untouched.  Quota exhaustion fails with a resource error.  A
    /// trapping start function destroys the instance and fails with
    /// `StartTrap`; the store remains usable for other instances.
    pub fn new(store: &mut Store, module_id: usize, imports: &Vec<Extern>) -> (r: Result<
        Instance,
        InstantiationError,
    >)
        requires
            old(store).wf(),
            !old(store).is_async,
            (module_id as int) < old(store).modules@.len(),
        ensures
            final(store).wf(),
            final(store).engine == old(store).engine,
            final(store).is_async == old(store).is_async,
            final(store).modules == old(store).modules,
            final(store).frame_info == old(store).frame_info,
            final(store).signatures == old(store).signatures,
            final(store).host_funcs == old(store).host_funcs,
            !spec_imports_ok(old(store), module_id as int, imports@) ==> (r matches Err(e)
                && e is Link && *final(store) == *old(store)),
            r matches Ok(inst) ==> {
                &&& inst.id == old(store).instances@.len()
                &&& final(store).instances@.len() == old(store).instances@.len() + 1
                &&& final(store).instances@.last().module_id == module_id
                &&& spec_imports_ok(old(store), module_id as int, imports@)
            },
            r is Err ==> final(store).instances@.len() == old(store).instances@.len(),
            r matches Err(e) ==> (e is Link || e is Resource || e is StartTrap),
            // A start trap carries a consistent message and source: the
            // host's message verbatim, or the stable rendering of its kind.
            r matches Err(e) ==> (e matches InstantiationError::StartTrap(t)
                ==> crate::func::spec_trap_source_wf(final(store), &t)),
            // Success is owed: matching imports, satisfiable quotas,
            // allocatable memories, initializers within the planned sizes
            // of the module's own memories, and no start function give a
            // live instance.
            spec_instantiation_unconditional(old(store), module_id as int, imports@) ==> r is Ok,
    {
        // Resolve and type-check every import before touching the store.
        let (func_imports, mem_imports, table_imports, global_imports) = match resolve_imports(
            store,
            module_id,
            imports,
        ) {
            Ok(t) => t,
            Err(e) => {
                return Err(e);
            }
        };
        // Allocate the defined memories, tables and globals.
        let (memory_ids, table_ids, global_ids) = match allocate_defined(
            store,
            module_id,
            mem_imports,
            table_imports,
            global_imports,
        ) {
            Ok(t) => t,
            Err(e) => {
                return Err(e);
            }
        };
        // Count the instance and its resources against the store's quotas.
        match store.bump_resource_counts(module_id) {
            Ok(_) => {}
            Err(e) => {
                return Err(InstantiationError::Resource(e.message()));
            }
        }
        // The instance becomes visible to the executor.
        let ghost pre_push = *store;
        let id = push_instance(
            store,
            module_id,
            func_imports,
            memory_ids,
            table_ids,
            global_ids,
        );
        proof {
            if spec_instantiation_unconditional(old(store), module_id as int, imports@) {
                let m = &store.modules@[module_id as int];
                assert forall|j: int|
                    0 <= j < m.data_initializers@.len() implies spec_data_init_fits(
                    store,
                    id as int,
                    j,
                ) by {
                    let seg = &m.data_initializers@[j];
                    assert((seg.memory_index as int) < m.module.memory_plans@.len());
                    assert(store.instances@[id as int].memory_ids@ == memory_ids@);
                    assert(store.memories@[((memory_ids@[seg.memory_index as int]) as int)].data@.len()
                        == m.module.memory_plans@[seg.memory_index as int].limits.min * (
                        WASM_PAGE_SIZE as int));
                }
            }
        }
        // Run the data initializers against the allocated memories; every
        // segment is bounds-checked before any byte is written, so a
        // failing initializer has no visible side effect.
        match apply_data_initializers(store, id) {
            Ok(_) => {}
            Err(e) => {
                proof {
                    assert forall|i: int|
                        0 <= i < store.instances@.len() - 1 implies spec_instance_valid_against(
                        store,
                        i,
                    ) by {
                        assert(spec_instance_valid(&pre_push, &pre_push.instances@[i]));
                        assert(store.instances@[i] == pre_push.instances@[i]);
                        assert forall|k: int|
                            0 <= k < store.instances@[i].func_imports@.len() implies spec_funcref_shrunk_valid(
                            store,
                            #[trigger] store.instances@[i].func_imports@[k],
                        ) by {
                            assert(spec_funcref_valid(
                                &pre_push,
                                pre_push.instances@[i].func_imports@[k],
                            ));
                        }
                    }
                }
                pop_instance(store);
                return Err(e);
            }
        }
        // Run the start function, if one is declared; a trap destroys the
        // instance.
        match run_start(store, id) {
            Ok(_) => {}
            Err(t) => {
                let ghost before_pop = *store;
                proof {
                    assert forall|i: int|
                        0 <= i < store.instances@.len() - 1 implies spec_instance_valid_against(
                        store,
                        i,
                    ) by {
                        assert(spec_instance_valid(&pre_push, &pre_push.instances@[i]));
                        assert(store.instances@[i] == pre_push.instances@[i]);
                        assert forall|k: int|
                            0 <= k < store.instances@[i].func_imports@.len() implies spec_funcref_shrunk_valid(
                            store,
                            #[trigger] store.instances@[i].func_imports@[k],
                        ) by {
                            assert(spec_funcref_valid(
                                &pre_push,
                                pre_push.instances@[i].func_imports@[k],
                            ));
                        }
                    }
                }
                pop_instance(store);
                proof {
                    crate::func::lemma_trap_source_wf_same(&before_pop, store, &t);
                }
                return Err(InstantiationError::StartTrap(t));
            }
        }
        Ok(Instance { id })
    }

    /// Returns the instance's exports, in the module's export order: for a
    /// function export the handle to the instance's import target or its
    /// own defined function, and for a memory, table or global export the
    /// handle to the backing entity in the store's pools.
    pub fn exports(&self, store: &Store) -> (r: Vec<Extern>)
        requires
            store.wf(),
            (self.id as int) < store.instances@.len(),
        ensures
            r@.len() == store.modules@[store.instances@[self.id as int].module_id as int].module.exports@.len(),
            forall|k: int|
                0 <= k < r@.len() ==> #[trigger] r@[k] == spec_export_extern(
                    store,
                    self.id as int,
                    k,
                ),
            forall|k: int|
                0 <= k < r@.len() ==> ((#[trigger] r@[k]) matches Extern::Func(f)
                    ==> spec_funcref_valid(store, f.kind)),
    {
        let inst = &store.instances[self.id];
        proof {
            assert(spec_instance_valid(store, &store.instances@[self.id as int]));
        }
        let m = &store.modules[inst.module_id];
        proof {
            assert(m.wf());
        }
        let ne = m.module.exports.len();
        let mut out: Vec<Extern> = Vec::new();
        let mut k: usize = 0;
        while k < ne
            invariant
                store.wf(),
                (self.id as int) < store.instances@.len(),
                inst == &store.instances@[self.id as int],
                spec_instance_valid(store, inst),
                (inst.module_id as int) < store.modules@.len(),
                m == &store.modules@[inst.module_id as int],
                ne == m.module.exports@.len(),
                m.wf(),
                k <= ne,
                out@.len() == k as int,
                forall|j: int|
                    0 <= j < k ==> #[trigger] out@[j] == spec_export_extern(
                        store,
                        self.id as int,
                        j,
                    ),
                forall|j: int|
                    0 <= j < k ==> ((#[trigger] out@[j]) matches Extern::Func(f)
                        ==> spec_funcref_valid(store, f.kind)),
            decreases ne - k,
        {
            proof {
                assert(m.module.spec_entity_in_range(m.module.exports@[k as int].1));
            }
            let entity = m.module.exports[k].1;
            let e: Extern = match entity {
                EntityIndex::Function(i) => {
                    if (i as usize) < m.module.num_imported_funcs {
                        proof {
                            assert((i as int) < inst.func_imports@.len());
                        }
                        let fr = inst.func_imports[i as usize];
                        proof {
                            assert(spec_funcref_valid(store, inst.func_imports@[i as int]));
                        }
                        Extern::Func(Func { kind: fr })
                    } else {
                        Extern::Func(Func { kind: FuncRef::Wasm { instance: self.id, index: i } })
                    }
                }
                EntityIndex::Memory(i) => Extern::Memory(
                    Memory { id: inst.memory_ids[i as usize] },
                ),
                EntityIndex::Table(i) => Extern::Table(Table { id: inst.table_ids[i as usize] }),
                EntityIndex::Global(i) => Extern::Global(
                    Global { id: inst.global_ids[i as usize] },
                ),
            };
            out.push(e);
            k += 1;
        }
        out
    }
}

/// The extern the `k`-th export of an instance resolves to.
pub open spec fn spec_export_extern(s: &Store, inst_id: int, k: int) -> Extern {
    let inst = &s.instances@[inst_id];
    let m = &s.modules@[inst.module_id as int].module;
    match m.exports@[k].1 {
        EntityIndex::Function(i) => if (i as int) < m.num_imported_funcs {
            Extern::Func(Func { kind: inst.func_imports@[i as int] })
        } else {
            Extern::Func(Func { kind: FuncRef::Wasm { instance: inst_id as usize, index: i } })
        },
        EntityIndex::Memory(i) => Extern::Memory(Memory { id: inst.memory_ids@[i as int] }),
        EntityIndex::Table(i) => Extern::Table(Table { id: inst.table_ids@[i as int] }),
        EntityIndex::Global(i) => Extern::Global(Global { id: inst.global_ids@[i as int] }),
    }
}

/// Extends instance validity when the store's pools only grow and the
/// instances and modules stay as they were.
proof fn lemma_pools_grow_keep_valid(pre: &Store, post: &Store)
    requires
        pre.wf(),
        post.instances == pre.instances,
        post.modules == pre.modules,
        post.host_funcs@.len() >= pre.host_funcs@.len(),
        post.memories@.len() >= pre.memories@.len(),
        post.tables@.len() >= pre.tables@.len(),
        post.globals@.len() >= pre.globals@.len(),
    ensures
        forall|i: int|
            0 <= i < post.instances@.len() ==> spec_instance_valid(
                post,
                #[trigger] &post.instances@[i],
            ),
{
    assert forall|i: int| 0 <= i < post.instances@.len() implies spec_instance_valid(
        post,
        #[trigger] &post.instances@[i],
    ) by {
        assert(spec_instance_valid(pre, &pre.instances@[i]));
        assert forall|k: int|
            0 <= k < post.instances@[i].func_imports@.len() implies spec_funcref_valid(
            post,
            #[trigger] post.instances@[i].func_imports@[k],
        ) by {
            assert(spec_funcref_valid(pre, pre.instances@[i].func_imports@[k]));
        }
    }
}

/// Resolves the module's imports positionally against the provided externs,
/// type-checking each one.  Read-only: succeeds if and only if the vector
/// satisfies the module's imports, and a failure reports a link error.
#[verifier::rlimit(100)]
fn resolve_imports(store: &Store, module_id: usize, imports: &Vec<Extern>) -> (r: Result<
    (Vec<FuncRef>, Vec<usize>, Vec<usize>, Vec<usize>),
    InstantiationError,
>)
    requires
        store.wf(),
        (module_id as int) < store.modules@.len(),
    ensures
        r is Ok <==> spec_imports_ok(store, module_id as int, imports@),
        r matches Err(e) ==> e is Link,
        r matches Ok(t) ==> {
            &&& t.0@.len() == store.modules@[module_id as int].module.num_imported_funcs
            &&& forall|k: int| 0 <= k < t.0@.len() ==> spec_funcref_valid(store, #[trigger] t.0@[k])
            &&& t.1@.len() == store.modules@[module_id as int].module.num_imported_memories
            &&& forall|k: int|
                0 <= k < t.1@.len() ==> ((#[trigger] t.1@[k]) as int) < store.memories@.len()
            &&& t.2@.len() == store.modules@[module_id as int].module.num_imported_tables
            &&& forall|k: int|
                0 <= k < t.2@.len() ==> ((#[trigger] t.2@[k]) as int) < store.tables@.len()
            &&& t.3@.len() == store.modules@[module_id as int].module.num_imported_globals
            &&& forall|k: int|
                0 <= k < t.3@.len() ==> ((#[trigger] t.3@[k]) as int) < store.globals@.len()
        },
{
    proof {
        reveal_strlit("wrong number of imports provided");
    }
    let m = &store.modules[module_id];
    proof {
        assert(m.wf());
    }
    let ni = m.module.imports.len();
    if imports.len() != ni {
        return Err(InstantiationError::Link(String::from_str("wrong number of imports provided")));
    }
    let mut func_imports: Vec<FuncRef> = Vec::new();
    let mut mem_imports: Vec<usize> = Vec::new();
    let mut table_imports: Vec<usize> = Vec::new();
    let mut global_imports: Vec<usize> = Vec::new();
    proof {
        crate::module::lemma_count_kinds_empty(m.module.imports@);
    }
    let mut k: usize = 0;
    while k < ni
        invariant
            store.wf(),
            (module_id as int) < store.modules@.len(),
            m == &store.modules@[module_id as int],
            m.wf(),
            ni == m.module.imports@.len() == imports@.len(),
            k <= ni,
            forall|j: int|
                0 <= j < k ==> spec_import_matches(
                    store,
                    module_id as int,
                    m.module.imports@[j].2,
                    #[trigger] imports@[j],
                ),
            forall|j: int|
                0 <= j < func_imports@.len() ==> spec_funcref_valid(
                    store,
                    #[trigger] func_imports@[j],
                ),
            forall|j: int|
                0 <= j < mem_imports@.len() ==> ((#[trigger] mem_imports@[j]) as int)
                    < store.memories@.len(),
            forall|j: int|
                0 <= j < table_imports@.len() ==> ((#[trigger] table_imports@[j]) as int)
                    < store.tables@.len(),
            forall|j: int|
                0 <= j < global_imports@.len() ==> ((#[trigger] global_imports@[j]) as int)
                    < store.globals@.len(),
            crate::module::spec_count_kinds(m.module.imports@.subrange(0, k as int)) == (
                func_imports@.len() as int,
                mem_imports@.len() as int,
                table_imports@.len() as int,
                global_imports@.len() as int,
            ),
        decreases ni - k,
    {
        proof {
            assert(m.module.spec_entity_in_range(m.module.imports@[k as int].2));
            crate::module::lemma_count_kinds_step(m.module.imports@, k as int);
        }
        let entity = m.module.imports[k].2;
        let ext = &imports[k];
        match entity {
            EntityIndex::Function(i) => {
                match match_func_import(store, module_id, i, ext) {
                    Ok(fr) => {
                        func_imports.push(fr);
                    }
                    Err(e) => {
                        return Err(e);
                    }
                }
            }
            EntityIndex::Memory(i) => {
                match match_memory_import(store, module_id, i, ext) {
                    Ok(id) => {
                        mem_imports.push(id);
                    }
                    Err(e) => {
                        return Err(e);
                    }
                }
            }
            EntityIndex::Table(i) => {
                match match_table_import(store, module_id, i, ext) {
                    Ok(id) => {
                        table_imports.push(id);
                    }
                    Err(e) => {
                        return Err(e);
                    }
                }
            }
            EntityIndex::Global(i) => {
                match match_global_import(store, module_id, i, ext) {
                    Ok(id) => {
                        global_imports.push(id);
                    }
                    Err(e) => {
                        return Err(e);
                    }
                }
            }
        }
        k += 1;
    }
    proof {
        assert(m.module.imports@.subrange(0, ni as int) =~= m.module.imports@);
    }
    Ok((func_imports, mem_imports, table_imports, global_imports))
}

/// Checks one function import against its declared signature.
fn match_func_import(store: &Store, module_id: usize, i: u32, ext: &Extern) -> (r: Result<
    FuncRef,
    InstantiationError,
>)
    requires
        store.wf(),
        (module_id as int) < store.modules@.len(),
        (i as int) < store.modules@[module_id as int].module.functions@.len(),
    ensures
        r is Ok <==> spec_import_matches(
            store,
            module_id as int,
            EntityIndex::Function(i),
            *ext,
        ),
        r matches Ok(fr) ==> spec_funcref_valid(store, fr),
        r matches Err(e) ==> e is Link,
{
    proof {
        reveal_strlit("incompatible import type");
        assert(store.modules@[module_id as int].wf());
    }
    let m = &store.modules[module_id];
    let f = match ext.func() {
        Some(f) => *f,
        None => {
            return Err(InstantiationError::Link(String::from_str("incompatible import type")));
        }
    };
    if !store.check_funcref(f.kind) {
        return Err(InstantiationError::Link(String::from_str("incompatible import type")));
    }
    let want = m.module.func_signature(i);
    let have = f.ty(store);
    if !have.same_as(want) {
        return Err(InstantiationError::Link(String::from_str("incompatible import type")));
    }
    Ok(f.kind)
}

/// Checks one memory import against its declared limits.
fn match_memory_import(store: &Store, module_id: usize, i: u32, ext: &Extern) -> (r: Result<
    usize,
    InstantiationError,
>)
    requires
        store.wf(),
        (module_id as int) < store.modules@.len(),
        (i as int) < store.modules@[module_id as int].module.memory_plans@.len(),
    ensures
        r is Ok <==> spec_import_matches(store, module_id as int, EntityIndex::Memory(i), *ext),
        r matches Ok(id) ==> (id as int) < store.memories@.len(),
        r matches Err(e) ==> e is Link,
{
    proof {
        reveal_strlit("incompatible import type");
        assert(store.modules@[module_id as int].wf());
    }
    let m = &store.modules[module_id];
    let mem = match ext.memory() {
        Some(mm) => *mm,
        None => {
            return Err(InstantiationError::Link(String::from_str("incompatible import type")));
        }
    };
    if mem.id >= store.memories.len() {
        return Err(InstantiationError::Link(String::from_str("incompatible import type")));
    }
    let have = store.memories[mem.id].ty;
    let want = m.module.memory_plans[i as usize];
    if !limits_match(&have.limits, &want.limits) {
        return Err(InstantiationError::Link(String::from_str("incompatible import type")));
    }
    Ok(mem.id)
}

/// Checks one table import against its declared element type and limits.
fn match_table_import(store: &Store, module_id: usize, i: u32, ext: &Extern) -> (r: Result<
    usize,
    InstantiationError,
>)
    requires
        store.wf(),
        (module_id as int) < store.modules@.len(),
        (i as int) < store.modules@[module_id as int].module.table_plans@.len(),
    ensures
        r is Ok <==> spec_import_matches(store, module_id as int, EntityIndex::Table(i), *ext),
        r matches Ok(id) ==> (id as int) < store.tables@.len(),
        r matches Err(e) ==> e is Link,
{
    proof {
        reveal_strlit("incompatible import type");
        assert(store.modules@[module_id as int].wf());
    }
    let m = &store.modules[module_id];
    let t = match ext.table() {
        Some(t) => *t,
        None => {
            return Err(InstantiationError::Link(String::from_str("incompatible import type")));
        }
    };
    if t.id >= store.tables.len() {
        return Err(InstantiationError::Link(String::from_str("incompatible import type")));
    }
    let have = store.tables[t.id].ty;
    let want = m.module.table_plans[i as usize];
    if !crate::func::val_type_eq(have.element, want.element) || !limits_match(
        &have.limits,
        &want.limits,
    ) {
        return Err(InstantiationError::Link(String::from_str("incompatible import type")));
    }
    Ok(t.id)
}

/// Checks one global import against its declared content type and
/// mutability.
fn match_global_import(store: &Store, module_id: usize, i: u32, ext: &Extern) -> (r: Result<
    usize,
    InstantiationError,
>)
    requires
        store.wf(),
        (module_id as int) < store.modules@.len(),
        (i as int) < store.modules@[module_id as int].module.globals@.len(),
    ensures
        r is Ok <==> spec_import_matches(store, module_id as int, EntityIndex::Global(i), *ext),
        r matches Ok(id) ==> (id as int) < store.globals@.len(),
        r matches Err(e) ==> e is Link,
{
    proof {
        reveal_strlit("incompatible import type");
        assert(store.modules@[module_id as int].wf());
    }
    let m = &store.modules[module_id];
    let g = match ext.global() {
        Some(g) => *g,
        None => {
            return Err(InstantiationError::Link(String::from_str("incompatible import type")));
        }
    };
    if g.id >= store.globals.len() {
        return Err(InstantiationError::Link(String::from_str("incompatible import type")));
    }
    let have = store.globals[g.id].ty;
    let want = m.module.globals[i as usize].ty;
    if !crate::func::val_type_eq(have.content, want.content) || !mutability_eq(
        have.mutability,
        want.mutability,
    ) {
        return Err(InstantiationError::Link(String::from_str("incompatible import type")));
    }
    Ok(g.id)
}

/// Compares two mutability flags.
fn mutability_eq(a: Mutability, b: Mutability) -> (r: bool)
    ensures
        r == (a == b),
{
    a == b
}

/// Allocates the module's defined memories, tables and globals, extending
/// the imported prefix of each index space.  Fails with a resource error
/// when a memory's minimum size cannot be backed.
fn allocate_defined(
    store: &mut Store,
    module_id: usize,
    mem_imports: Vec<usize>,
    table_imports: Vec<usize>,
    global_imports: Vec<usize>,
) -> (r: Result<(Vec<usize>, Vec<usize>, Vec<usize>), InstantiationError>)
    requires
        old(store).wf(),
        (module_id as int) < old(store).modules@.len(),
        mem_imports@.len() == old(store).modules@[module_id as int].module.num_imported_memories,
        forall|k: int|
            0 <= k < mem_imports@.len() ==> ((#[trigger] mem_imports@[k]) as int) < old(store).memories@.len(),
        table_imports@.len() == old(store).modules@[module_id as int].module.num_imported_tables,
        forall|k: int|
            0 <= k < table_imports@.len() ==> ((#[trigger] table_imports@[k]) as int) < old(store).tables@.len(),
        global_imports@.len() == old(store).modules@[module_id as int].module.num_imported_globals,
        forall|k: int|
            0 <= k < global_imports@.len() ==> ((#[trigger] global_imports@[k]) as int) < old(store).globals@.len(),
    ensures
        final(store).wf(),
        final(store).instances == old(store).instances,
        final(store).modules == old(store).modules,
        final(store).host_funcs == old(store).host_funcs,
        final(store).frame_info == old(store).frame_info,
        final(store).signatures == old(store).signatures,
        final(store).engine == old(store).engine,
        final(store).is_async == old(store).is_async,
        final(store).interrupts == old(store).interrupts,
        final(store).instance_count == old(store).instance_count,
        final(store).memory_count == old(store).memory_count,
        final(store).table_count == old(store).table_count,
        spec_memories_allocatable(&old(store).modules@[module_id as int]) ==> r is Ok,
        r matches Ok(t) ==> {
            &&& t.0@.len() == final(store).modules@[module_id as int].module.memory_plans@.len()
            &&& forall|k: int|
                0 <= k < t.0@.len() ==> ((#[trigger] t.0@[k]) as int) < final(store).memories@.len()
            &&& forall|k: int|
                final(store).modules@[module_id as int].module.num_imported_memories <= k < t.0@.len()
                    ==> final(store).memories@[((#[trigger] t.0@[k]) as int)].data@.len()
                    == final(store).modules@[module_id as int].module.memory_plans@[k].limits.min
                    * (WASM_PAGE_SIZE as int)
            &&& t.1@.len() == final(store).modules@[module_id as int].module.table_plans@.len()
            &&& forall|k: int|
                0 <= k < t.1@.len() ==> ((#[trigger] t.1@[k]) as int) < final(store).tables@.len()
            &&& t.2@.len() == final(store).modules@[module_id as int].module.globals@.len()
            &&& forall|k: int|
                0 <= k < t.2@.len() ==> ((#[trigger] t.2@[k]) as int) < final(store).globals@.len()
        },
        r is Err ==> (r matches Err(e) && e is Resource),
{
    proof {
        reveal_strlit("cannot allocate a linear memory of the declared minimum size");
        assert(old(store).modules@[module_id as int].wf());
    }
    let mut memory_ids = mem_imports;
    let mut table_ids = table_imports;
    let mut global_ids = global_imports;
    let nm = store.modules[module_id].module.memory_plans.len();
    let mut i: usize = store.modules[module_id].module.num_imported_memories;
    while i < nm
        invariant
            old(store).wf(),
            store.wf(),
            (module_id as int) < store.modules@.len(),
            store.instances == old(store).instances,
            store.modules == old(store).modules,
            store.host_funcs == old(store).host_funcs,
            store.frame_info == old(store).frame_info,
            store.signatures == old(store).signatures,
            store.engine == old(store).engine,
            store.is_async == old(store).is_async,
            store.interrupts == old(store).interrupts,
            store.instance_count == old(store).instance_count,
            store.memory_count == old(store).memory_count,
            store.table_count == old(store).table_count,
            store.tables == old(store).tables,
            store.globals == old(store).globals,
            nm == store.modules@[module_id as int].module.memory_plans@.len(),
            store.modules@[module_id as int].module.num_imported_memories <= i,
            i <= nm,
            memory_ids@.len() == i as int,
            forall|k: int|
                0 <= k < memory_ids@.len() ==> ((#[trigger] memory_ids@[k]) as int)
                    < store.memories@.len(),
            forall|k: int|
                store.modules@[module_id as int].module.num_imported_memories <= k < i
                    ==> store.memories@[((#[trigger] memory_ids@[k]) as int)].data@.len()
                    == store.modules@[module_id as int].module.memory_plans@[k].limits.min
                    * (WASM_PAGE_SIZE as int),
        decreases nm - i,
    {
        let plan = store.modules[module_id].module.memory_plans[i];
        if (plan.limits.min as u64) > (usize::MAX as u64) / WASM_PAGE_SIZE {
            proof {
                if spec_memories_allocatable(&old(store).modules@[module_id as int]) {
                    vstd::arithmetic::mul::lemma_mul_inequality(
                        ((usize::MAX as u64) / WASM_PAGE_SIZE + 1) as int,
                        plan.limits.min as int,
                        WASM_PAGE_SIZE as int,
                    );
                    assert(false);
                }
            }
            return Err(
                InstantiationError::Resource(
                    String::from_str(
                        "cannot allocate a linear memory of the declared minimum size",
                    ),
                ),
            );
        }
        proof {
            vstd::arithmetic::mul::lemma_mul_inequality(
                plan.limits.min as int,
                ((usize::MAX as u64) / WASM_PAGE_SIZE) as int,
                WASM_PAGE_SIZE as int,
            );
        }
        let mem = Memory::new(store, plan);
        memory_ids.push(mem.id);
        proof {
            assert(mem.id as int == store.memories@.len() - 1);
            assert(store.memories@.last().data@.len() == plan.limits.min * WASM_PAGE_SIZE);
            assert(memory_ids@[i as int] == mem.id);
            assert(store.memories@[mem.id as int].data@.len() == plan.limits.min * (
            WASM_PAGE_SIZE as int));
        }
        i += 1;
    }
    let nt = store.modules[module_id].module.table_plans.len();
    let mut j: usize = store.modules[module_id].module.num_imported_tables;
    while j < nt
        invariant
            old(store).wf(),
            store.wf(),
            (module_id as int) < store.modules@.len(),
            store.instances == old(store).instances,
            store.modules == old(store).modules,
            store.host_funcs == old(store).host_funcs,
            store.frame_info == old(store).frame_info,
            store.signatures == old(store).signatures,
            store.engine == old(store).engine,
            store.is_async == old(store).is_async,
            store.interrupts == old(store).interrupts,
            store.instance_count == old(store).instance_count,
            store.memory_count == old(store).memory_count,
            store.table_count == old(store).table_count,
            store.globals == old(store).globals,
            nt == store.modules@[module_id as int].module.table_plans@.len(),
            j <= nt,
            table_ids@.len() == j as int,
            forall|k: int|
                0 <= k < table_ids@.len() ==> ((#[trigger] table_ids@[k]) as int)
                    < store.tables@.len(),
            memory_ids@.len() == store.modules@[module_id as int].module.memory_plans@.len(),
            forall|k: int|
                0 <= k < memory_ids@.len() ==> ((#[trigger] memory_ids@[k]) as int)
                    < store.memories@.len(),
            forall|k: int|
                store.modules@[module_id as int].module.num_imported_memories <= k
                    < memory_ids@.len() ==> store.memories@[((#[trigger] memory_ids@[k]) as int)].data@.len()
                    == store.modules@[module_id as int].module.memory_plans@[k].limits.min
                    * (WASM_PAGE_SIZE as int),
        decreases nt - j,
    {
        let plan = store.modules[module_id].module.table_plans[j];
        let t = Table::new(store, plan);
        table_ids.push(t.id);
        j += 1;
    }
    let ng = store.modules[module_id].module.globals.len();
    let mut g: usize = store.modules[module_id].module.num_imported_globals;
    while g < ng
        invariant
            old(store).wf(),
            store.wf(),
            (module_id as int) < store.modules@.len(),
            store.instances == old(store).instances,
            store.modules == old(store).modules,
            store.host_funcs == old(store).host_funcs,
            store.frame_info == old(store).frame_info,
            store.signatures == old(store).signatures,
            store.engine == old(store).engine,
            store.is_async == old(store).is_async,
            store.interrupts == old(store).interrupts,
            store.instance_count == old(store).instance_count,
            store.memory_count == old(store).memory_count,
            store.table_count == old(store).table_count,
            ng == store.modules@[module_id as int].module.globals@.len(),
            g <= ng,
            global_ids@.len() == g as int,
            forall|k: int|
                0 <= k < global_ids@.len() ==> ((#[trigger] global_ids@[k]) as int)
                    < store.globals@.len(),
            memory_ids@.len() == store.modules@[module_id as int].module.memory_plans@.len(),
            forall|k: int|
                0 <= k < memory_ids@.len() ==> ((#[trigger] memory_ids@[k]) as int)
                    < store.memories@.len(),
            forall|k: int|
                store.modules@[module_id as int].module.num_imported_memories <= k
                    < memory_ids@.len() ==> store.memories@[((#[trigger] memory_ids@[k]) as int)].data@.len()
                    == store.modules@[module_id as int].module.memory_plans@[k].limits.min
                    * (WASM_PAGE_SIZE as int),
            table_ids@.len() == store.modules@[module_id as int].module.table_plans@.len(),
            forall|k: int|
                0 <= k < table_ids@.len() ==> ((#[trigger] table_ids@[k]) as int)
                    < store.tables@.len(),
        decreases ng - g,
    {
        let decl = store.modules[module_id].module.globals[g];
        let id = store.globals.len();
        let ghost pre = *store;
        store.globals.push(GlobalInstance { ty: decl.ty, value: decl.init });
        proof {
            lemma_pools_grow_keep_valid(&pre, store);
        }
        global_ids.push(id);
        g += 1;
    }
    Ok((memory_ids, table_ids, global_ids))
}

/// Whether every defined memory of a module can be backed at its declared
/// minimum size.
pub open spec fn spec_memories_allocatable(m: &crate::instantiate::CompiledModule) -> bool {
    forall|k: int|
        m.module.num_imported_memories <= k < m.module.memory_plans@.len() ==> (
        #[trigger] m.module.memory_plans@[k]).limits.min * (WASM_PAGE_SIZE as int) <= usize::MAX
}

/// The conditions under which instantiation cannot fail: the import vector
/// satisfies the module's imports, the store's quotas have room, every
/// defined memory is allocatable, the module imports no memories and its
/// data initializers fit the planned sizes, and no start function runs.
pub open spec fn spec_instantiation_unconditional(
    s: &Store,
    module_id: int,
    imports: Seq<Extern>,
) -> bool {
    &&& spec_imports_ok(s, module_id, imports)
    &&& spec_memories_allocatable(&s.modules@[module_id])
    &&& crate::store::spec_saturating_add(s.instance_count as int, 1)
        <= s.engine.config.max_instances
    &&& crate::store::spec_saturating_add(
        s.memory_count as int,
        crate::store::spec_defined_memories(&s.modules@[module_id]),
    ) <= s.engine.config.max_memories
    &&& crate::store::spec_saturating_add(
        s.table_count as int,
        crate::store::spec_defined_tables(&s.modules@[module_id]),
    ) <= s.engine.config.max_tables
    &&& s.modules@[module_id].module.num_imported_memories == 0
    &&& spec_data_inits_fit_plans(&s.modules@[module_id])
    &&& s.modules@[module_id].module.start_func is None
}

/// Whether every data initializer of a module fits the planned minimum
/// size of its target memory.
pub open spec fn spec_data_inits_fit_plans(m: &crate::instantiate::CompiledModule) -> bool {
    forall|j: int|
        0 <= j < m.data_initializers@.len() ==> ((#[trigger] m.data_initializers@[j]).memory_index
            as int) < m.module.memory_plans@.len() && m.data_initializers@[j].offset
            + m.data_initializers@[j].data@.len() <= m.module.memory_plans@[m.data_initializers@[
            j].memory_index as int].limits.min * (WASM_PAGE_SIZE as int)
}

/// Makes a resolved instance visible to the executor.
fn push_instance(
    store: &mut Store,
    module_id: usize,
    func_imports: Vec<FuncRef>,
    memory_ids: Vec<usize>,
    table_ids: Vec<usize>,
    global_ids: Vec<usize>,
) -> (id: usize)
    requires
        old(store).wf(),
        (module_id as int) < old(store).modules@.len(),
        func_imports@.len() == old(store).modules@[module_id as int].module.num_imported_funcs,
        memory_ids@.len() == old(store).modules@[module_id as int].module.memory_plans@.len(),
        table_ids@.len() == old(store).modules@[module_id as int].module.table_plans@.len(),
        global_ids@.len() == old(store).modules@[module_id as int].module.globals@.len(),
        forall|k: int|
            0 <= k < func_imports@.len() ==> spec_funcref_valid(
                old(store),
                #[trigger] func_imports@[k],
            ),
        forall|k: int|
            0 <= k < memory_ids@.len() ==> ((#[trigger] memory_ids@[k]) as int) < old(store).memories@.len(),
        forall|k: int|
            0 <= k < table_ids@.len() ==> ((#[trigger] table_ids@[k]) as int) < old(store).tables@.len(),
        forall|k: int|
            0 <= k < global_ids@.len() ==> ((#[trigger] global_ids@[k]) as int) < old(store).globals@.len(),
    ensures
        final(store).wf(),
        id == old(store).instances@.len(),
        final(store).instances@.len() == old(store).instances@.len() + 1,
        final(store).instances@.last() == (InstanceData {
            module_id,
            func_imports,
            memory_ids,
            table_ids,
            global_ids,
        }),
        final(store).instances@.last().module_id == module_id,
        forall|i: int|
            0 <= i < old(store).instances@.len() ==> final(store).instances@[i] == old(
                store,
            ).instances@[i],
        *final(store) == (Store { instances: final(store).instances, ..*old(store) }),
{
    let id = store.instances.len();
    store.instances.push(
        InstanceData { module_id, func_imports, memory_ids, table_ids, global_ids },
    );
    proof {
        assert forall|i: int| 0 <= i < store.instances@.len() implies spec_instance_valid(
            store,
            #[trigger] &store.instances@[i],
        ) by {
            if i < old(store).instances@.len() {
                assert(spec_instance_valid(old(store), &old(store).instances@[i]));
                assert forall|k: int|
                    0 <= k < store.instances@[i].func_imports@.len() implies spec_funcref_valid(
                    store,
                    #[trigger] store.instances@[i].func_imports@[k],
                ) by {
                    assert(spec_funcref_valid(old(store), old(store).instances@[i].func_imports@[k]));
                }
            } else {
                assert forall|k: int|
                    0 <= k < store.instances@[i].func_imports@.len() implies spec_funcref_valid(
                    store,
                    #[trigger] store.instances@[i].func_imports@[k],
                ) by {
                    assert(spec_funcref_valid(old(store), func_imports@[k]));
                }
            }
        }
    }
    id
}

/// Destroys the youngest instance; used when initialization or the start
/// function fails.
fn pop_instance(store: &mut Store)
    requires
        old(store).wf(),
        old(store).instances@.len() > 0,
        forall|i: int|
            0 <= i < old(store).instances@.len() - 1 ==> spec_instance_valid_against(
                old(store),
                i,
            ),
    ensures
        final(store).wf(),
        final(store).instances@ == old(store).instances@.drop_last(),
        *final(store) == (Store { instances: final(store).instances, ..*old(store) }),
{
    store.instances.pop();
    proof {
        assert forall|i: int| 0 <= i < store.instances@.len() implies spec_instance_valid(
            store,
            #[trigger] &store.instances@[i],
        ) by {
            assert(spec_instance_valid_against(old(store), i));
            assert(store.instances@[i] == old(store).instances@[i]);
            assert forall|k: int|
                0 <= k < store.instances@[i].func_imports@.len() implies spec_funcref_valid(
                store,
                #[trigger] store.instances@[i].func_imports@[k],
            ) by {
                assert(spec_funcref_shrunk_valid(
                    old(store),
                    old(store).instances@[i].func_imports@[k],
                ));
            }
        }
    }
}

/// Validity of the `i`-th instance against a store shrunk by one instance:
/// all its function references stay below the removed index.
pub open spec fn spec_instance_valid_against(s: &Store, i: int) -> bool {
    &&& (s.instances@[i].module_id as int) < s.modules@.len()
    &&& s.instances@[i].func_imports@.len() == s.modules@[s.instances@[i].module_id as int].module.num_imported_funcs
    &&& s.instances@[i].memory_ids@.len() == s.modules@[s.instances@[i].module_id as int].module.memory_plans@.len()
    &&& s.instances@[i].table_ids@.len() == s.modules@[s.instances@[i].module_id as int].module.table_plans@.len()
    &&& s.instances@[i].global_ids@.len() == s.modules@[s.instances@[i].module_id as int].module.globals@.len()
    &&& forall|k: int|
        0 <= k < s.instances@[i].func_imports@.len() ==> spec_funcref_shrunk_valid(
            s,
            #[trigger] s.instances@[i].func_imports@[k],
        )
    &&& forall|k: int|
        0 <= k < s.instances@[i].memory_ids@.len() ==> ((#[trigger] s.instances@[i].memory_ids@[k]) as int)
            < s.memories@.len()
    &&& forall|k: int|
        0 <= k < s.instances@[i].table_ids@.len() ==> ((#[trigger] s.instances@[i].table_ids@[k]) as int)
            < s.tables@.len()
    &&& forall|k: int|
        0 <= k < s.instances@[i].global_ids@.len() ==> ((#[trigger] s.instances@[i].global_ids@[k]) as int)
            < s.globals@.len()
}

/// Function-reference validity avoiding the youngest instance.
pub open spec fn spec_funcref_shrunk_valid(s: &Store, r: FuncRef) -> bool {
    match r {
        FuncRef::Host(h) => (h as int) < s.host_funcs@.len(),
        FuncRef::Wasm { instance, index } => {
            &&& (instance as int) < s.instances@.len() - 1
            &&& (s.instances@[instance as int].module_id as int) < s.modules@.len()
            &&& (index as int) < s.modules@[s.instances@[instance as int].module_id as int].module.functions@.len()
            &&& (index as int) >= s.modules@[s.instances@[instance as int].module_id as int].module.num_imported_funcs
        },
    }
}

/// Applies the module's data initializers to the instance's memories.
/// Every segment is bounds-checked first; an out-of-bounds segment fails
/// with a link error before any byte is written.
fn apply_data_initializers(store: &mut Store, instance_id: usize) -> (r: Result<
    (),
    InstantiationError,
>)
    requires
        old(store).wf(),
        (instance_id as int) < old(store).instances@.len(),
    ensures
        final(store).wf(),
        *final(store) == (Store { memories: final(store).memories, ..*old(store) }),
        final(store).memories@.len() == old(store).memories@.len(),
        forall|k: int|
            0 <= k < final(store).memories@.len() ==> (#[trigger] final(store).memories@[k]).data@.len()
                == old(store).memories@[k].data@.len(),
        r is Err ==> final(store).memories == old(store).memories,
        r matches Err(e) ==> e is Link,
        (forall|j: int|
            0 <= j < old(store).modules@[old(store).instances@[instance_id as int].module_id as int].data_initializers@.len()
                ==> spec_data_init_fits(old(store), instance_id as int, j)) ==> r is Ok,
{
    proof {
        reveal_strlit("data segment does not fit");
        assert(spec_instance_valid(old(store), &old(store).instances@[instance_id as int]));
        assert(old(store).modules@[old(store).instances@[instance_id as int].module_id as int].wf());
    }
    let mid = store.instances[instance_id].module_id;
    let nd = store.modules[mid].data_initializers.len();
    // First pass: check every segment's bounds.
    let mut d: usize = 0;
    while d < nd
        invariant
            store.wf(),
            *store == *old(store),
            (instance_id as int) < store.instances@.len(),
            mid == store.instances@[instance_id as int].module_id,
            (mid as int) < store.modules@.len(),
            nd == store.modules@[mid as int].data_initializers@.len(),
            d <= nd,
            spec_instance_valid(store, &store.instances@[instance_id as int]),
            forall|j: int|
                0 <= j < d ==> spec_data_init_fits(store, instance_id as int, j),
        decreases nd - d,
    {
        let seg_mem = store.modules[mid].data_initializers[d].memory_index;
        let seg_off = store.modules[mid].data_initializers[d].offset;
        let seg_len = store.modules[mid].data_initializers[d].data.len();
        if (seg_mem as usize) >= store.instances[instance_id].memory_ids.len() {
            proof {
                assert(!spec_data_init_fits(store, instance_id as int, d as int));
            }
            return Err(InstantiationError::Link(String::from_str("data segment does not fit")));
        }
        let gid = store.instances[instance_id].memory_ids[seg_mem as usize];
        let cap = store.memories[gid].data.len();
        if seg_off > (cap as u64) || (seg_len as u64) > (cap as u64) - seg_off {
            proof {
                assert(!spec_data_init_fits(store, instance_id as int, d as int));
            }
            return Err(InstantiationError::Link(String::from_str("data segment does not fit")));
        }
        d += 1;
    }
    // Second pass: every segment fits; copy the bytes.
    let mut w: usize = 0;
    while w < nd
        invariant
            store.wf(),
            (instance_id as int) < old(store).instances@.len(),
            *store == (Store { memories: store.memories, ..*old(store) }),
            store.memories@.len() == old(store).memories@.len(),
            forall|k: int|
                0 <= k < store.memories@.len() ==> (#[trigger] store.memories@[k]).data@.len()
                    == old(store).memories@[k].data@.len(),
            mid == store.instances@[instance_id as int].module_id,
            (mid as int) < store.modules@.len(),
            nd == store.modules@[mid as int].data_initializers@.len(),
            w <= nd,
            spec_instance_valid(store, &store.instances@[instance_id as int]),
            forall|j: int|
                0 <= j < nd ==> spec_data_init_fits(store, instance_id as int, j),
        decreases nd - w,
    {
        proof {
            assert(spec_data_init_fits(store, instance_id as int, w as int));
            assert(spec_instance_valid(store, &store.instances@[instance_id as int]));
        }
        let seg_mem = store.modules[mid].data_initializers[w].memory_index;
        let gid = store.instances[instance_id].memory_ids[seg_mem as usize];
        let seg_off = store.modules[mid].data_initializers[w].offset;
        let cap = store.memories[gid].data.len();
        proof {
            assert(seg_off <= cap);
        }
        let ghost pre = *store;
        memory_write_segment(store, gid, mid, w, seg_off as usize);
        proof {
            assert forall|j: int|
                0 <= j < nd implies spec_data_init_fits(store, instance_id as int, j) by {
                assert(spec_data_init_fits(&pre, instance_id as int, j));
            }
        }
        w += 1;
    }
    Ok(())
}

/// Whether data initializer `j` of the instance's module fits its target
/// memory.
pub open spec fn spec_data_init_fits(s: &Store, instance_id: int, j: int) -> bool {
    let inst = &s.instances@[instance_id];
    let m = &s.modules@[inst.module_id as int];
    let seg = &m.data_initializers@[j];
    &&& (seg.memory_index as int) < inst.memory_ids@.len()
    &&& seg.offset + seg.data@.len() <= s.memories@[inst.memory_ids@[seg.memory_index as int] as int].data@.len()
}

/// Copies one data segment into its target memory.
fn memory_write_segment(store: &mut Store, gid: usize, mid: usize, seg: usize, offset: usize)
    requires
        old(store).wf(),
        (gid as int) < old(store).memories@.len(),
        (mid as int) < old(store).modules@.len(),
        (seg as int) < old(store).modules@[mid as int].data_initializers@.len(),
        offset + old(store).modules@[mid as int].data_initializers@[seg as int].data@.len() <= old(store).memories@[gid as int].data@.len(),
    ensures
        final(store).wf(),
        *final(store) == (Store { memories: final(store).memories, ..*old(store) }),
        final(store).memories@.len() == old(store).memories@.len(),
        forall|k: int|
            0 <= k < final(store).memories@.len() ==> (#[trigger] final(store).memories@[k]).data@.len()
                == old(store).memories@[k].data@.len(),
        forall|k: int|
            0 <= k < final(store).memories@.len() && k != gid ==> final(store).memories@[k] == old(store).memories@[k],
        final(store).memories@[gid as int].ty == old(store).memories@[gid as int].ty,
        forall|b: int|
            0 <= b < old(store).modules@[mid as int].data_initializers@[seg as int].data@.len()
                ==> final(store).memories@[gid as int].data@[offset + b] == old(store).modules@[mid as int].data_initializers@[seg as int].data@[b],
        forall|b: int|
            0 <= b < old(store).memories@[gid as int].data@.len() && !(offset <= b < offset + old(store).modules@[mid as int].data_initializers@[seg as int].data@.len()) ==> final(store).memories@[gid as int].data@[b] == old(store).memories@[gid as int].data@[b],
{
    let ty = store.memories[gid].ty;
    let total = store.memories[gid].data.len();
    let seg_len = store.modules[mid].data_initializers[seg].data.len();
    let mut data: Vec<u8> = Vec::new();
    let mut b: usize = 0;
    while b < total
        invariant
            store.wf(),
            *store == *old(store),
            (gid as int) < store.memories@.len(),
            (mid as int) < store.modules@.len(),
            (seg as int) < store.modules@[mid as int].data_initializers@.len(),
            total == store.memories@[gid as int].data@.len(),
            seg_len == store.modules@[mid as int].data_initializers@[seg as int].data@.len(),
            offset + seg_len <= total,
            b <= total,
            data@.len() == b as int,
            forall|x: int|
                0 <= x < b && offset <= x < offset + seg_len ==> data@[x] == store.modules@[
                    mid as int].data_initializers@[seg as int].data@[x - offset],
            forall|x: int|
                0 <= x < b && !(offset <= x < offset + seg_len) ==> data@[x] == store.memories@[
                    gid as int].data@[x],
        decreases total - b,
    {
        if offset <= b && b < offset + seg_len {
            data.push(store.modules[mid].data_initializers[seg].data[b - offset]);
        } else {
            data.push(store.memories[gid].data[b]);
        }
        b += 1;
    }
    store.memories[gid] = MemoryInstance { ty, data };
    proof {
        assert forall|i: int| 0 <= i < store.instances@.len() implies spec_instance_valid(
            store,
            #[trigger] &store.instances@[i],
        ) by {
            assert(spec_instance_valid(old(store), &old(store).instances@[i]));
            assert forall|k: int|
                0 <= k < store.instances@[i].func_imports@.len() implies spec_funcref_valid(
                store,
                #[trigger] store.instances@[i].func_imports@[k],
            ) by {
                assert(spec_funcref_valid(old(store), old(store).instances@[i].func_imports@[k]));
            }
        }
    }
}

/// Runs the module's start function, if one is declared.  Traps or start
/// failures are surfaced to the caller; the store's instances, modules and
/// registries are untouched.
fn run_start(store: &mut Store, instance_id: usize) -> (r: Result<(), Trap>)
    requires
        old(store).wf(),
        !old(store).is_async,
        (instance_id as int) < old(store).instances@.len(),
    ensures
        final(store).wf(),
        crate::func::spec_store_preserved(old(store), final(store)),
        old(store).modules@[old(store).instances@[instance_id as int].module_id as int].module.start_func
            is None ==> r is Ok && *final(store) == *old(store),
        // A start trap carries a consistent message and source: the host's
        // message verbatim, or the stable rendering of the fault's kind.
        r matches Err(t) ==> crate::func::spec_trap_source_wf(final(store), &t),
{
    proof {
        assert(spec_instance_valid(old(store), &old(store).instances@[instance_id as int]));
        assert(old(store).modules@[old(store).instances@[instance_id as int].module_id as int].wf());
    }
    let mid = store.instances[instance_id].module_id;
    let start = match start_func_of(store, mid) {
        Some(f) => f,
        None => {
            return Ok(());
        }
    };
    let num_imported = store.modules[mid].module.num_imported_funcs;
    if (start as usize) < num_imported {
        let callee = store.instances[instance_id].func_imports[start as usize];
        match callee {
            FuncRef::Host(h) => {
                match host_start_outcome(store, h) {
                    None => Ok(()),
                    Some(message) => {
                        let t = Trap::new(message);
                        proof {
                            assert(store.host_funcs@[h as int].behavior matches
                                HostBehavior::TrapMsg(m) && t.message == m);
                        }
                        Err(t)
                    }
                }
            }
            FuncRef::Wasm { instance, index } => {
                let mut frames: Vec<WasmFrame> = Vec::new();
                run_function(store, &mut frames, instance, index)
            }
        }
    } else {
        let mut frames: Vec<WasmFrame> = Vec::new();
        run_function(store, &mut frames, instance_id, start)
    }
}

/// Reads the start function index of a module.
fn start_func_of(store: &Store, mid: usize) -> (r: Option<u32>)
    requires
        (mid as int) < store.modules@.len(),
    ensures
        r == store.modules@[mid as int].module.start_func,
{
    store.modules[mid].module.start_func
}

/// Reads a host start function's outcome.
fn host_start_outcome(store: &Store, h: usize) -> (r: Option<String>)
    requires
        store.wf(),
        (h as int) < store.host_funcs@.len(),
    ensures
        match r {
            Some(m) => store.host_funcs@[h as int].behavior matches HostBehavior::TrapMsg(t)
                && m == t,
            None => store.host_funcs@[h as int].behavior is Return,
        },
{
    match &store.host_funcs[h].behavior {
        HostBehavior::Return(_) => None,
        HostBehavior::TrapMsg(m) => Some(m.clone()),
    }
}

} // verus!
