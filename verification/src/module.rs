//! The parsed shape of a validated Wasm module.
//!
//! A [`Module`] is the output of the external parser/validator: the lists of
//! imports, exports, function signatures, memory/table/global declarations,
//! the start function, and the name section.  It is immutable after
//! translation; the builder methods here are the module environment the
//! translator fills in, entity by entity.

use vstd::prelude::*;

use crate::types::{ExternType, FuncType, GlobalType, MemoryType, TableType, ValType};
use crate::sig_registry::clone_val_types;
use crate::values::Val;

verus! {

/// An index of an entity in a module: imported entities come first in each
/// index space, defined entities follow.
#[derive(Debug, Clone, Copy, PartialEq, Eq, Structural)]
pub enum EntityIndex {
    /// A function index.
    Function(u32),
    /// A table index.
    Table(u32),
    /// A memory index.
    Memory(u32),
    /// A global index.
    Global(u32),
}

/// A global declaration: its type and its constant initializer.
#[derive(Debug, Clone, Copy)]
pub struct GlobalDecl {
    /// The type of the global.
    pub ty: GlobalType,
    /// The value the global starts with.
    pub init: Val,
}

/// Copies a function type.
pub fn clone_func_type(f: &FuncType) -> (r: FuncType)
    ensures
        r@ == f@,
{
    FuncType::new(clone_val_types(&f.params), clone_val_types(&f.results))
}


/// Counts the import kinds in a prefix of an import list: functions,
/// memories, tables, globals.
#[verifier::opaque]
pub open spec fn spec_count_kinds(imports: Seq<(String, String, EntityIndex)>) -> (int, int, int, int)
    decreases imports.len(),
{
    if imports.len() == 0 {
        (0, 0, 0, 0)
    } else {
        let rest = spec_count_kinds(imports.drop_last());
        match imports.last().2 {
            EntityIndex::Function(_) => (rest.0 + 1, rest.1, rest.2, rest.3),
            EntityIndex::Memory(_) => (rest.0, rest.1 + 1, rest.2, rest.3),
            EntityIndex::Table(_) => (rest.0, rest.1, rest.2 + 1, rest.3),
            EntityIndex::Global(_) => (rest.0, rest.1, rest.2, rest.3 + 1),
        }
    }
}

/// The validated shape of a module, immutable after translation.
#[derive(Debug)]
pub struct Module {
    /// The module's name, if it has one.
    pub name: Option<String>,
    /// The module's signature table.
    pub signatures: Vec<FuncType>,
    /// For every function index, imported functions first, the index of its
    /// signature in `signatures`.
    pub functions: Vec<u32>,
    /// How many of `functions` are imported.
    pub num_imported_funcs: usize,
    /// For every function index, its name from the name section.
    pub func_names: Vec<Option<String>>,
    /// The module's imports: import module name, field name, and the entity
    /// the import fills.
    pub imports: Vec<(String, String, EntityIndex)>,
    /// The module's exports.
    pub exports: Vec<(String, EntityIndex)>,
    /// The start function, if one is declared.
    pub start_func: Option<u32>,
    /// The module's memories, imported first.
    pub memory_plans: Vec<MemoryType>,
    /// How many of `memory_plans` are imported.
    pub num_imported_memories: usize,
    /// The module's tables, imported first.
    pub table_plans: Vec<TableType>,
    /// How many of `table_plans` are imported.
    pub num_imported_tables: usize,
    /// The module's globals, imported first.
    pub globals: Vec<GlobalDecl>,
    /// How many of `globals` are imported.
    pub num_imported_globals: usize,
}

impl Module {
    /// Well-formedness of the translated shape: every index is in range and
    /// the imported prefix of each index space is consistent.
    pub open spec fn wf(&self) -> bool {
        &&& self.functions@.len() <= u32::MAX
        &&& forall|i: int|
            0 <= i < self.functions@.len() ==> ((#[trigger] self.functions@[i]) as int)
                < self.signatures@.len()
        &&& self.func_names@.len() == self.functions@.len()
        &&& self.num_imported_funcs <= self.functions@.len()
        &&& self.num_imported_memories <= self.memory_plans@.len()
        &&& self.num_imported_tables <= self.table_plans@.len()
        &&& self.num_imported_globals <= self.globals@.len()
        &&& forall|i: int|
            0 <= i < self.imports@.len() ==> self.spec_entity_in_range(
                (#[trigger] self.imports@[i]).2,
            )
        &&& forall|i: int|
            0 <= i < self.exports@.len() ==> self.spec_entity_in_range(
                (#[trigger] self.exports@[i]).1,
            )
        &&& match self.start_func {
            Some(f) => (f as int) < self.functions@.len(),
            None => true,
        }
        &&& spec_count_kinds(self.imports@) == (
            self.num_imported_funcs as int,
            self.num_imported_memories as int,
            self.num_imported_tables as int,
            self.num_imported_globals as int,
        )
        &&& forall|k: int|
            0 <= k < self.imports@.len() ==> spec_import_positional(
                self.imports@,
                k,
                (#[trigger] self.imports@[k]).2,
            )
    }


    /// Whether an entity index refers to a declared entity.
    pub open spec fn spec_entity_in_range(&self, e: EntityIndex) -> bool {
        match e {
            EntityIndex::Function(i) => (i as int) < self.functions@.len(),
            EntityIndex::Table(i) => (i as int) < self.table_plans@.len(),
            EntityIndex::Memory(i) => (i as int) < self.memory_plans@.len(),
            EntityIndex::Global(i) => (i as int) < self.globals@.len(),
        }
    }

    /// Creates an empty module with the given name.
    pub fn new(name: Option<String>) -> (r: Module)
        ensures
            r.wf(),
            r.name == name,
            r.functions@.len() == 0,
            r.signatures@.len() == 0,
            r.imports@.len() == 0,
            r.exports@.len() == 0,
            r.start_func is None,
            r.memory_plans@.len() == 0,
            r.table_plans@.len() == 0,
            r.globals@.len() == 0,
    {
        let r = Module {
            name,
            signatures: Vec::new(),
            functions: Vec::new(),
            num_imported_funcs: 0,
            func_names: Vec::new(),
            imports: Vec::new(),
            exports: Vec::new(),
            start_func: None,
            memory_plans: Vec::new(),
            num_imported_memories: 0,
            table_plans: Vec::new(),
            num_imported_tables: 0,
            globals: Vec::new(),
            num_imported_globals: 0,
        };
        proof {
            reveal(crate::module::spec_count_kinds);
        }
        r
    }

    /// Declares a signature, returning its index in the signature table.
    pub fn declare_signature(&mut self, ty: FuncType) -> (idx: u32)
        requires
            old(self).wf(),
            old(self).signatures@.len() < u32::MAX,
        ensures
            final(self).wf(),
            idx as int == old(self).signatures@.len(),
            final(self).signatures@ == old(self).signatures@.push(ty),
            final(self).functions == old(self).functions,
            final(self).imports == old(self).imports,
            final(self).exports == old(self).exports,
            final(self).name == old(self).name,
            final(self).num_imported_funcs == old(self).num_imported_funcs,
            final(self).func_names == old(self).func_names,
            final(self).start_func == old(self).start_func,
            final(self).memory_plans == old(self).memory_plans,
            final(self).table_plans == old(self).table_plans,
            final(self).globals == old(self).globals,
    {
        let idx = self.signatures.len() as u32;
        self.signatures.push(ty);
        idx
    }

    /// Declares a function import; must precede defined functions.
    pub fn import_func(&mut self, module: String, field: String, sig: u32) -> (idx: u32)
        requires
            old(self).wf(),
            old(self).num_imported_funcs == old(self).functions@.len(),
            old(self).functions@.len() < u32::MAX,
            (sig as int) < old(self).signatures@.len(),
        ensures
            final(self).wf(),
            idx as int == old(self).functions@.len(),
            final(self).functions@ == old(self).functions@.push(sig),
            final(self).func_names@ == old(self).func_names@.push(None::<String>),
            final(self).num_imported_funcs == old(self).num_imported_funcs + 1,
            final(self).imports@ == old(self).imports@.push(
                (module, field, EntityIndex::Function(idx)),
            ),
            final(self).signatures == old(self).signatures,
            final(self).exports == old(self).exports,
            final(self).name == old(self).name,
            final(self).start_func == old(self).start_func,
            final(self).memory_plans == old(self).memory_plans,
            final(self).table_plans == old(self).table_plans,
            final(self).globals == old(self).globals,
    {
        let idx = self.functions.len() as u32;
        self.functions.push(sig);
        self.func_names.push(None);
        self.num_imported_funcs = self.num_imported_funcs + 1;
        let ghost pre_imports = self.imports@;
        let entry = (module, field, EntityIndex::Function(idx));
        proof {
            lemma_count_kinds_push(pre_imports, entry);
            assert(pre_imports.subrange(0, pre_imports.len() as int) =~= pre_imports);
        }
        self.imports.push(entry);
        idx
    }

    /// Declares a defined function with its signature and optional name,
    /// returning its function index.
    pub fn define_func(&mut self, sig: u32, name: Option<String>) -> (idx: u32)
        requires
            old(self).wf(),
            old(self).functions@.len() < u32::MAX,
            (sig as int) < old(self).signatures@.len(),
        ensures
            final(self).wf(),
            idx as int == old(self).functions@.len(),
            final(self).functions@ == old(self).functions@.push(sig),
            final(self).func_names@ == old(self).func_names@.push(name),
            final(self).num_imported_funcs == old(self).num_imported_funcs,
            final(self).signatures == old(self).signatures,
            final(self).imports == old(self).imports,
            final(self).exports == old(self).exports,
            final(self).name == old(self).name,
            final(self).start_func == old(self).start_func,
            final(self).memory_plans == old(self).memory_plans,
            final(self).table_plans == old(self).table_plans,
            final(self).globals == old(self).globals,
    {
        let idx = self.functions.len() as u32;
        self.functions.push(sig);
        self.func_names.push(name);
        idx
    }

    /// Declares an export of an already declared entity.
    pub fn declare_export(&mut self, name: String, entity: EntityIndex)
        requires
            old(self).wf(),
            old(self).spec_entity_in_range(entity),
        ensures
            final(self).wf(),
            final(self).exports@ == old(self).exports@.push((name, entity)),
            final(self).functions == old(self).functions,
            final(self).signatures == old(self).signatures,
            final(self).imports == old(self).imports,
            final(self).num_imported_funcs == old(self).num_imported_funcs,
            final(self).func_names == old(self).func_names,
            final(self).name == old(self).name,
            final(self).start_func == old(self).start_func,
            final(self).memory_plans == old(self).memory_plans,
            final(self).table_plans == old(self).table_plans,
            final(self).globals == old(self).globals,
    {
        self.exports.push((name, entity));
    }

    /// Declares the start function.
    pub fn declare_start(&mut self, func: u32)
        requires
            old(self).wf(),
            (func as int) < old(self).functions@.len(),
        ensures
            final(self).wf(),
            final(self).start_func == Some(func),
            *final(self) == (Module { start_func: Some(func), ..*old(self) }),
    {
        self.start_func = Some(func);
    }

    /// Declares a defined memory, returning its memory index.
    pub fn declare_memory(&mut self, ty: MemoryType) -> (idx: u32)
        requires
            old(self).wf(),
            old(self).memory_plans@.len() < u32::MAX,
        ensures
            final(self).wf(),
            idx as int == old(self).memory_plans@.len(),
            *final(self) == (Module { memory_plans: final(self).memory_plans, ..*old(self) }),
            final(self).memory_plans@ == old(self).memory_plans@.push(ty),
    {
        let idx = self.memory_plans.len() as u32;
        self.memory_plans.push(ty);
        idx
    }

    /// Declares a memory import; must precede defined memories.
    pub fn import_memory(&mut self, module: String, field: String, ty: MemoryType) -> (idx: u32)
        requires
            old(self).wf(),
            old(self).num_imported_memories == old(self).memory_plans@.len(),
            old(self).memory_plans@.len() < u32::MAX,
        ensures
            final(self).wf(),
            idx as int == old(self).memory_plans@.len(),
            final(self).memory_plans@ == old(self).memory_plans@.push(ty),
            final(self).num_imported_memories == old(self).num_imported_memories + 1,
            final(self).imports@ == old(self).imports@.push(
                (module, field, EntityIndex::Memory(idx)),
            ),
            final(self).functions == old(self).functions,
            final(self).exports == old(self).exports,
            final(self).signatures == old(self).signatures,
            final(self).globals == old(self).globals,
            final(self).table_plans == old(self).table_plans,
    {
        let idx = self.memory_plans.len() as u32;
        self.memory_plans.push(ty);
        self.num_imported_memories = self.num_imported_memories + 1;
        let ghost pre_imports = self.imports@;
        let entry = (module, field, EntityIndex::Memory(idx));
        proof {
            lemma_count_kinds_push(pre_imports, entry);
            assert(pre_imports.subrange(0, pre_imports.len() as int) =~= pre_imports);
        }
        self.imports.push(entry);
        idx
    }

    /// Declares a table import; must precede defined tables.
    pub fn import_table(&mut self, module: String, field: String, ty: TableType) -> (idx: u32)
        requires
            old(self).wf(),
            old(self).num_imported_tables == old(self).table_plans@.len(),
            old(self).table_plans@.len() < u32::MAX,
        ensures
            final(self).wf(),
            idx as int == old(self).table_plans@.len(),
            final(self).table_plans@ == old(self).table_plans@.push(ty),
            final(self).num_imported_tables == old(self).num_imported_tables + 1,
            final(self).imports@ == old(self).imports@.push(
                (module, field, EntityIndex::Table(idx)),
            ),
            final(self).functions == old(self).functions,
            final(self).exports == old(self).exports,
            final(self).signatures == old(self).signatures,
            final(self).globals == old(self).globals,
            final(self).memory_plans == old(self).memory_plans,
    {
        let idx = self.table_plans.len() as u32;
        self.table_plans.push(ty);
        self.num_imported_tables = self.num_imported_tables + 1;
        let ghost pre_imports = self.imports@;
        let entry = (module, field, EntityIndex::Table(idx));
        proof {
            lemma_count_kinds_push(pre_imports, entry);
            assert(pre_imports.subrange(0, pre_imports.len() as int) =~= pre_imports);
        }
        self.imports.push(entry);
        idx
    }

    /// Declares a global import; must precede defined globals.
    pub fn import_global(&mut self, module: String, field: String, ty: GlobalType, init: Val) -> (idx:
        u32)
        requires
            old(self).wf(),
            old(self).num_imported_globals == old(self).globals@.len(),
            old(self).globals@.len() < u32::MAX,
        ensures
            final(self).wf(),
            idx as int == old(self).globals@.len(),
            final(self).globals@ == old(self).globals@.push(GlobalDecl { ty, init }),
            final(self).num_imported_globals == old(self).num_imported_globals + 1,
            final(self).imports@ == old(self).imports@.push(
                (module, field, EntityIndex::Global(idx)),
            ),
            final(self).functions == old(self).functions,
            final(self).exports == old(self).exports,
            final(self).signatures == old(self).signatures,
            final(self).memory_plans == old(self).memory_plans,
            final(self).table_plans == old(self).table_plans,
    {
        let idx = self.globals.len() as u32;
        self.globals.push(GlobalDecl { ty, init });
        self.num_imported_globals = self.num_imported_globals + 1;
        let ghost pre_imports = self.imports@;
        let entry = (module, field, EntityIndex::Global(idx));
        proof {
            lemma_count_kinds_push(pre_imports, entry);
            assert(pre_imports.subrange(0, pre_imports.len() as int) =~= pre_imports);
        }
        self.imports.push(entry);
        idx
    }

    /// The number of defined (non-imported) functions.
    pub fn num_defined_funcs(&self) -> (r: usize)
        requires
            self.wf(),
        ensures
            r == self.functions@.len() - self.num_imported_funcs,
    {
        self.functions.len() - self.num_imported_funcs
    }

    /// The defined-function index of function `i`, when `i` is not imported.
    pub fn defined_func_index(&self, i: u32) -> (r: Option<u32>)
        requires
            self.wf(),
        ensures
            match r {
                Some(d) => i as int >= self.num_imported_funcs && d as int == i as int - self.num_imported_funcs,
                None => (i as int) < self.num_imported_funcs,
            },
    {
        if (i as usize) >= self.num_imported_funcs {
            Some(((i as usize) - self.num_imported_funcs) as u32)
        } else {
            None
        }
    }

    /// The external type of a declared entity, as the embedding API reports
    /// it.
    pub fn extern_type_of(&self, e: &EntityIndex) -> (r: ExternType)
        requires
            self.wf(),
            self.spec_entity_in_range(*e),
        ensures
            match *e {
                EntityIndex::Function(i) => r matches ExternType::Func(ft) && ft@
                    == self.signatures@[self.functions@[i as int] as int]@,
                EntityIndex::Table(i) => r matches ExternType::Table(t) && t
                    == self.table_plans@[i as int],
                EntityIndex::Memory(i) => r matches ExternType::Memory(m) && m
                    == self.memory_plans@[i as int],
                EntityIndex::Global(i) => r matches ExternType::Global(g) && g
                    == self.globals@[i as int].ty,
            },
    {
        match e {
            EntityIndex::Function(i) => {
                let sig = self.functions[*i as usize];
                ExternType::Func(clone_func_type(&self.signatures[sig as usize]))
            }
            EntityIndex::Table(i) => ExternType::Table(self.table_plans[*i as usize]),
            EntityIndex::Memory(i) => ExternType::Memory(self.memory_plans[*i as usize]),
            EntityIndex::Global(i) => ExternType::Global(self.globals[*i as usize].ty),
        }
    }

    /// The signature of function `i`.
    pub fn func_signature(&self, i: u32) -> (r: &FuncType)
        requires
            self.wf(),
            (i as int) < self.functions@.len(),
        ensures
            r == &self.signatures@[self.functions@[i as int] as int],
    {
        let sig = self.functions[i as usize];
        &self.signatures[sig as usize]
    }
}



/// Whether the import at position `k` of `imports` fills the next slot of
/// its index space.
pub open spec fn spec_import_positional(
    imports: Seq<(String, String, EntityIndex)>,
    k: int,
    e: EntityIndex,
) -> bool {
    match e {
        EntityIndex::Function(i) => i as int == spec_count_kinds(imports.subrange(0, k)).0,
        EntityIndex::Memory(i) => i as int == spec_count_kinds(imports.subrange(0, k)).1,
        EntityIndex::Table(i) => i as int == spec_count_kinds(imports.subrange(0, k)).2,
        EntityIndex::Global(i) => i as int == spec_count_kinds(imports.subrange(0, k)).3,
    }
}

/// Pushing an import leaves every earlier position's prefix counts alone.
pub proof fn lemma_count_kinds_push(
    imports: Seq<(String, String, EntityIndex)>,
    entry: (String, String, EntityIndex),
)
    ensures
        spec_count_kinds(imports.push(entry)) == match entry.2 {
            EntityIndex::Function(_) => (
                spec_count_kinds(imports).0 + 1,
                spec_count_kinds(imports).1,
                spec_count_kinds(imports).2,
                spec_count_kinds(imports).3,
            ),
            EntityIndex::Memory(_) => (
                spec_count_kinds(imports).0,
                spec_count_kinds(imports).1 + 1,
                spec_count_kinds(imports).2,
                spec_count_kinds(imports).3,
            ),
            EntityIndex::Table(_) => (
                spec_count_kinds(imports).0,
                spec_count_kinds(imports).1,
                spec_count_kinds(imports).2 + 1,
                spec_count_kinds(imports).3,
            ),
            EntityIndex::Global(_) => (
                spec_count_kinds(imports).0,
                spec_count_kinds(imports).1,
                spec_count_kinds(imports).2,
                spec_count_kinds(imports).3 + 1,
            ),
        },
        forall|k: int|
            0 <= k <= imports.len() ==> #[trigger] imports.push(entry).subrange(0, k)
                =~= imports.subrange(0, k),
{
    reveal(crate::module::spec_count_kinds);
    assert(imports.push(entry).drop_last() =~= imports);
    assert forall|k: int| 0 <= k <= imports.len() implies #[trigger] imports.push(entry).subrange(
        0,
        k,
    ) =~= imports.subrange(0, k) by {
    }
}

/// One step of the kind counts: extending a prefix by one import bumps the
/// count of that import's kind.
pub proof fn lemma_count_kinds_step(imports: Seq<(String, String, EntityIndex)>, k: int)
    requires
        0 <= k < imports.len(),
    ensures
        spec_count_kinds(imports.subrange(0, k + 1)) == match imports[k].2 {
            EntityIndex::Function(_) => (
                spec_count_kinds(imports.subrange(0, k)).0 + 1,
                spec_count_kinds(imports.subrange(0, k)).1,
                spec_count_kinds(imports.subrange(0, k)).2,
                spec_count_kinds(imports.subrange(0, k)).3,
            ),
            EntityIndex::Memory(_) => (
                spec_count_kinds(imports.subrange(0, k)).0,
                spec_count_kinds(imports.subrange(0, k)).1 + 1,
                spec_count_kinds(imports.subrange(0, k)).2,
                spec_count_kinds(imports.subrange(0, k)).3,
            ),
            EntityIndex::Table(_) => (
                spec_count_kinds(imports.subrange(0, k)).0,
                spec_count_kinds(imports.subrange(0, k)).1,
                spec_count_kinds(imports.subrange(0, k)).2 + 1,
                spec_count_kinds(imports.subrange(0, k)).3,
            ),
            EntityIndex::Global(_) => (
                spec_count_kinds(imports.subrange(0, k)).0,
                spec_count_kinds(imports.subrange(0, k)).1,
                spec_count_kinds(imports.subrange(0, k)).2,
                spec_count_kinds(imports.subrange(0, k)).3 + 1,
            ),
        },
{
    reveal(crate::module::spec_count_kinds);
    assert(imports.subrange(0, k + 1).drop_last() =~= imports.subrange(0, k));
    assert(imports.subrange(0, k + 1).last() == imports[k]);
}

/// The counts of the empty prefix are zero.
pub proof fn lemma_count_kinds_empty(imports: Seq<(String, String, EntityIndex)>)
    ensures
        spec_count_kinds(imports.subrange(0, 0)) == (0int, 0int, 0int, 0int),
{
    reveal(crate::module::spec_count_kinds);
    assert(imports.subrange(0, 0).len() == 0);
}

/// Value-level agreement of two module shapes: every field is equal, with
/// the signature table compared by view.
pub open spec fn spec_module_matches(a: &Module, b: &Module) -> bool {
    &&& a.name == b.name
    &&& crate::sig_registry::spec_sig_views(a.signatures@) == crate::sig_registry::spec_sig_views(
        b.signatures@,
    )
    &&& a.functions@ == b.functions@
    &&& a.num_imported_funcs == b.num_imported_funcs
    &&& a.func_names@ == b.func_names@
    &&& a.imports@ == b.imports@
    &&& a.exports@ == b.exports@
    &&& a.start_func == b.start_func
    &&& a.memory_plans@ == b.memory_plans@
    &&& a.num_imported_memories == b.num_imported_memories
    &&& a.table_plans@ == b.table_plans@
    &&& a.num_imported_tables == b.num_imported_tables
    &&& a.globals@ == b.globals@
    &&& a.num_imported_globals == b.num_imported_globals
}

/// Copies a signature table.
pub fn clone_signatures(v: &Vec<FuncType>) -> (r: Vec<FuncType>)
    ensures
        crate::sig_registry::spec_sig_views(r@) == crate::sig_registry::spec_sig_views(v@),
        r@.len() == v@.len(),
        forall|i: int| 0 <= i < v@.len() ==> (#[trigger] r@[i])@ == v@[i]@,
{
    let n = v.len();
    let mut out: Vec<FuncType> = Vec::new();
    let mut i: usize = 0;
    while i < n
        invariant
            n == v@.len(),
            i <= n,
            out@.len() == i as int,
            forall|j: int| 0 <= j < i ==> (#[trigger] out@[j])@ == v@[j]@,
        decreases n - i,
    {
        out.push(clone_func_type(&v[i]));
        i += 1;
    }
    proof {
        assert(crate::sig_registry::spec_sig_views(out@) =~= crate::sig_registry::spec_sig_views(
            v@,
        ));
    }
    out
}

/// Copies a list of function names.
pub fn clone_func_names(v: &Vec<Option<String>>) -> (r: Vec<Option<String>>)
    ensures
        r@ == v@,
{
    let n = v.len();
    let mut out: Vec<Option<String>> = Vec::new();
    let mut i: usize = 0;
    while i < n
        invariant
            n == v@.len(),
            i <= n,
            out@ == v@.subrange(0, i as int),
        decreases n - i,
    {
        out.push(crate::frame_info::clone_opt_string(&v[i]));
        proof {
            assert(v@.subrange(0, i + 1 as int) =~= v@.subrange(0, i as int).push(v@[i as int]));
        }
        i += 1;
    }
    proof {
        assert(v@.subrange(0, n as int) =~= v@);
    }
    out
}

/// Copies the import list.
pub fn clone_imports(v: &Vec<(String, String, EntityIndex)>) -> (r: Vec<(String, String, EntityIndex)>)
    ensures
        r@ == v@,
{
    let n = v.len();
    let mut out: Vec<(String, String, EntityIndex)> = Vec::new();
    let mut i: usize = 0;
    while i < n
        invariant
            n == v@.len(),
            i <= n,
            out@ == v@.subrange(0, i as int),
        decreases n - i,
    {
        let e = &v[i];
        out.push((e.0.clone(), e.1.clone(), e.2));
        proof {
            assert(v@.subrange(0, i + 1 as int) =~= v@.subrange(0, i as int).push(v@[i as int]));
        }
        i += 1;
    }
    proof {
        assert(v@.subrange(0, n as int) =~= v@);
    }
    out
}

/// Copies the export list.
pub fn clone_exports(v: &Vec<(String, EntityIndex)>) -> (r: Vec<(String, EntityIndex)>)
    ensures
        r@ == v@,
{
    let n = v.len();
    let mut out: Vec<(String, EntityIndex)> = Vec::new();
    let mut i: usize = 0;
    while i < n
        invariant
            n == v@.len(),
            i <= n,
            out@ == v@.subrange(0, i as int),
        decreases n - i,
    {
        let e = &v[i];
        out.push((e.0.clone(), e.1));
        proof {
            assert(v@.subrange(0, i + 1 as int) =~= v@.subrange(0, i as int).push(v@[i as int]));
        }
        i += 1;
    }
    proof {
        assert(v@.subrange(0, n as int) =~= v@);
    }
    out
}

/// Copies a vector of copyable elements.
pub fn clone_copy_vec<T: Copy>(v: &Vec<T>) -> (r: Vec<T>)
    ensures
        r@ == v@,
{
    let n = v.len();
    let mut out: Vec<T> = Vec::new();
    let mut i: usize = 0;
    while i < n
        invariant
            n == v@.len(),
            i <= n,
            out@ == v@.subrange(0, i as int),
        decreases n - i,
    {
        out.push(v[i]);
        proof {
            assert(v@.subrange(0, i + 1 as int) =~= v@.subrange(0, i as int).push(v@[i as int]));
        }
        i += 1;
    }
    proof {
        assert(v@.subrange(0, n as int) =~= v@);
    }
    out
}

/// Copies a module shape.
pub fn clone_module(m: &Module) -> (r: Module)
    requires
        m.wf(),
    ensures
        r.wf(),
        spec_module_matches(&r, m),
{
    Module {
        name: crate::frame_info::clone_opt_string(&m.name),
        signatures: clone_signatures(&m.signatures),
        functions: clone_copy_vec(&m.functions),
        num_imported_funcs: m.num_imported_funcs,
        func_names: clone_func_names(&m.func_names),
        imports: clone_imports(&m.imports),
        exports: clone_exports(&m.exports),
        start_func: m.start_func,
        memory_plans: clone_copy_vec(&m.memory_plans),
        num_imported_memories: m.num_imported_memories,
        table_plans: clone_copy_vec(&m.table_plans),
        num_imported_tables: m.num_imported_tables,
        globals: clone_copy_vec(&m.globals),
        num_imported_globals: m.num_imported_globals,
    }
}

} // verus!
