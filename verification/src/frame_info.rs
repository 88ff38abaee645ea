//! Classification of program counters back to Wasm frames.
//!
//! A store keeps a [`StoreFrameInfo`]: the published code ranges of every
//! module registered with it, together with each function's range, index and
//! name, and the module's trap table.  Classifying a faulting program counter
//! through this index decides whether the fault is a Wasm trap at all, which
//! kind it is, and which frame it belongs to.

use vstd::prelude::*;

use crate::trap::TrapCode;

verus! {

/// One frame of a Wasm backtrace.
#[derive(Debug)]
pub struct FrameInfo {
    /// The name of the module the frame belongs to, if the module has one.
    pub module_name: Option<String>,
    /// The index of the function within its module.
    pub func_index: u32,
    /// The function's name from the module's name section, if present.
    pub func_name: Option<String>,
}

/// Copies an optional string.
pub fn clone_opt_string(s: &Option<String>) -> (r: Option<String>)
    ensures
        r == s,
{
    match s {
        Some(x) => Some(x.clone()),
        None => None,
    }
}

impl FrameInfo {
    /// Returns the index of the function within its module.
    pub fn func_index(&self) -> (r: u32)
        ensures
            r == self.func_index,
    {
        self.func_index
    }

    /// Returns the name of the module the frame belongs to, if any.
    pub fn module_name(&self) -> (r: Option<String>)
        ensures
            r == self.module_name,
    {
        clone_opt_string(&self.module_name)
    }

    /// Returns the function's name, if the module's name section has one.
    pub fn func_name(&self) -> (r: Option<String>)
        ensures
            r == self.func_name,
    {
        clone_opt_string(&self.func_name)
    }
}

/// The published range of one function: `[start, start + len)`.
#[derive(Debug)]
pub struct FunctionInfo {
    /// The first address of the function's code.
    pub start: u64,
    /// The length of the function's code in bytes.
    pub len: u64,
    /// The index of the function within its module.
    pub index: u32,
    /// The function's name from the module's name section, if present.
    pub name: Option<String>,
}

impl FunctionInfo {
    /// Whether `pc` lies within this function's code.
    pub open spec fn spec_contains(&self, pc: u64) -> bool {
        self.start <= pc < self.start + self.len
    }
}

/// One entry of a module's trap table: at code address `offset` the compiled
/// code may fault with kind `code`, and the fault maps back to the Wasm
/// source offset `source_loc`.
#[derive(Debug, Clone, Copy)]
pub struct TrapRecord {
    /// The code address of the potentially faulting instruction.
    pub offset: u64,
    /// The offset of the corresponding instruction in the Wasm source.
    pub source_loc: u32,
    /// The kind of fault the instruction can raise.
    pub code: TrapCode,
}

/// The published code range of one registered module, with its per-function
/// ranges and its trap table.
#[derive(Debug)]
pub struct ModuleFrameInfo {
    /// The first address of the module's published code.
    pub start: u64,
    /// The first address past the module's published code.
    pub end: u64,
    /// The module's name, if it has one.
    pub module_name: Option<String>,
    /// The ranges of the module's functions, each within `[start, end)`.
    pub functions: Vec<FunctionInfo>,
    /// The module's trap table, sorted by strictly increasing `offset`.
    pub traps: Vec<TrapRecord>,
}

impl ModuleFrameInfo {
    /// Well-formedness: the range is ordered, every function lies within it,
    /// and the trap table is sorted by strictly increasing code address.
    pub open spec fn wf(&self) -> bool {
        &&& self.start <= self.end
        &&& forall|i: int|
            0 <= i < self.functions@.len() ==> self.start <= (
            #[trigger] self.functions@[i]).start && self.functions@[i].start
                + self.functions@[i].len <= self.end
        &&& forall|i: int, j: int|
            0 <= i < j < self.traps@.len() ==> self.traps@[i].offset < self.traps@[j].offset
    }

    /// Whether `pc` lies within this module's published code.
    pub open spec fn spec_contains(&self, pc: u64) -> bool {
        self.start <= pc < self.end
    }

    /// The first function of the module whose range holds `pc`.
    pub open spec fn spec_find_function(&self, pc: u64) -> Option<int>
        decreases self.functions@.len(),
    {
        spec_find_function_from(self.functions@, pc)
    }

    /// The trap record at exactly `pc`, if the trap table has one.
    pub open spec fn spec_find_trap(&self, pc: u64) -> Option<TrapRecord> {
        if exists|i: int| 0 <= i < self.traps@.len() && self.traps@[i].offset == pc {
            Some(self.traps@[choose|i: int| 0 <= i < self.traps@.len() && self.traps@[i].offset == pc])
        } else {
            None
        }
    }
}

/// The first index at or after the head of `fns` whose range holds `pc`.
pub open spec fn spec_find_function_from(fns: Seq<FunctionInfo>, pc: u64) -> Option<int>
    decreases fns.len(),
{
    if fns.len() == 0 {
        None
    } else if fns[0].spec_contains(pc) {
        Some(0)
    } else {
        match spec_find_function_from(fns.drop_first(), pc) {
            Some(i) => Some(i + 1),
            None => None,
        }
    }
}

/// The store's index of registered module code ranges.
#[derive(Debug)]
pub struct StoreFrameInfo {
    /// The registered modules, in registration order.
    pub modules: Vec<ModuleFrameInfo>,
}

/// The registration step at the specification level: a module with an empty
/// range, or one whose first address is already classified, is not added.
pub open spec fn spec_register(
    modules: Seq<ModuleFrameInfo>,
    m: ModuleFrameInfo,
) -> Seq<ModuleFrameInfo> {
    if m.start >= m.end || spec_seq_contains_pc(modules, m.start) {
        modules
    } else {
        modules.push(m)
    }
}

/// Whether any module of `modules` holds `pc`.
pub open spec fn spec_seq_contains_pc(modules: Seq<ModuleFrameInfo>, pc: u64) -> bool {
    exists|i: int| 0 <= i < modules.len() && modules[i].spec_contains(pc)
}

/// The first module of `modules` holding `pc`.
pub open spec fn spec_find_module_from(modules: Seq<ModuleFrameInfo>, pc: u64) -> Option<int>
    decreases modules.len(),
{
    if modules.len() == 0 {
        None
    } else if modules[0].spec_contains(pc) {
        Some(0)
    } else {
        match spec_find_module_from(modules.drop_first(), pc) {
            Some(i) => Some(i + 1),
            None => None,
        }
    }
}

impl StoreFrameInfo {
    /// Creates an empty index.
    pub fn new() -> (r: StoreFrameInfo)
        ensures
            r.modules@.len() == 0,
            r.wf(),
    {
        StoreFrameInfo { modules: Vec::new() }
    }

    /// Well-formedness: every registered module is well formed.
    pub open spec fn wf(&self) -> bool {
        forall|i: int| 0 <= i < self.modules@.len() ==> (#[trigger] self.modules@[i]).wf()
    }

    /// Whether some registered module's published code holds `pc`.
    pub open spec fn spec_contains(&self, pc: u64) -> bool {
        spec_seq_contains_pc(self.modules@, pc)
    }

    /// Whether `pc` lies within registered Wasm code.
    pub fn contains_pc(&self, pc: u64) -> (r: bool)
        ensures
            r == self.spec_contains(pc),
    {
        let n = self.modules.len();
        let mut i: usize = 0;
        while i < n
            invariant
                n == self.modules@.len(),
                i <= n,
                forall|j: int| 0 <= j < i ==> !(#[trigger] self.modules@[j]).spec_contains(pc),
            decreases n - i,
        {
            let m = &self.modules[i];
            if m.start <= pc && pc < m.end {
                return true;
            }
            i += 1;
        }
        false
    }

    /// Registers a module's published code range.
    ///
    /// A module with an empty range, or one whose first address is already
    /// classified, is skipped, so registering the same module twice leaves
    /// the index unchanged.
    pub fn register(&mut self, m: ModuleFrameInfo)
        requires
            old(self).wf(),
            m.wf(),
        ensures
            final(self).wf(),
            final(self).modules@ == spec_register(old(self).modules@, m),
    {
        if m.start >= m.end {
            return;
        }
        if self.contains_pc(m.start) {
            return;
        }
        self.modules.push(m);
    }

    /// Looks up the first registered module holding `pc`.
    fn lookup_module(&self, pc: u64) -> (r: Option<&ModuleFrameInfo>)
        ensures
            match r {
                Some(m) => {
                    &&& spec_find_module_from(self.modules@, pc) matches Some(i)
                    &&& m == &self.modules@[spec_find_module_from(self.modules@, pc)->Some_0]
                },
                None => spec_find_module_from(self.modules@, pc) is None,
            },
    {
        let n = self.modules.len();
        let mut i: usize = 0;
        while i < n
            invariant
                n == self.modules@.len(),
                i <= n,
                forall|j: int| 0 <= j < i ==> !(#[trigger] self.modules@[j]).spec_contains(pc),
            decreases n - i,
        {
            let m = &self.modules[i];
            if m.start <= pc && pc < m.end {
                proof {
                    lemma_find_module_prefix(self.modules@, pc, i as int);
                }
                return Some(m);
            }
            proof {
                lemma_find_module_skip(self.modules@, pc, i as int);
            }
            i += 1;
        }
        proof {
            lemma_find_module_none(self.modules@, pc, n as int);
        }
        None
    }

    /// Builds the backtrace frame for `pc`, when `pc` lies in a registered
    /// function.
    pub fn lookup_frame_info(&self, pc: u64) -> (r: Option<FrameInfo>)
        requires
            self.wf(),
        ensures
            r == self.spec_lookup_frame(pc),
    {
        let m = match self.lookup_module(pc) {
            Some(m) => m,
            None => {
                return None;
            }
        };
        proof {
            lemma_find_module_in_range(self.modules@, pc);
        }
        let n = m.functions.len();
        let mut i: usize = 0;
        while i < n
            invariant
                m.wf(),
                spec_find_module_from(self.modules@, pc) is Some,
                m == &self.modules@[spec_find_module_from(self.modules@, pc)->Some_0],
                n == m.functions@.len(),
                i <= n,
                forall|j: int| 0 <= j < i ==> !(#[trigger] m.functions@[j]).spec_contains(pc),
            decreases n - i,
        {
            let f = &m.functions[i];
            if f.start <= pc && pc < f.start + f.len {
                proof {
                    lemma_find_function_prefix(m.functions@, pc, i as int);
                }
                return Some(
                    FrameInfo {
                        module_name: clone_opt_string(&m.module_name),
                        func_index: f.index,
                        func_name: clone_opt_string(&f.name),
                    },
                );
            }
            proof {
                lemma_find_function_skip(m.functions@, pc, i as int);
            }
            i += 1;
        }
        proof {
            lemma_find_function_none(m.functions@, pc, n as int);
        }
        None
    }

    /// The backtrace frame classification of `pc` at the specification level:
    /// the first matching function of the first matching module.
    pub open spec fn spec_lookup_frame(&self, pc: u64) -> Option<FrameInfo> {
        match spec_find_module_from(self.modules@, pc) {
            Some(mi) => {
                let m = self.modules@[mi];
                match spec_find_function_from(m.functions@, pc) {
                    Some(fi) => Some(
                        FrameInfo {
                            module_name: m.module_name,
                            func_index: m.functions@[fi].index,
                            func_name: m.functions@[fi].name,
                        },
                    ),
                    None => None,
                }
            }
            None => None,
        }
    }

    /// The trap record registered at exactly `pc`, if any.
    pub open spec fn spec_lookup_trap(&self, pc: u64) -> Option<TrapRecord> {
        match spec_find_module_from(self.modules@, pc) {
            Some(mi) => self.modules@[mi].spec_find_trap(pc),
            None => None,
        }
    }

    /// Looks up the trap record at exactly `pc` by binary search in the
    /// owning module's trap table.
    pub fn lookup_trap_info(&self, pc: u64) -> (r: Option<TrapRecord>)
        requires
            self.wf(),
        ensures
            r == self.spec_lookup_trap(pc),
            r matches Some(rec) ==> rec.offset == pc,
    {
        let m = match self.lookup_module(pc) {
            Some(m) => m,
            None => {
                return None;
            }
        };
        proof {
            lemma_find_module_in_range(self.modules@, pc);
        }
        let mut lo: usize = 0;
        let mut hi: usize = m.traps.len();
        while lo < hi
            invariant
                m.wf(),
                spec_find_module_from(self.modules@, pc) is Some,
                m == &self.modules@[spec_find_module_from(self.modules@, pc)->Some_0],
                lo <= hi <= m.traps@.len(),
                forall|i: int|
                    0 <= i < m.traps@.len() && (#[trigger] m.traps@[i]).offset == pc ==> lo <= i
                        < hi,
            decreases hi - lo,
        {
            let mid = lo + (hi - lo) / 2;
            let t = &m.traps[mid];
            if t.offset == pc {
                proof {
                    let i = choose|i: int|
                        0 <= i < m.traps@.len() && m.traps@[i].offset == pc;
                    if i < mid {
                        assert(m.traps@[i].offset < m.traps@[mid as int].offset);
                    }
                    if i > mid {
                        assert(m.traps@[mid as int].offset < m.traps@[i].offset);
                    }
                    assert(i == mid);
                }
                return Some(*t);
            } else if t.offset < pc {
                lo = mid + 1;
            } else {
                hi = mid;
            }
        }
        proof {
            assert(forall|i: int|
                0 <= i < m.traps@.len() ==> (#[trigger] m.traps@[i]).offset != pc);
        }
        None
    }
}

/// If every index below `i` fails to hold `pc` and index `i` holds it, then
/// `i` is the first match.
proof fn lemma_find_module_prefix(modules: Seq<ModuleFrameInfo>, pc: u64, i: int)
    requires
        0 <= i < modules.len(),
        forall|j: int| 0 <= j < i ==> !(#[trigger] modules[j]).spec_contains(pc),
        modules[i].spec_contains(pc),
    ensures
        spec_find_module_from(modules, pc) == Some(i),
    decreases i,
{
    if i == 0 {
    } else {
        lemma_find_module_prefix(modules.drop_first(), pc, i - 1);
    }
}

/// A non-matching head shifts the first match one to the right.
proof fn lemma_find_module_skip(modules: Seq<ModuleFrameInfo>, pc: u64, i: int)
    requires
        0 <= i < modules.len(),
        !modules[i].spec_contains(pc),
    ensures
        spec_find_module_from(modules, pc) == Some(i) ==> false,
{
    if spec_find_module_from(modules, pc) == Some(i) {
        lemma_find_module_found_contains(modules, pc);
    }
}

/// A found index always holds `pc`.
proof fn lemma_find_module_found_contains(modules: Seq<ModuleFrameInfo>, pc: u64)
    ensures
        spec_find_module_from(modules, pc) matches Some(i) ==> 0 <= i < modules.len()
            && modules[i].spec_contains(pc),
    decreases modules.len(),
{
    if modules.len() > 0 && !modules[0].spec_contains(pc) {
        lemma_find_module_found_contains(modules.drop_first(), pc);
    }
}

/// If no index below `n` (the whole sequence) holds `pc`, nothing is found.
proof fn lemma_find_module_none(modules: Seq<ModuleFrameInfo>, pc: u64, n: int)
    requires
        n == modules.len(),
        forall|j: int| 0 <= j < n ==> !(#[trigger] modules[j]).spec_contains(pc),
    ensures
        spec_find_module_from(modules, pc) is None,
    decreases n,
{
    if n > 0 {
        lemma_find_module_none(modules.drop_first(), pc, n - 1);
    }
}

/// The module found for `pc` holds `pc`.
proof fn lemma_find_module_in_range(modules: Seq<ModuleFrameInfo>, pc: u64)
    ensures
        spec_find_module_from(modules, pc) matches Some(i) ==> 0 <= i < modules.len()
            && modules[i].spec_contains(pc),
{
    lemma_find_module_found_contains(modules, pc);
}

/// If every index below `i` fails to hold `pc` and index `i` holds it, then
/// `i` is the first match.
proof fn lemma_find_function_prefix(fns: Seq<FunctionInfo>, pc: u64, i: int)
    requires
        0 <= i < fns.len(),
        forall|j: int| 0 <= j < i ==> !(#[trigger] fns[j]).spec_contains(pc),
        fns[i].spec_contains(pc),
    ensures
        spec_find_function_from(fns, pc) == Some(i),
    decreases i,
{
    if i == 0 {
    } else {
        lemma_find_function_prefix(fns.drop_first(), pc, i - 1);
    }
}

/// A found index always holds `pc`.
proof fn lemma_find_function_found_contains(fns: Seq<FunctionInfo>, pc: u64)
    ensures
        spec_find_function_from(fns, pc) matches Some(i) ==> 0 <= i < fns.len()
            && fns[i].spec_contains(pc),
    decreases fns.len(),
{
    if fns.len() > 0 && !fns[0].spec_contains(pc) {
        lemma_find_function_found_contains(fns.drop_first(), pc);
    }
}

/// A non-matching index cannot be the first match.
proof fn lemma_find_function_skip(fns: Seq<FunctionInfo>, pc: u64, i: int)
    requires
        0 <= i < fns.len(),
        !fns[i].spec_contains(pc),
    ensures
        spec_find_function_from(fns, pc) == Some(i) ==> false,
{
    if spec_find_function_from(fns, pc) == Some(i) {
        lemma_find_function_found_contains(fns, pc);
    }
}

/// If no index holds `pc`, nothing is found.
proof fn lemma_find_function_none(fns: Seq<FunctionInfo>, pc: u64, n: int)
    requires
        n == fns.len(),
        forall|j: int| 0 <= j < n ==> !(#[trigger] fns[j]).spec_contains(pc),
    ensures
        spec_find_function_from(fns, pc) is None,
    decreases n,
{
    if n > 0 {
        lemma_find_function_none(fns.drop_first(), pc, n - 1);
    }
}

/// Registering the same module again leaves the index unchanged: the law of
/// idempotent module registration.
pub proof fn lemma_register_idempotent(modules: Seq<ModuleFrameInfo>, m: ModuleFrameInfo)
    ensures
        spec_register(spec_register(modules, m), m) == spec_register(modules, m),
{
    if m.start >= m.end || spec_seq_contains_pc(modules, m.start) {
    } else {
        let after = modules.push(m);
        assert(after[modules.len() as int].spec_contains(m.start));
        assert(spec_seq_contains_pc(after, m.start));
    }
}

/// After a registration that actually inserts, a program counter is
/// classified exactly when it was classified before or lies in the new
/// module's range: the law tying code memory contents to classification.
pub proof fn lemma_register_classifies(modules: Seq<ModuleFrameInfo>, m: ModuleFrameInfo, pc: u64)
    requires
        m.start < m.end,
        !spec_seq_contains_pc(modules, m.start),
    ensures
        spec_seq_contains_pc(spec_register(modules, m), pc) <==> (spec_seq_contains_pc(
            modules,
            pc,
        ) || m.spec_contains(pc)),
{
    let after = spec_register(modules, m);
    assert(after == modules.push(m));
    if spec_seq_contains_pc(modules, pc) {
        let i = choose|i: int| 0 <= i < modules.len() && modules[i].spec_contains(pc);
        assert(after[i].spec_contains(pc));
    }
    if m.spec_contains(pc) {
        assert(after[modules.len() as int].spec_contains(pc));
    }
    if spec_seq_contains_pc(after, pc) {
        let i = choose|i: int| 0 <= i < after.len() && after[i].spec_contains(pc);
        if i < modules.len() {
            assert(modules[i].spec_contains(pc));
        }
    }
}

} // verus!
