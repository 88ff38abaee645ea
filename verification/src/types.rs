//! Descriptors for the types of WebAssembly entities: values, functions,
//! globals, tables, memories, modules and instances.

use vstd::prelude::*;

verus! {

/// Indicator of whether a global is mutable or not.
#[derive(Debug, Clone, Copy, PartialEq, Eq, Structural)]
pub enum Mutability {
    /// The global is constant and its value does not change.
    Const,
    /// The value of the global can change over time.
    Var,
}

/// Limits of tables/memories where the units of the limits are defined by the
/// table/memory types.
///
/// A minimum is always available but the maximum may not be present.
#[derive(Debug, Clone, Copy)]
pub struct Limits {
    /// The minimum amount.
    pub min: u32,
    /// The maximum amount, if one was specified.
    pub max: Option<u32>,
}

impl Limits {
    /// Creates a new set of limits with the minimum and maximum both specified.
    pub fn new(min: u32, max: Option<u32>) -> (r: Limits)
        ensures
            r.min == min,
            r.max == max,
    {
        Limits { min, max }
    }

    /// Creates a new `Limits` with the `min` specified and no maximum specified.
    pub fn at_least(min: u32) -> (r: Limits)
        ensures
            r.min == min,
            r.max is None,
    {
        Limits::new(min, None)
    }

    /// Returns the minimum amount for these limits.
    pub fn min(&self) -> (r: u32)
        ensures
            r == self.min,
    {
        self.min
    }

    /// Returns the maximum amount for these limits, if specified.
    pub fn max(&self) -> (r: Option<u32>)
        ensures
            r == self.max,
    {
        self.max
    }
}

/// A list of all possible value types in WebAssembly.
#[derive(Debug, Clone, Copy, PartialEq, Eq, Structural)]
pub enum ValType {
    /// Signed 32 bit integer.
    I32,
    /// Signed 64 bit integer.
    I64,
    /// Floating point 32 bit value, held as its raw bit pattern.
    F32,
    /// Floating point 64 bit value, held as its raw bit pattern.
    F64,
    /// A 128 bit number.
    V128,
    /// A reference to opaque data in the Wasm instance.
    ExternRef,
    /// A reference to a Wasm function.
    FuncRef,
}

impl ValType {
    /// Returns true if `ValType` matches any of the numeric types. (e.g. `I32`,
    /// `I64`, `F32`, `F64`).
    pub fn is_num(&self) -> (r: bool)
        ensures
            r == (self is I32 || self is I64 || self is F32 || self is F64),
    {
        match self {
            ValType::I32 | ValType::I64 | ValType::F32 | ValType::F64 => true,
            _ => false,
        }
    }

    /// Returns true if `ValType` matches either of the reference types.
    pub fn is_ref(&self) -> (r: bool)
        ensures
            r == (self is ExternRef || self is FuncRef),
    {
        match self {
            ValType::ExternRef | ValType::FuncRef => true,
            _ => false,
        }
    }

    /// The textual name of this value type.
    pub fn name(&self) -> (r: &'static str)
        ensures
            r@ == spec_val_type_name(*self),
    {
        proof {
            reveal_strlit("i32");
            reveal_strlit("i64");
            reveal_strlit("f32");
            reveal_strlit("f64");
            reveal_strlit("v128");
            reveal_strlit("externref");
            reveal_strlit("funcref");
        }
        match self {
            ValType::I32 => "i32",
            ValType::I64 => "i64",
            ValType::F32 => "f32",
            ValType::F64 => "f64",
            ValType::V128 => "v128",
            ValType::ExternRef => "externref",
            ValType::FuncRef => "funcref",
        }
    }
}

/// The textual name of a value type, as a sequence of characters.
pub open spec fn spec_val_type_name(t: ValType) -> Seq<char> {
    match t {
        ValType::I32 => "i32"@,
        ValType::I64 => "i64"@,
        ValType::F32 => "f32"@,
        ValType::F64 => "f64"@,
        ValType::V128 => "v128"@,
        ValType::ExternRef => "externref"@,
        ValType::FuncRef => "funcref"@,
    }
}

/// A descriptor for a function in a WebAssembly module.
///
/// WebAssembly functions can have 0 or more parameters and results.
#[derive(Debug, Clone)]
pub struct FuncType {
    /// The types of the parameters, in order.
    pub params: Vec<ValType>,
    /// The types of the results, in order.
    pub results: Vec<ValType>,
}

impl FuncType {
    /// Creates a new function descriptor from the given parameters and results.
    ///
    /// The function descriptor returned will represent a function which takes
    /// `params` as arguments and returns `results` when it is finished.
    pub fn new(params: Vec<ValType>, results: Vec<ValType>) -> (r: FuncType)
        ensures
            r.params == params,
            r.results == results,
    {
        FuncType { params, results }
    }

    /// Returns the list of parameter types for this function.
    pub fn params(&self) -> (r: &Vec<ValType>)
        ensures
            r == &self.params,
    {
        &self.params
    }

    /// Returns the list of result types for this function.
    pub fn results(&self) -> (r: &Vec<ValType>)
        ensures
            r == &self.results,
    {
        &self.results
    }

    /// Whether two function types describe the same signature.
    pub fn same_as(&self, other: &FuncType) -> (r: bool)
        ensures
            r == (self@ == other@),
    {
        let p = val_types_equal(&self.params, &other.params);
        let q = val_types_equal(&self.results, &other.results);
        p && q
    }
}

impl View for FuncType {
    type V = (Seq<ValType>, Seq<ValType>);

    open spec fn view(&self) -> (Seq<ValType>, Seq<ValType>) {
        (self.params@, self.results@)
    }
}

/// Compares two lists of value types element by element.
pub fn val_types_equal(a: &Vec<ValType>, b: &Vec<ValType>) -> (r: bool)
    ensures
        r == (a@ == b@),
{
    if a.len() != b.len() {
        proof {
            assert(a@.len() != b@.len());
        }
        return false;
    }
    let n = a.len();
    let mut i: usize = 0;
    while i < n
        invariant
            n == a.len() == b.len(),
            i <= n,
            forall|j: int| 0 <= j < i ==> a@[j] == b@[j],
        decreases n - i,
    {
        if a[i] != b[i] {
            return false;
        }
        i += 1;
    }
    proof {
        assert(a@ =~= b@);
    }
    true
}

/// A WebAssembly global descriptor.
///
/// This type describes an instance of a global in a WebAssembly module.
/// Globals are local to an instance and are either immutable or mutable.
#[derive(Debug, Clone, Copy)]
pub struct GlobalType {
    /// The type of the value held by the global.
    pub content: ValType,
    /// Whether the global may be written after initialization.
    pub mutability: Mutability,
}

impl GlobalType {
    /// Creates a new global descriptor of the specified `content` type and
    /// whether or not it's mutable.
    pub fn new(content: ValType, mutability: Mutability) -> (r: GlobalType)
        ensures
            r.content == content,
            r.mutability == mutability,
    {
        GlobalType { content, mutability }
    }

    /// Returns the value type of this global descriptor.
    pub fn content(&self) -> (r: &ValType)
        ensures
            r == &self.content,
    {
        &self.content
    }

    /// Returns whether or not this global is mutable.
    pub fn mutability(&self) -> (r: Mutability)
        ensures
            r == self.mutability,
    {
        self.mutability
    }
}

/// A descriptor for a table in a WebAssembly module.
///
/// Tables are contiguous chunks of a specific element, typically a `funcref`
/// or an `externref`. The most common use for tables is a function table
/// through which `call_indirect` can invoke other functions.
#[derive(Debug, Clone, Copy)]
pub struct TableType {
    /// The type of the elements held by the table.
    pub element: ValType,
    /// The limits, in units of elements, of the table.
    pub limits: Limits,
}

impl TableType {
    /// Creates a new table descriptor which will contain the specified
    /// `element` and have the `limits` applied to its length.
    pub fn new(element: ValType, limits: Limits) -> (r: TableType)
        ensures
            r.element == element,
            r.limits == limits,
    {
        TableType { element, limits }
    }

    /// Returns the element value type of this table.
    pub fn element(&self) -> (r: &ValType)
        ensures
            r == &self.element,
    {
        &self.element
    }

    /// Returns the limits, in units of elements, of this table.
    pub fn limits(&self) -> (r: &Limits)
        ensures
            r == &self.limits,
    {
        &self.limits
    }
}

/// A descriptor for a WebAssembly memory type.
///
/// Memories are described in units of pages (64KB) and represent contiguous
/// chunks of addressable memory.
#[derive(Debug, Clone, Copy)]
pub struct MemoryType {
    /// The limits, in units of pages, of the memory.
    pub limits: Limits,
}

impl MemoryType {
    /// Creates a new descriptor for a WebAssembly memory given the specified
    /// limits of the memory.
    pub fn new(limits: Limits) -> (r: MemoryType)
        ensures
            r.limits == limits,
    {
        MemoryType { limits }
    }

    /// Returns the limits (in pages) that are configured for this memory.
    pub fn limits(&self) -> (r: &Limits)
        ensures
            r == &self.limits,
    {
        &self.limits
    }
}

/// A descriptor for a WebAssembly module type.
#[derive(Debug)]
pub struct ModuleType {
    /// The imports of the module type: import module name, field name, type.
    pub imports: Vec<(String, String, ExternType)>,
    /// The exports of the module type: export name and type.
    pub exports: Vec<(String, ExternType)>,
}

impl ModuleType {
    /// Creates a new empty module type.
    pub fn new() -> (r: ModuleType)
        ensures
            r.imports@.len() == 0,
            r.exports@.len() == 0,
    {
        ModuleType { imports: Vec::new(), exports: Vec::new() }
    }

    /// Adds a new export to this `ModuleType`.
    pub fn add_named_export(&mut self, name: String, ty: ExternType)
        ensures
            final(self).imports == old(self).imports,
            final(self).exports@ == old(self).exports@.push((name, ty)),
    {
        self.exports.push((name, ty));
    }

    /// Adds a new import to this `ModuleType`.
    pub fn add_named_import(&mut self, module: String, field: String, ty: ExternType)
        ensures
            final(self).exports == old(self).exports,
            final(self).imports@ == old(self).imports@.push((module, field, ty)),
    {
        self.imports.push((module, field, ty));
    }

    /// Returns the list of imports associated with this module type.
    pub fn imports(&self) -> (r: &Vec<(String, String, ExternType)>)
        ensures
            r == &self.imports,
    {
        &self.imports
    }

    /// Returns the list of exports associated with this module type.
    pub fn exports(&self) -> (r: &Vec<(String, ExternType)>)
        ensures
            r == &self.exports,
    {
        &self.exports
    }
}

/// A descriptor for a WebAssembly instance type.
#[derive(Debug)]
pub struct InstanceType {
    /// The exports of the instance type: export name and type.
    pub exports: Vec<(String, ExternType)>,
}

impl InstanceType {
    /// Creates a new empty instance type.
    pub fn new() -> (r: InstanceType)
        ensures
            r.exports@.len() == 0,
    {
        InstanceType { exports: Vec::new() }
    }

    /// Adds a new export to this `InstanceType`.
    pub fn add_named_export(&mut self, name: String, ty: ExternType)
        ensures
            final(self).exports@ == old(self).exports@.push((name, ty)),
    {
        self.exports.push((name, ty));
    }

    /// Returns the list of exports associated with this instance type.
    pub fn exports(&self) -> (r: &Vec<(String, ExternType)>)
        ensures
            r == &self.exports,
    {
        &self.exports
    }
}

/// A list of all possible types which can be externally referenced from a
/// WebAssembly module.
///
/// This list can be found in [`ImportType`] or [`ExportType`], so these types
/// can either be imported or exported.
#[derive(Debug)]
pub enum ExternType {
    /// This external type is the type of a WebAssembly function.
    Func(FuncType),
    /// This external type is the type of a WebAssembly global.
    Global(GlobalType),
    /// This external type is the type of a WebAssembly table.
    Table(TableType),
    /// This external type is the type of a WebAssembly memory.
    Memory(MemoryType),
    /// This external type is the type of a WebAssembly instance.
    Instance(InstanceType),
    /// This external type is the type of a WebAssembly module.
    Module(ModuleType),
}

impl ExternType {
    /// The underlying function type, if this is the type of a function.
    pub fn func(&self) -> (r: Option<&FuncType>)
        ensures
            match r {
                Some(f) => *self matches ExternType::Func(g) && f == &g,
                None => !(*self matches ExternType::Func(_)),
            },
    {
        match self {
            ExternType::Func(f) => Some(f),
            _ => None,
        }
    }

    /// The underlying global type, if this is the type of a global.
    pub fn global(&self) -> (r: Option<&GlobalType>)
        ensures
            match r {
                Some(g) => *self matches ExternType::Global(h) && g == &h,
                None => !(*self matches ExternType::Global(_)),
            },
    {
        match self {
            ExternType::Global(g) => Some(g),
            _ => None,
        }
    }

    /// The underlying table type, if this is the type of a table.
    pub fn table(&self) -> (r: Option<&TableType>)
        ensures
            match r {
                Some(t) => *self matches ExternType::Table(u) && t == &u,
                None => !(*self matches ExternType::Table(_)),
            },
    {
        match self {
            ExternType::Table(t) => Some(t),
            _ => None,
        }
    }

    /// The underlying memory type, if this is the type of a memory.
    pub fn memory(&self) -> (r: Option<&MemoryType>)
        ensures
            match r {
                Some(m) => *self matches ExternType::Memory(n) && m == &n,
                None => !(*self matches ExternType::Memory(_)),
            },
    {
        match self {
            ExternType::Memory(m) => Some(m),
            _ => None,
        }
    }

    /// The underlying instance type, if this is the type of an instance.
    pub fn instance(&self) -> (r: Option<&InstanceType>)
        ensures
            match r {
                Some(i) => *self matches ExternType::Instance(j) && i == &j,
                None => !(*self matches ExternType::Instance(_)),
            },
    {
        match self {
            ExternType::Instance(i) => Some(i),
            _ => None,
        }
    }

    /// The underlying module type, if this is the type of a module.
    pub fn module(&self) -> (r: Option<&ModuleType>)
        ensures
            match r {
                Some(m) => *self matches ExternType::Module(n) && m == &n,
                None => !(*self matches ExternType::Module(_)),
            },
    {
        match self {
            ExternType::Module(m) => Some(m),
            _ => None,
        }
    }
}

/// A descriptor for an imported value into a wasm module.
///
/// Each `ImportType` describes an import into the wasm module with the
/// module/name that it's imported from as well as the type of item that's
/// being imported.
#[derive(Debug)]
pub struct ImportType {
    /// The name of the module the import is expected to come from.
    pub module: String,
    /// The field name of the import within that module.
    pub name: String,
    /// The expected type of the import.
    pub ty: ExternType,
}

impl ImportType {
    /// Creates a new import descriptor which comes from `module` and `name`
    /// and is of type `ty`.
    pub fn new(module: String, name: String, ty: ExternType) -> (r: ImportType)
        ensures
            r.module == module,
            r.name == name,
            r.ty == ty,
    {
        ImportType { module, name, ty }
    }

    /// Returns the module name that this import is expected to come from.
    pub fn module(&self) -> (r: &String)
        ensures
            r == &self.module,
    {
        &self.module
    }

    /// Returns the field name of the module that this import is expected to
    /// come from.
    pub fn name(&self) -> (r: &String)
        ensures
            r == &self.name,
    {
        &self.name
    }

    /// Returns the expected type of this import.
    pub fn ty(&self) -> (r: &ExternType)
        ensures
            r == &self.ty,
    {
        &self.ty
    }
}

/// A descriptor for an exported WebAssembly value.
///
/// This type describes what names are exported from a wasm module and the
/// type of the item that is exported.
#[derive(Debug)]
pub struct ExportType {
    /// The name under which the item is exported.
    pub name: String,
    /// The type of the exported item.
    pub ty: ExternType,
}

impl ExportType {
    /// Creates a new export which is exported with the given `name` and has
    /// the given `ty`.
    pub fn new(name: String, ty: ExternType) -> (r: ExportType)
        ensures
            r.name == name,
            r.ty == ty,
    {
        ExportType { name, ty }
    }

    /// Returns the name by which this export is known.
    pub fn name(&self) -> (r: &String)
        ensures
            r == &self.name,
    {
        &self.name
    }

    /// Returns the type of this export.
    pub fn ty(&self) -> (r: &ExternType)
        ensures
            r == &self.ty,
    {
        &self.ty
    }
}

} // verus!
