//! The linker: named definitions consumed by instantiation.
//!
//! A [`Linker`] registers externs under `(module, name)` pairs and
//! instantiates modules against them, resolving each declared import by
//! name.  Defining the same name twice fails, and instantiation fails with
//! a link error when an import's name has no definition or its definition
//! has the wrong type.

use vstd::prelude::*;

use crate::errors::{EngineError, InstantiationError};
use crate::instance::{Extern, Instance, spec_imports_ok, spec_instantiation_unconditional};
use crate::module::EntityIndex;
use crate::store::Store;

verus! {

/// The first definition index with the given module and field name.
pub open spec fn spec_find_def(
    defs: Seq<(String, String, Extern)>,
    module: Seq<char>,
    name: Seq<char>,
) -> Option<int>
    decreases defs.len(),
{
    if defs.len() == 0 {
        None
    } else if defs[0].0@ == module && defs[0].1@ == name {
        Some(0)
    } else {
        match spec_find_def(defs.drop_first(), module, name) {
            Some(i) => Some(i + 1),
            None => None,
        }
    }
}

/// Whether every declared import's `(module, name)` has a definition.
pub open spec fn spec_all_defined(
    defs: Seq<(String, String, Extern)>,
    decls: Seq<(String, String, EntityIndex)>,
) -> bool {
    forall|k: int|
        0 <= k < decls.len() ==> spec_find_def(defs, (#[trigger] decls[k]).0@, decls[k].1@)
            is Some
}

/// The extern a declared import resolves to by name; meaningful where the
/// name has a definition.
pub open spec fn spec_resolved_import(
    defs: Seq<(String, String, Extern)>,
    module: Seq<char>,
    name: Seq<char>,
) -> Extern {
    defs[spec_find_def(defs, module, name)->Some_0].2
}

/// The externs a module's declared imports resolve to, in declaration
/// order.
pub open spec fn spec_resolved_imports(
    defs: Seq<(String, String, Extern)>,
    decls: Seq<(String, String, EntityIndex)>,
) -> Seq<Extern> {
    Seq::new(decls.len(), |k: int| spec_resolved_import(defs, decls[k].0@, decls[k].1@))
}

/// A collection of named definitions, consumed by instantiation.
#[derive(Debug)]
pub struct Linker {
    /// The registered definitions, in definition order.
    pub definitions: Vec<(String, String, Extern)>,
}

impl Linker {
    /// Creates an empty linker.
    pub fn new() -> (r: Linker)
        ensures
            r.definitions@.len() == 0,
    {
        Linker { definitions: Vec::new() }
    }

    /// Looks up the definition registered under `(module, name)`.
    fn lookup(&self, module: &str, name: &str) -> (r: Option<usize>)
        ensures
            match r {
                Some(i) => (i as int) < self.definitions@.len() && spec_find_def(
                    self.definitions@,
                    module@,
                    name@,
                ) == Some(i as int),
                None => spec_find_def(self.definitions@, module@, name@) is None,
            },
    {
        let n = self.definitions.len();
        let mut i: usize = 0;
        while i < n
            invariant
                n == self.definitions@.len(),
                i <= n,
                forall|j: int|
                    0 <= j < i ==> !((#[trigger] self.definitions@[j]).0@ == module@
                        && self.definitions@[j].1@ == name@),
            decreases n - i,
        {
            let d = &self.definitions[i];
            if str_eq(d.0.as_str(), module) && str_eq(d.1.as_str(), name) {
                proof {
                    lemma_find_def_prefix(self.definitions@, module@, name@, i as int);
                }
                return Some(i);
            }
            i += 1;
        }
        proof {
            lemma_find_def_none(self.definitions@, module@, name@, n as int);
        }
        None
    }

    /// Registers a definition under `(module, name)`.  Fails if and only if
    /// the name is already defined.
    pub fn define(&mut self, module: &str, name: &str, item: Extern) -> (r: Result<
        (),
        EngineError,
    >)
        ensures
            r is Ok <==> spec_find_def(old(self).definitions@, module@, name@) is None,
            r is Ok ==> final(self).definitions@.len() == old(self).definitions@.len() + 1
                && final(self).definitions@.last().0@ == module@
                && final(self).definitions@.last().1@ == name@,
            r is Err ==> *final(self) == *old(self),
    {
        proof {
            reveal_strlit("import of `");
            reveal_strlit("::");
            reveal_strlit("` defined twice");
        }
        match self.lookup(module, name) {
            Some(_) => {
                let mut msg = String::from_str("import of `");
                msg.append(module);
                msg.append("::");
                msg.append(name);
                msg.append("` defined twice");
                Err(EngineError::new(msg))
            }
            None => {
                self.definitions.push((String::from_str(module), String::from_str(name), item));
                Ok(())
            }
        }
    }

    /// Instantiates a registered module, resolving every declared import by
    /// name from this linker's definitions.  A name with no definition
    /// fails with a link error; a definition of the wrong type fails as
    /// `Instance::new` does.
    pub fn instantiate(&self, store: &mut Store, module_id: usize) -> (r: Result<
        Instance,
        InstantiationError,
    >)
        requires
            old(store).wf(),
            !old(store).is_async,
            (module_id as int) < old(store).modules@.len(),
        ensures
            final(store).wf(),
            final(store).engine == old(store).engine,
            final(store).modules == old(store).modules,
            final(store).frame_info == old(store).frame_info,
            final(store).host_funcs == old(store).host_funcs,
            r matches Err(e) ==> (e is Link || e is Resource || e is StartTrap),
            // An import whose name has no definition owes a link error.
            (exists|k: int|
                0 <= k < old(store).modules@[module_id as int].module.imports@.len()
                    && spec_find_def(
                    self.definitions@,
                    (#[trigger] old(store).modules@[module_id as int].module.imports@[k]).0@,
                    old(store).modules@[module_id as int].module.imports@[k].1@,
                ) is None) ==> (r matches Err(e) && e is Link),
            // When every name is defined, the call behaves as instantiation
            // on the positionally resolved definitions: a link error if and
            // only if those definitions do not satisfy the module's
            // imports, success owed under the unconditional-instantiation
            // conditions, and a live instance on success.
            spec_all_defined(
                self.definitions@,
                old(store).modules@[module_id as int].module.imports@,
            ) ==> {
                &&& !spec_imports_ok(
                    old(store),
                    module_id as int,
                    spec_resolved_imports(
                        self.definitions@,
                        old(store).modules@[module_id as int].module.imports@,
                    ),
                ) ==> (r matches Err(e) && e is Link && *final(store) == *old(store))
                &&& spec_instantiation_unconditional(
                    old(store),
                    module_id as int,
                    spec_resolved_imports(
                        self.definitions@,
                        old(store).modules@[module_id as int].module.imports@,
                    ),
                ) ==> r is Ok
                &&& r matches Ok(inst) ==> (inst.id == old(store).instances@.len()
                    && final(store).instances@.len() == old(store).instances@.len() + 1
                    && final(store).instances@.last().module_id == module_id)
                &&& r is Err ==> final(store).instances@.len() == old(store).instances@.len()
            },
    {
        proof {
            reveal_strlit("unknown import: `");
            reveal_strlit("::");
            reveal_strlit("` has not been defined");
            assert(old(store).modules@[module_id as int].wf());
        }
        let ni = store.modules[module_id].module.imports.len();
        let mut imports: Vec<Extern> = Vec::new();
        let mut k: usize = 0;
        while k < ni
            invariant
                store.wf(),
                *store == *old(store),
                (module_id as int) < store.modules@.len(),
                ni == store.modules@[module_id as int].module.imports@.len(),
                k <= ni,
                imports@.len() == k as int,
                forall|j: int|
                    0 <= j < k ==> spec_find_def(
                        self.definitions@,
                        (#[trigger] store.modules@[module_id as int].module.imports@[j]).0@,
                        store.modules@[module_id as int].module.imports@[j].1@,
                    ) is Some,
                forall|j: int|
                    0 <= j < k ==> #[trigger] imports@[j] == spec_resolved_import(
                        self.definitions@,
                        store.modules@[module_id as int].module.imports@[j].0@,
                        store.modules@[module_id as int].module.imports@[j].1@,
                    ),
            decreases ni - k,
        {
            let module_name = store.modules[module_id].module.imports[k].0.clone();
            let field_name = store.modules[module_id].module.imports[k].1.clone();
            match self.lookup(module_name.as_str(), field_name.as_str()) {
                Some(i) => {
                    imports.push(self.definitions[i].2);
                }
                None => {
                    let mut msg = String::from_str("unknown import: `");
                    msg.append(module_name.as_str());
                    msg.append("::");
                    msg.append(field_name.as_str());
                    msg.append("` has not been defined");
                    return Err(InstantiationError::Link(msg));
                }
            }
            k += 1;
        }
        proof {
            assert(imports@ =~= spec_resolved_imports(
                self.definitions@,
                store.modules@[module_id as int].module.imports@,
            ));
        }
        Instance::new(store, module_id, &imports)
    }
}

/// Compares two string slices.
fn str_eq(a: &str, b: &str) -> (r: bool)
    ensures
        r == (a@ == b@),
{
    let sa = String::from_str(a);
    let sb = String::from_str(b);
    sa == sb
}

/// If every index below `i` differs and index `i` matches, `i` is the
/// first match.
proof fn lemma_find_def_prefix(
    defs: Seq<(String, String, Extern)>,
    module: Seq<char>,
    name: Seq<char>,
    i: int,
)
    requires
        0 <= i < defs.len(),
        forall|j: int| 0 <= j < i ==> !((#[trigger] defs[j]).0@ == module && defs[j].1@ == name),
        defs[i].0@ == module && defs[i].1@ == name,
    ensures
        spec_find_def(defs, module, name) == Some(i),
    decreases i,
{
    if i == 0 {
    } else {
        lemma_find_def_prefix(defs.drop_first(), module, name, i - 1);
    }
}

/// If no index matches, nothing is found.
proof fn lemma_find_def_none(
    defs: Seq<(String, String, Extern)>,
    module: Seq<char>,
    name: Seq<char>,
    n: int,
)
    requires
        n == defs.len(),
        forall|j: int| 0 <= j < n ==> !((#[trigger] defs[j]).0@ == module && defs[j].1@ == name),
    ensures
        spec_find_def(defs, module, name) is None,
    decreases n,
{
    if n > 0 {
        lemma_find_def_none(defs.drop_first(), module, name, n - 1);
    }
}

} // verus!
