//! From compilation artifacts to a live code image.
//!
//! [`CompilationArtifacts`] is the serializable output of compilation: the
//! module shape, the relocatable object, and the tables that describe it.
//! [`CompiledModule::from_artifacts`] places the object in code memory,
//! patches its relocation sites, and publishes the pages;
//! [`CompiledModule::to_compilation_artifacts`] reverses the patches and
//! hands the position-independent artifacts back, byte for byte.

use vstd::prelude::*;

use crate::code_memory::{CodeMemory, CodeRange};
use crate::compiler::{
    Checkpoint, Compiler, DataInitializer, FuncMeta, ModuleTranslation, spec_compile_fits,
};
use crate::errors::{InstantiationError, SetupError};
use crate::frame_info::TrapRecord;
use crate::link::{link_module, spec_linked_byte, spec_relocs_wf, spec_unlinked_byte, unlink_module, Relocation};
use crate::module::{clone_copy_vec, clone_module, spec_module_matches, Module};
use crate::trampoline::{spec_trampoline_plan, TrampolineInfo, TrampolineOp, TRAMPOLINE_CODE_LEN, VALUE_SIZE};
use crate::values::Val;

verus! {

/// Similar to `DataInitializer`, but owns its own copy of the data rather
/// than holding a slice of the original module.
#[derive(Debug)]
pub struct OwnedDataInitializer {
    /// The index of the memory to initialize.
    pub memory_index: u32,
    /// The byte offset within that memory.
    pub offset: u64,
    /// The bytes to copy.
    pub data: Vec<u8>,
}

impl OwnedDataInitializer {
    /// Takes ownership of a translation's data initializer.
    pub fn new(borrowed: DataInitializer) -> (r: OwnedDataInitializer)
        ensures
            r.memory_index == borrowed.memory_index,
            r.offset == borrowed.offset,
            r.data@ == borrowed.data@,
    {
        OwnedDataInitializer {
            memory_index: borrowed.memory_index,
            offset: borrowed.offset,
            data: borrowed.data,
        }
    }
}

/// Contains all compilation artifacts: everything needed to reload the
/// module on the same target without compiling again.
#[derive(Debug)]
pub struct CompilationArtifacts {
    /// Module metadata.
    pub module: Module,
    /// The object image with the functions' code, relocation sites zeroed.
    pub obj: Vec<u8>,
    /// Per defined function, its `(offset, length)` range within the image.
    pub func_ranges: Vec<(u64, u64)>,
    /// Per signature index, the synthesized trampoline.
    pub trampolines: Vec<TrampolineInfo>,
    /// The image's relocations.
    pub relocs: Vec<Relocation>,
    /// Trap descriptors, by strictly increasing image offset.
    pub traps: Vec<TrapRecord>,
    /// Per defined function, its execution metadata.
    pub func_meta: Vec<FuncMeta>,
    /// Data initializers.
    pub data_initializers: Vec<OwnedDataInitializer>,
    /// Debug info presence flag.
    pub debug_info: bool,
}

impl CompilationArtifacts {
    /// Well-formedness of reloadable artifacts.
    pub open spec fn wf(&self) -> bool {
        &&& self.module.wf()
        &&& self.func_ranges@.len() == self.module.functions@.len()
            - self.module.num_imported_funcs
        &&& self.func_meta@.len() == self.func_ranges@.len()
        &&& self.trampolines@.len() == self.module.signatures@.len()
        &&& forall|f: int|
            0 <= f < self.func_ranges@.len() ==> (#[trigger] self.func_ranges@[f]).0
                + self.func_ranges@[f].1 <= self.obj@.len()
        &&& forall|f: int, g: int|
            0 <= f < g < self.func_ranges@.len() ==> (#[trigger] self.func_ranges@[f]).0
                + self.func_ranges@[f].1 <= (#[trigger] self.func_ranges@[g]).0
        &&& spec_relocs_wf(self.relocs@, self.obj@.len() as int, self.func_ranges@.len() as int)
        &&& forall|i: int, k: int|
            0 <= i < self.relocs@.len() && #[trigger] crate::link::spec_in_site(self.relocs@[i], k)
                ==> 0 <= k < self.obj@.len() && self.obj@[k] == 0u8
        &&& forall|i: int, j: int|
            0 <= i < j < self.traps@.len() ==> (#[trigger] self.traps@[i]).offset < (
            #[trigger] self.traps@[j]).offset
        &&& forall|i: int|
            0 <= i < self.traps@.len() ==> ((#[trigger] self.traps@[i]).offset as int)
                < self.obj@.len()
        &&& forall|s: int|
            0 <= s < self.trampolines@.len() ==> (#[trigger] self.trampolines@[s]).ops@
                == spec_trampoline_plan(
                self.module.signatures@[s].params@.len() as int,
                self.module.signatures@[s].results@.len() as int,
                VALUE_SIZE as int,
            )
        &&& forall|s: int|
            0 <= s < self.trampolines@.len() ==> (#[trigger] self.trampolines@[s]).offset
                + TRAMPOLINE_CODE_LEN <= self.obj@.len()
        &&& forall|f: int, c: int|
            0 <= f < self.func_meta@.len() && 0 <= c < self.func_meta@[f].checkpoints@.len()
                ==> ((#[trigger] self.func_meta@[f].checkpoints@[c]).offset as int)
                < self.func_ranges@[f].1
        &&& forall|f: int, c: int|
            0 <= f < self.func_meta@.len() && 0 <= c < self.func_meta@[f].checkpoints@.len()
                ==> match (#[trigger] self.func_meta@[f].checkpoints@[c]).op {
                crate::compiler::BodyOp::Call(g) => (g as int) < self.module.functions@.len(),
                _ => true,
            }
    }

    /// Builds compilation artifacts: drives the compiler over a completed
    /// translation and packs the output into the reloadable form.  The
    /// generated bodies are carried whole at their recorded ranges, the
    /// data initializers are carried unchanged, and the build fails exactly
    /// when the image cannot fit.
    pub fn build(compiler: &Compiler, translation: ModuleTranslation) -> (r: Result<
        CompilationArtifacts,
        SetupError,
    >)
        requires
            translation.wf(),
        ensures
            match r {
                Ok(a) => {
                    &&& a.wf()
                    &&& a.module == translation.module
                    &&& a.debug_info == compiler.tunables.debug_info
                    &&& a.func_ranges@.len() == translation.artifacts@.len()
                    &&& forall|f: int|
                        0 <= f < a.func_ranges@.len() ==> (#[trigger] a.func_ranges@[f]).1
                            == translation.artifacts@[f].body@.len()
                    &&& forall|f: int, b: int|
                        0 <= f < a.func_ranges@.len() && 0 <= b
                            < translation.artifacts@[f].body@.len() ==> a.obj@[a.func_ranges@[
                            f].0 + b] == #[trigger] translation.artifacts@[f].body@[b]
                    &&& forall|f: int|
                        0 <= f < a.func_meta@.len() ==> (#[trigger] a.func_meta@[f]).checkpoints@
                            == translation.artifacts@[f].checkpoints@ && a.func_meta@[
                            f].result_values@ == translation.artifacts@[f].result_values@
                    &&& a.data_initializers@.len() == translation.data_initializers@.len()
                    &&& forall|d: int|
                        0 <= d < a.data_initializers@.len() ==> (
                        #[trigger] a.data_initializers@[d]).memory_index
                            == translation.data_initializers@[d].memory_index
                            && a.data_initializers@[d].offset
                            == translation.data_initializers@[d].offset
                            && a.data_initializers@[d].data@
                            == translation.data_initializers@[d].data@
                },
                Err(e) => e matches SetupError::Compile(_),
            },
            spec_compile_fits(&translation) ==> r is Ok,
            r is Err ==> !spec_compile_fits(&translation),
    {
        let ModuleTranslation { module, artifacts, data_initializers } = translation;
        let reassembled = ModuleTranslation { module, artifacts, data_initializers };
        let compilation = match compiler.compile(&reassembled) {
            Ok(c) => c,
            Err(e) => {
                return Err(e);
            }
        };
        let crate::compiler::Compilation { obj, func_ranges, trampolines, relocs, traps, func_meta }
            = compilation;
        let ModuleTranslation { module, artifacts, data_initializers } = reassembled;
        let ghost inits0 = data_initializers@;
        let mut owned: Vec<OwnedDataInitializer> = Vec::new();
        let nd = data_initializers.len();
        let mut di = data_initializers;
        let mut idx: usize = 0;
        while idx < nd
            invariant
                nd == inits0.len(),
                idx <= nd,
                di@ == inits0.subrange(idx as int, nd as int),
                owned@.len() == idx as int,
                forall|d: int|
                    0 <= d < idx ==> (#[trigger] owned@[d]).memory_index == inits0[d].memory_index
                        && owned@[d].offset == inits0[d].offset && owned@[d].data@
                        == inits0[d].data@,
            decreases nd - idx,
        {
            proof {
                assert(di@[0] == inits0[idx as int]);
                assert(di@.subrange(1, di@.len() as int) =~= inits0.subrange(
                    idx + 1 as int,
                    nd as int,
                ));
            }
            let d = di.remove(0);
            owned.push(OwnedDataInitializer::new(d));
            idx += 1;
        }
        proof {
            assert(forall|f: int, c: int|
                0 <= f < func_meta@.len() && 0 <= c < func_meta@[f].checkpoints@.len() ==> ((
                #[trigger] func_meta@[f].checkpoints@[c]).offset as int) < func_ranges@[f].1) by {
                assert(forall|f: int|
                    0 <= f < artifacts@.len() ==> (#[trigger] artifacts@[f]).wf(
                        module.functions@.len() as int,
                        artifacts@.len() as int,
                    ));
            }
        }
        Ok(
            CompilationArtifacts {
                module,
                obj,
                func_ranges,
                trampolines,
                relocs,
                traps,
                func_meta,
                data_initializers: owned,
                debug_info: compiler.tunables.debug_info,
            },
        )
    }
}

/// Container for the code an instance needs to exist: the published code
/// memory and the linked image placed in it.
#[derive(Debug)]
pub struct ModuleCode {
    /// The code memory holding the image, published.
    pub code_memory: CodeMemory,
    /// The linked image bytes.
    pub image: Vec<u8>,
    /// The address the image was placed at.
    pub image_start: u64,
}

/// A compiled wasm module, ready to be instantiated.
#[derive(Debug)]
pub struct CompiledModule {
    /// Module metadata.
    pub module: Module,
    /// Per defined function, its `(offset, length)` range within the image.
    pub func_ranges: Vec<(u64, u64)>,
    /// Per signature index, the synthesized trampoline.
    pub trampolines: Vec<TrampolineInfo>,
    /// The image's relocations, kept to reverse the patches on save.
    pub relocs: Vec<Relocation>,
    /// Trap descriptors, by strictly increasing image offset.
    pub traps: Vec<TrapRecord>,
    /// Per defined function, its execution metadata.
    pub func_meta: Vec<FuncMeta>,
    /// Data initializers.
    pub data_initializers: Vec<OwnedDataInitializer>,
    /// Debug info presence flag.
    pub debug_info: bool,
    /// The module's code: image bytes and the memory that backs them.
    pub code: ModuleCode,
}

/// The published addresses of the defined functions: the image base plus
/// each function's offset.
pub open spec fn spec_func_addrs(ranges: Seq<(u64, u64)>, start: u64) -> Seq<u64> {
    ranges.map_values(|r: (u64, u64)| (start + r.0) as u64)
}

impl CompiledModule {
    /// Well-formedness of a loaded module: the metadata is well formed as
    /// in the artifacts, and the image sits published in code memory at
    /// `image_start`.
    pub open spec fn wf(&self) -> bool {
        &&& self.module.wf()
        &&& self.func_ranges@.len() == self.module.functions@.len()
            - self.module.num_imported_funcs
        &&& self.func_meta@.len() == self.func_ranges@.len()
        &&& self.trampolines@.len() == self.module.signatures@.len()
        &&& forall|f: int|
            0 <= f < self.func_ranges@.len() ==> (#[trigger] self.func_ranges@[f]).0
                + self.func_ranges@[f].1 <= self.code.image@.len()
        &&& forall|f: int, g: int|
            0 <= f < g < self.func_ranges@.len() ==> (#[trigger] self.func_ranges@[f]).0
                + self.func_ranges@[f].1 <= (#[trigger] self.func_ranges@[g]).0
        &&& spec_relocs_wf(
            self.relocs@,
            self.code.image@.len() as int,
            self.func_ranges@.len() as int,
        )
        &&& forall|i: int, j: int|
            0 <= i < j < self.traps@.len() ==> (#[trigger] self.traps@[i]).offset < (
            #[trigger] self.traps@[j]).offset
        &&& forall|i: int|
            0 <= i < self.traps@.len() ==> ((#[trigger] self.traps@[i]).offset as int)
                < self.code.image@.len()
        &&& forall|s: int|
            0 <= s < self.trampolines@.len() ==> (#[trigger] self.trampolines@[s]).ops@
                == spec_trampoline_plan(
                self.module.signatures@[s].params@.len() as int,
                self.module.signatures@[s].results@.len() as int,
                VALUE_SIZE as int,
            )
        &&& forall|s: int|
            0 <= s < self.trampolines@.len() ==> (#[trigger] self.trampolines@[s]).offset
                + TRAMPOLINE_CODE_LEN <= self.code.image@.len()
        &&& forall|f: int, c: int|
            0 <= f < self.func_meta@.len() && 0 <= c < self.func_meta@[f].checkpoints@.len()
                ==> ((#[trigger] self.func_meta@[f].checkpoints@[c]).offset as int)
                < self.func_ranges@[f].1
        &&& forall|f: int, c: int|
            0 <= f < self.func_meta@.len() && 0 <= c < self.func_meta@[f].checkpoints@.len()
                ==> match (#[trigger] self.func_meta@[f].checkpoints@[c]).op {
                crate::compiler::BodyOp::Call(g) => (g as int) < self.module.functions@.len(),
                _ => true,
            }
        &&& self.code.code_memory.wf()
        &&& self.code.code_memory.ranges@.len() == 1
        &&& self.code.code_memory.ranges@[0] == (CodeRange {
            start: self.code.image_start,
            len: self.code.image@.len() as u64,
            published: true,
        })
        &&& self.code.image_start + self.code.image@.len() <= u64::MAX
        &&& self.code.image@.len() <= usize::MAX
    }

    /// Compile a completed translation into a `CompiledModule`, which may
    /// then be instantiated, placing its code at `base`.
    pub fn new(compiler: &Compiler, translation: ModuleTranslation, base: u64) -> (r: Result<
        CompiledModule,
        SetupError,
    >)
        requires
            translation.wf(),
        ensures
            r matches Ok(cm) ==> cm.wf(),
    {
        let artifacts = match CompilationArtifacts::build(compiler, translation) {
            Ok(a) => a,
            Err(e) => {
                return Err(e);
            }
        };
        Self::from_artifacts(artifacts, base)
    }

    /// Creates a `CompiledModule` directly from `CompilationArtifacts`:
    /// places the object in code memory at `base`, patches every relocation
    /// site with its published address, and publishes the pages.
    pub fn from_artifacts(artifacts: CompilationArtifacts, base: u64) -> (r: Result<
        CompiledModule,
        SetupError,
    >)
        requires
            artifacts.wf(),
        ensures
            match r {
                Ok(cm) => {
                    &&& cm.wf()
                    &&& cm.module == artifacts.module
                    &&& cm.func_ranges@ == artifacts.func_ranges@
                    &&& cm.trampolines == artifacts.trampolines
                    &&& cm.relocs@ == artifacts.relocs@
                    &&& cm.traps@ == artifacts.traps@
                    &&& cm.func_meta == artifacts.func_meta
                    &&& cm.data_initializers == artifacts.data_initializers
                    &&& cm.debug_info == artifacts.debug_info
                    &&& cm.code.image_start == base
                    &&& cm.code.image@.len() == artifacts.obj@.len()
                    &&& forall|k: int|
                        0 <= k < artifacts.obj@.len() ==> cm.code.image@[k] == spec_linked_byte(
                            artifacts.obj@,
                            artifacts.relocs@,
                            spec_func_addrs(artifacts.func_ranges@, base),
                            k,
                        )
                },
                Err(e) => {
                    &&& e matches SetupError::Instantiate(InstantiationError::Resource(_))
                    &&& base + artifacts.obj@.len() > u64::MAX
                },
            },
    {
        let (code_memory, image, image_start) = match build_code_memory(
            &artifacts.relocs,
            &artifacts.func_ranges,
            artifacts.obj,
            base,
        ) {
            Ok(t) => t,
            Err(e) => {
                return Err(e);
            }
        };
        Ok(
            CompiledModule {
                module: artifacts.module,
                func_ranges: artifacts.func_ranges,
                trampolines: artifacts.trampolines,
                relocs: artifacts.relocs,
                traps: artifacts.traps,
                func_meta: artifacts.func_meta,
                data_initializers: artifacts.data_initializers,
                debug_info: artifacts.debug_info,
                code: ModuleCode { code_memory, image, image_start },
            },
        )
    }

    /// Extracts `CompilationArtifacts` from the compiled module: copies the
    /// image and writes the relocation sites back to zero, restoring the
    /// position-independent object.
    pub fn to_compilation_artifacts(&self) -> (a: CompilationArtifacts)
        requires
            self.wf(),
        ensures
            spec_module_matches(&a.module, &self.module),
            a.func_ranges@ == self.func_ranges@,
            a.relocs@ == self.relocs@,
            a.traps@ == self.traps@,
            a.debug_info == self.debug_info,
            a.obj@.len() == self.code.image@.len(),
            forall|k: int|
                0 <= k < self.code.image@.len() ==> a.obj@[k] == spec_unlinked_byte(
                    self.code.image@,
                    self.relocs@,
                    k,
                ),
            a.trampolines@.len() == self.trampolines@.len(),
            forall|s: int|
                0 <= s < self.trampolines@.len() ==> (#[trigger] a.trampolines@[s]).offset
                    == self.trampolines@[s].offset && a.trampolines@[s].ops@
                    == self.trampolines@[s].ops@,
            a.func_meta@.len() == self.func_meta@.len(),
            forall|f: int|
                0 <= f < self.func_meta@.len() ==> (#[trigger] a.func_meta@[f]).checkpoints@
                    == self.func_meta@[f].checkpoints@ && a.func_meta@[f].result_values@
                    == self.func_meta@[f].result_values@,
            a.data_initializers@.len() == self.data_initializers@.len(),
            forall|d: int|
                0 <= d < self.data_initializers@.len() ==> (
                #[trigger] a.data_initializers@[d]).memory_index
                    == self.data_initializers@[d].memory_index && a.data_initializers@[d].offset
                    == self.data_initializers@[d].offset && a.data_initializers@[d].data@
                    == self.data_initializers@[d].data@,
    {
        let mut obj = clone_copy_vec(&self.code.image);
        unlink_module(&mut obj, &self.relocs);
        CompilationArtifacts {
            module: clone_module(&self.module),
            obj,
            func_ranges: clone_copy_vec(&self.func_ranges),
            trampolines: clone_trampolines(&self.trampolines),
            relocs: clone_copy_vec(&self.relocs),
            traps: clone_copy_vec(&self.traps),
            func_meta: clone_func_meta(&self.func_meta),
            data_initializers: clone_data_initializers(&self.data_initializers),
            debug_info: self.debug_info,
        }
    }

    /// Return the module metadata.
    pub fn module(&self) -> (r: &Module)
        ensures
            r == &self.module,
    {
        &self.module
    }

    /// Returns the published `(address, length)` range of every defined
    /// function.
    pub fn finished_functions(&self) -> (r: Vec<(u64, u64)>)
        requires
            self.wf(),
        ensures
            r@.len() == self.func_ranges@.len(),
            forall|f: int|
                0 <= f < self.func_ranges@.len() ==> (#[trigger] r@[f]).0
                    == self.code.image_start + self.func_ranges@[f].0 && r@[f].1
                    == self.func_ranges@[f].1,
    {
        let n = self.func_ranges.len();
        let mut out: Vec<(u64, u64)> = Vec::new();
        let mut i: usize = 0;
        while i < n
            invariant
                self.wf(),
                n == self.func_ranges@.len(),
                i <= n,
                out@.len() == i as int,
                forall|f: int|
                    0 <= f < i ==> (#[trigger] out@[f]).0 == self.code.image_start
                        + self.func_ranges@[f].0 && out@[f].1 == self.func_ranges@[f].1,
            decreases n - i,
        {
            let r = self.func_ranges[i];
            out.push((self.code.image_start + r.0, r.1));
            i += 1;
        }
        out
    }

    /// Returns the map for all traps in this module, by image offset.
    pub fn traps(&self) -> (r: &Vec<TrapRecord>)
        ensures
            r == &self.traps,
    {
        &self.traps
    }

    /// Returns all ranges covered by published code, as `(start, length)`.
    pub fn jit_code_ranges(&self) -> (r: Vec<(u64, u64)>)
        requires
            self.wf(),
        ensures
            r@ == self.code.code_memory.ranges@.filter(|c: CodeRange| c.published).map(
                |i: int, c: CodeRange| (c.start, c.len),
            ),
    {
        self.code.code_memory.published_ranges()
    }

    /// Returns the module's code container.
    pub fn code(&self) -> (r: &ModuleCode)
        ensures
            r == &self.code,
    {
        &self.code
    }

    /// Returns data initializers to run at instantiation.
    pub fn data_initializers(&self) -> (r: &Vec<OwnedDataInitializer>)
        ensures
            r == &self.data_initializers,
    {
        &self.data_initializers
    }
}


/// A compiled module's code memory holds a published address exactly when
/// the address lies within the module's image range.  Together with the
/// classification clause of module registration, the published addresses
/// of a registered module and the store's frame-info classification agree.
pub proof fn lemma_code_contains_iff_range(m: &CompiledModule, pc: u64)
    requires
        m.wf(),
    ensures
        m.code.code_memory.spec_contains_published(pc) <==> (m.code.image_start <= pc
            < m.code.image_start + m.code.image@.len()),
{
    if m.code.image_start <= pc < m.code.image_start + m.code.image@.len() {
        assert(m.code.code_memory.ranges@[0].published && m.code.code_memory.ranges@[
            0].spec_contains(pc));
    }
}

/// Places the object in fresh code memory at `base`, patches every
/// relocation with the published addresses of the defined functions, and
/// makes the image executable.  All patches happen after the bytes are in
/// code memory and before `publish`.
fn build_code_memory(
    relocs: &Vec<Relocation>,
    func_ranges: &Vec<(u64, u64)>,
    obj: Vec<u8>,
    base: u64,
) -> (r: Result<(CodeMemory, Vec<u8>, u64), SetupError>)
    requires
        spec_relocs_wf(relocs@, obj@.len() as int, func_ranges@.len() as int),
        forall|f: int|
            0 <= f < func_ranges@.len() ==> (#[trigger] func_ranges@[f]).0 + func_ranges@[f].1
                <= obj@.len(),
    ensures
        match r {
            Ok(t) => {
                &&& t.0.wf()
                &&& t.0.ranges@.len() == 1
                &&& t.0.ranges@[0] == (CodeRange {
                    start: base,
                    len: obj@.len() as u64,
                    published: true,
                })
                &&& t.2 == base
                &&& base + obj@.len() <= u64::MAX
                &&& t.1@.len() == obj@.len()
                &&& t.1@.len() <= usize::MAX
                &&& forall|k: int|
                    0 <= k < obj@.len() ==> t.1@[k] == spec_linked_byte(
                        obj@,
                        relocs@,
                        spec_func_addrs(func_ranges@, base),
                        k,
                    )
            },
            Err(e) => {
                &&& e matches SetupError::Instantiate(InstantiationError::Resource(_))
                &&& base + obj@.len() > u64::MAX
            },
        },
{
    proof {
        reveal_strlit("failed to build code memory for functions: ");
    }
    let mut code_memory = CodeMemory::new(base);
    let start = match code_memory.allocate_for_object(&obj) {
        Ok(s) => s,
        Err(msg) => {
            let mut text = String::from_str("failed to build code memory for functions: ");
            text.append(msg.as_str());
            return Err(SetupError::Instantiate(InstantiationError::Resource(text)));
        }
    };
    // Compute the published address of every defined function.
    let n = func_ranges.len();
    let mut func_addrs: Vec<u64> = Vec::new();
    let mut i: usize = 0;
    while i < n
        invariant
            n == func_ranges@.len(),
            i <= n,
            func_addrs@.len() == i as int,
            forall|f: int|
                0 <= f < i ==> (#[trigger] func_addrs@[f]) == vstd::wrapping::u64_specs::wrapping_add(
                    start,
                    func_ranges@[f].0,
                ),
        decreases n - i,
    {
        func_addrs.push(start.wrapping_add(func_ranges[i].0));
        i += 1;
    }
    proof {
        assert(start == base);
        assert forall|f: int| 0 <= f < n implies func_addrs@[f] == spec_func_addrs(
            func_ranges@,
            base,
        )[f] by {
            assert(func_ranges@[f].0 + func_ranges@[f].1 <= obj@.len());
            assert(start + obj@.len() <= u64::MAX);
            assert(func_addrs@[f] == vstd::wrapping::u64_specs::wrapping_add(
                start,
                func_ranges@[f].0,
            ));
        }
        assert(func_addrs@ =~= spec_func_addrs(func_ranges@, base));
    }
    let mut image = obj;
    proof {
        assert(image@.len() == image.len());
    }
    link_module(&mut image, relocs, &func_addrs);
    // Make all code compiled thus far executable.
    code_memory.publish();
    Ok((code_memory, image, start))
}

/// Copies a trampoline table.
pub fn clone_trampolines(v: &Vec<TrampolineInfo>) -> (r: Vec<TrampolineInfo>)
    ensures
        r@.len() == v@.len(),
        forall|s: int|
            0 <= s < v@.len() ==> (#[trigger] r@[s]).offset == v@[s].offset && r@[s].ops@
                == v@[s].ops@,
{
    let n = v.len();
    let mut out: Vec<TrampolineInfo> = Vec::new();
    let mut i: usize = 0;
    while i < n
        invariant
            n == v@.len(),
            i <= n,
            out@.len() == i as int,
            forall|s: int|
                0 <= s < i ==> (#[trigger] out@[s]).offset == v@[s].offset && out@[s].ops@
                    == v@[s].ops@,
        decreases n - i,
    {
        let t = &v[i];
        out.push(TrampolineInfo { offset: t.offset, ops: clone_copy_vec(&t.ops) });
        i += 1;
    }
    out
}

/// Copies the per-function execution metadata.
pub fn clone_func_meta(v: &Vec<FuncMeta>) -> (r: Vec<FuncMeta>)
    ensures
        r@.len() == v@.len(),
        forall|f: int|
            0 <= f < v@.len() ==> (#[trigger] r@[f]).checkpoints@ == v@[f].checkpoints@ && r@[
                f].result_values@ == v@[f].result_values@,
{
    let n = v.len();
    let mut out: Vec<FuncMeta> = Vec::new();
    let mut i: usize = 0;
    while i < n
        invariant
            n == v@.len(),
            i <= n,
            out@.len() == i as int,
            forall|f: int|
                0 <= f < i ==> (#[trigger] out@[f]).checkpoints@ == v@[f].checkpoints@ && out@[
                    f].result_values@ == v@[f].result_values@,
        decreases n - i,
    {
        let m = &v[i];
        out.push(
            FuncMeta {
                checkpoints: clone_copy_vec(&m.checkpoints),
                result_values: clone_copy_vec(&m.result_values),
            },
        );
        i += 1;
    }
    out
}

/// Copies the data initializers.
pub fn clone_data_initializers(v: &Vec<OwnedDataInitializer>) -> (r: Vec<OwnedDataInitializer>)
    ensures
        r@.len() == v@.len(),
        forall|d: int|
            0 <= d < v@.len() ==> (#[trigger] r@[d]).memory_index == v@[d].memory_index && r@[
                d].offset == v@[d].offset && r@[d].data@ == v@[d].data@,
{
    let n = v.len();
    let mut out: Vec<OwnedDataInitializer> = Vec::new();
    let mut i: usize = 0;
    while i < n
        invariant
            n == v@.len(),
            i <= n,
            out@.len() == i as int,
            forall|d: int|
                0 <= d < i ==> (#[trigger] out@[d]).memory_index == v@[d].memory_index && out@[
                    d].offset == v@[d].offset && out@[d].data@ == v@[d].data@,
        decreases n - i,
    {
        let d = &v[i];
        out.push(
            OwnedDataInitializer {
                memory_index: d.memory_index,
                offset: d.offset,
                data: clone_copy_vec(&d.data),
            },
        );
        i += 1;
    }
    out
}

} // verus!
