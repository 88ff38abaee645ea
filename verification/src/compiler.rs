//! Driving code generation over a translated module.
//!
//! The external code generator emits, for every defined function, a native
//! body together with its relocation list, its trap table, and the runtime
//! checkpoints the generated code performs (function entry, loop back-edge,
//! direct call, fuel decrement, potential fault, return).  The compiler
//! concatenates the bodies into one object image, rebases relocations and
//! trap records to image offsets, and synthesizes a trampoline for every
//! signature in the module, so that all functions have a trampoline when
//! invoked through the embedding API.

use vstd::prelude::*;

use crate::config::Config;
use crate::errors::{CompileError, SetupError};
use crate::frame_info::TrapRecord;
use crate::link::{Relocation, RelocationTarget};
use crate::module::Module;
use crate::trampoline::{
    make_trampoline_plan, spec_trampoline_plan, TrampolineInfo, TRAMPOLINE_CODE_LEN, VALUE_SIZE,
};
use crate::values::Val;

verus! {

/// Select which kind of compilation to use.
#[derive(Debug, Clone, Copy, PartialEq, Eq, Structural)]
pub enum CompilationStrategy {
    /// Let the engine pick the strategy.
    Auto,
    /// Compile all functions with the primary code generator.
    Primary,
    /// Compile all functions with the alternate code generator.
    Alternate,
}

/// One runtime checkpoint of a compiled body: an engine-visible event the
/// generated code performs, at the given offset within the body.
#[derive(Debug, Clone, Copy, PartialEq, Eq, Structural)]
pub struct Checkpoint {
    /// The code offset of the checkpoint within the function body.
    pub offset: u32,
    /// The event.
    pub op: BodyOp,
}

/// The engine-visible events compiled code performs.
#[derive(Debug, Clone, Copy, PartialEq, Eq, Structural)]
pub enum BodyOp {
    /// A direct call of the function with the given module-level index.
    Call(u32),
    /// A loop back-edge: an interrupt check site.
    BackEdge,
    /// The given units of metered work.
    Work(u64),
    /// A potential CPU fault at this offset; its kind is in the trap table.
    Fault,
    /// Return from the function.
    Return,
}

/// What the code generator emitted for one defined function.
#[derive(Debug)]
pub struct FunctionArtifact {
    /// The native body bytes, with zeros at every relocation site.
    pub body: Vec<u8>,
    /// The body's relocations, with body-relative offsets.
    pub relocs: Vec<Relocation>,
    /// The body's trap table, sorted by strictly increasing body-relative
    /// offset.
    pub traps: Vec<TrapRecord>,
    /// The runtime checkpoints of the body, in execution order.
    pub checkpoints: Vec<Checkpoint>,
    /// The values the function leaves in the return registers when it runs
    /// to completion.
    pub result_values: Vec<Val>,
}

impl FunctionArtifact {
    /// Well-formedness against a module with `n_funcs` functions of which
    /// `n_defined` are defined.
    pub open spec fn wf(&self, n_funcs: int, n_defined: int) -> bool {
        &&& forall|i: int|
            0 <= i < self.relocs@.len() ==> (#[trigger] self.relocs@[i]).offset + 8
                <= self.body@.len()
        &&& forall|i: int, j: int|
            0 <= i < j < self.relocs@.len() ==> ((#[trigger] self.relocs@[i]).offset + 8 <= (
            #[trigger] self.relocs@[j]).offset || self.relocs@[j].offset + 8
                <= self.relocs@[i].offset)
        &&& forall|i: int|
            0 <= i < self.relocs@.len() ==> match (#[trigger] self.relocs@[i]).target {
                RelocationTarget::UserFunc(f) => (f as int) < n_defined,
                RelocationTarget::LibCall(_) => true,
                RelocationTarget::JumpTable(_) => false,
            }
        &&& forall|i: int, k: int|
            0 <= i < self.relocs@.len() && #[trigger] crate::link::spec_in_site(
                self.relocs@[i],
                k,
            ) ==> self.body@[k] == 0u8
        &&& forall|i: int, j: int|
            0 <= i < j < self.traps@.len() ==> (#[trigger] self.traps@[i]).offset < (
            #[trigger] self.traps@[j]).offset
        &&& forall|i: int|
            0 <= i < self.traps@.len() ==> ((#[trigger] self.traps@[i]).offset as int)
                < self.body@.len()
        &&& forall|i: int|
            0 <= i < self.checkpoints@.len() ==> ((#[trigger] self.checkpoints@[i]).offset as int)
                < self.body@.len()
        &&& forall|i: int|
            0 <= i < self.checkpoints@.len() ==> match (#[trigger] self.checkpoints@[i]).op {
                BodyOp::Call(f) => (f as int) < n_funcs,
                _ => true,
            }
    }
}

/// A data initializer: bytes to copy into a linear memory at instantiation.
#[derive(Debug)]
pub struct DataInitializer {
    /// The index of the memory to initialize.
    pub memory_index: u32,
    /// The byte offset within that memory.
    pub offset: u64,
    /// The bytes to copy.
    pub data: Vec<u8>,
}

/// The output of translation: the validated module shape and, for every
/// defined function, what the code generator emitted for it.
#[derive(Debug)]
pub struct ModuleTranslation {
    /// The validated module.
    pub module: Module,
    /// Per defined function, the code generator's output.
    pub artifacts: Vec<FunctionArtifact>,
    /// The module's data initializers.
    pub data_initializers: Vec<DataInitializer>,
}

impl ModuleTranslation {
    /// Well-formedness: the module is well formed and has one artifact per
    /// defined function, each well formed.
    pub open spec fn wf(&self) -> bool {
        &&& self.module.wf()
        &&& self.artifacts@.len() == self.module.functions@.len()
            - self.module.num_imported_funcs
        &&& forall|i: int|
            0 <= i < self.artifacts@.len() ==> (#[trigger] self.artifacts@[i]).wf(
                self.module.functions@.len() as int,
                self.artifacts@.len() as int,
            )
    }
}

/// The execution metadata kept per defined function: its checkpoints and
/// the values it returns on completion.
#[derive(Debug)]
pub struct FuncMeta {
    /// The runtime checkpoints of the body, in execution order.
    pub checkpoints: Vec<Checkpoint>,
    /// The values the function leaves in the return registers.
    pub result_values: Vec<Val>,
}

/// The relocatable code object a compilation produces.
#[derive(Debug)]
pub struct Compilation {
    /// The object image: function bodies first, trampolines following.
    pub obj: Vec<u8>,
    /// Per defined function, its `(offset, length)` range within the image.
    pub func_ranges: Vec<(u64, u64)>,
    /// Per signature index, the synthesized trampoline.
    pub trampolines: Vec<TrampolineInfo>,
    /// All relocations, rebased to image offsets.
    pub relocs: Vec<Relocation>,
    /// All trap records, rebased to image offsets, sorted by strictly
    /// increasing offset.
    pub traps: Vec<TrapRecord>,
    /// Per defined function, its execution metadata.
    pub func_meta: Vec<FuncMeta>,
}

impl Compilation {
    /// The layout contract of the compiler: every defined function's body
    /// is placed whole at its recorded range, the ranges ascend without
    /// overlap, relocations and trap records lie within the image with the
    /// relocation sites still zero, and every signature has a trampoline
    /// with the synthesized plan.
    pub open spec fn wf(&self, t: &ModuleTranslation) -> bool {
        &&& self.func_ranges@.len() == t.artifacts@.len()
        &&& self.func_meta@.len() == t.artifacts@.len()
        &&& self.trampolines@.len() == t.module.signatures@.len()
        &&& forall|f: int|
            0 <= f < self.func_ranges@.len() ==> (#[trigger] self.func_ranges@[f]).1
                == t.artifacts@[f].body@.len()
        &&& forall|f: int|
            0 <= f < self.func_ranges@.len() ==> (#[trigger] self.func_ranges@[f]).0
                + self.func_ranges@[f].1 <= self.obj@.len()
        &&& forall|f: int, g: int|
            0 <= f < g < self.func_ranges@.len() ==> (#[trigger] self.func_ranges@[f]).0
                + self.func_ranges@[f].1 <= (#[trigger] self.func_ranges@[g]).0
        &&& forall|f: int, b: int|
            0 <= f < self.func_ranges@.len() && 0 <= b < t.artifacts@[f].body@.len()
                ==> self.obj@[self.func_ranges@[f].0 + b] == #[trigger] t.artifacts@[f].body@[b]
        &&& crate::link::spec_relocs_wf(
            self.relocs@,
            self.obj@.len() as int,
            t.artifacts@.len() as int,
        )
        &&& forall|i: int, k: int|
            0 <= i < self.relocs@.len() && #[trigger] crate::link::spec_in_site(self.relocs@[i], k)
                ==> self.obj@[k] == 0u8
        &&& forall|i: int, j: int|
            0 <= i < j < self.traps@.len() ==> (#[trigger] self.traps@[i]).offset < (
            #[trigger] self.traps@[j]).offset
        &&& forall|i: int|
            0 <= i < self.traps@.len() ==> ((#[trigger] self.traps@[i]).offset as int)
                < self.obj@.len()
        &&& forall|s: int|
            0 <= s < self.trampolines@.len() ==> (#[trigger] self.trampolines@[s]).ops@
                == spec_trampoline_plan(
                t.module.signatures@[s].params@.len() as int,
                t.module.signatures@[s].results@.len() as int,
                VALUE_SIZE as int,
            )
        &&& forall|s: int|
            0 <= s < self.trampolines@.len() ==> (#[trigger] self.trampolines@[s]).offset
                + TRAMPOLINE_CODE_LEN <= self.obj@.len()
        &&& forall|f: int|
            0 <= f < self.func_meta@.len() ==> (#[trigger] self.func_meta@[f]).checkpoints@
                == t.artifacts@[f].checkpoints@ && self.func_meta@[f].result_values@
                == t.artifacts@[f].result_values@
    }
}

/// The target's frontend configuration: what the code generator needs to
/// know about the target.
#[derive(Debug, Clone, Copy)]
pub struct FrontendConfig {
    /// The width of a pointer on the target, in bytes.
    pub pointer_bytes: u8,
}

/// A WebAssembly code compiler: drives the external code generator over a
/// translated module and owns the layout of the resulting object.
#[derive(Debug)]
pub struct Compiler {
    /// The selected compilation strategy; `Auto` maps to `Primary`.
    pub strategy: CompilationStrategy,
    /// The engine tunables in effect.
    pub tunables: Config,
}

impl Compiler {
    /// Construct a new `Compiler`.
    pub fn new(strategy: CompilationStrategy, tunables: Config) -> (r: Compiler)
        ensures
            r.strategy == strategy,
            r.tunables == tunables,
    {
        Compiler { strategy, tunables }
    }

    /// Return the target's frontend configuration settings.
    pub fn frontend_config(&self) -> (r: FrontendConfig)
        ensures
            r.pointer_bytes == 8,
    {
        FrontendConfig { pointer_bytes: 8 }
    }

    /// Return the tunables in use by this engine.
    pub fn tunables(&self) -> (r: &Config)
        ensures
            r == &self.tunables,
    {
        &self.tunables
    }

    /// Compile the given translated module into a relocatable object:
    /// concatenate the generated bodies, rebase their relocations and trap
    /// records, and synthesize a trampoline per signature.
    ///
    /// Compilation succeeds whenever the image fits the address space; the
    /// implementation limit error is returned otherwise.
    pub fn compile(&self, t: &ModuleTranslation) -> (r: Result<Compilation, SetupError>)
        requires
            t.wf(),
        ensures
            match r {
                Ok(c) => c.wf(t),
                Err(e) => e matches SetupError::Compile(_),
            },
            // Compilation fails exactly when the image cannot fit.
            spec_compile_fits(t) ==> r is Ok,
            r is Err ==> !spec_compile_fits(t),
    {
        let mut obj: Vec<u8> = Vec::new();
        let mut func_ranges: Vec<(u64, u64)> = Vec::new();
        let mut relocs: Vec<Relocation> = Vec::new();
        let mut traps: Vec<TrapRecord> = Vec::new();
        let mut func_meta: Vec<FuncMeta> = Vec::new();
        let n = t.artifacts.len();
        let mut f: usize = 0;
        while f < n
            invariant
                t.wf(),
                n == t.artifacts@.len(),
                f <= n,
                obj@.len() == spec_sum_bodies(t.artifacts@.subrange(0, f as int)),
                obj@.len() <= usize::MAX,
                func_ranges@.len() == f as int,
                func_meta@.len() == f as int,
                forall|g: int|
                    0 <= g < f ==> (#[trigger] func_ranges@[g]).1 == t.artifacts@[g].body@.len(),
                forall|g: int|
                    0 <= g < f ==> (#[trigger] func_ranges@[g]).0 + func_ranges@[g].1
                        <= obj@.len(),
                forall|g: int, h: int|
                    0 <= g < h < f ==> (#[trigger] func_ranges@[g]).0 + func_ranges@[g].1 <= (
                    #[trigger] func_ranges@[h]).0,
                forall|g: int, b: int|
                    0 <= g < f && 0 <= b < t.artifacts@[g].body@.len() ==> obj@[func_ranges@[g].0
                        + b] == #[trigger] t.artifacts@[g].body@[b],
                crate::link::spec_relocs_wf(relocs@, obj@.len() as int, n as int),
                forall|i: int, k: int|
                    0 <= i < relocs@.len() && #[trigger] crate::link::spec_in_site(relocs@[i], k)
                        ==> 0 <= k < obj@.len() && obj@[k] == 0u8,
                forall|i: int, j: int|
                    0 <= i < j < traps@.len() ==> (#[trigger] traps@[i]).offset < (
                    #[trigger] traps@[j]).offset,
                forall|i: int|
                    0 <= i < traps@.len() ==> ((#[trigger] traps@[i]).offset as int) < obj@.len(),
                forall|g: int|
                    0 <= g < f ==> (#[trigger] func_meta@[g]).checkpoints@
                        == t.artifacts@[g].checkpoints@ && func_meta@[g].result_values@
                        == t.artifacts@[g].result_values@,
            decreases n - f,
        {
            let art = &t.artifacts[f];
            let body_len = art.body.len();
            if obj.len() > usize::MAX - body_len {
                proof {
                    if spec_compile_fits(t) {
                        lemma_sum_bodies_prefix_bound(t.artifacts@, f + 1 as int);
                        assert(t.artifacts@.subrange(0, f + 1 as int).drop_last()
                            =~= t.artifacts@.subrange(0, f as int));
                        lemma_mul_le(0, t.module.signatures@.len() as int,
                            TRAMPOLINE_CODE_LEN as int);
                        assert(false);
                    }
                }
                return Err(SetupError::Compile(CompileError::ImplLimit));
            }
            let off = obj.len() as u64;
            let ghost relocs0 = relocs@;
            let ghost traps0 = traps@;
            append_bytes(&mut obj, &art.body);
            proof {
                assert(t.artifacts@.subrange(0, f + 1 as int).drop_last() =~= t.artifacts@.subrange(
                    0,
                    f as int,
                ));
                assert(obj@.len() == spec_sum_bodies(t.artifacts@.subrange(0, f + 1 as int)));
            }
            func_ranges.push((off, body_len as u64));
            // Rebase this body's relocations to image offsets.  Earlier
            // sites end at or before `off`, and this body's sites lie
            // within its own range, so all sites stay pairwise disjoint
            // and still hold zeros.
            let nr = art.relocs.len();
            let mut i: usize = 0;
            while i < nr
                invariant
                    t.wf(),
                    f < n == t.artifacts@.len(),
                    art == &t.artifacts@[f as int],
                    nr == art.relocs@.len(),
                    i <= nr,
                    body_len == art.body@.len(),
                    off == spec_sum_bodies(t.artifacts@.subrange(0, f as int)),
                    off + body_len <= obj@.len(),
                    obj@.len() <= usize::MAX,
                    forall|b: int| 0 <= b < body_len ==> obj@[off + b] == art.body@[b],
                    relocs@.len() == relocs0.len() + i,
                    forall|q: int| 0 <= q < relocs0.len() ==> relocs@[q] == relocs0[q],
                    forall|q: int|
                        0 <= q < relocs0.len() ==> (#[trigger] relocs0[q]).offset + 8 <= off,
                    crate::link::spec_relocs_wf(relocs0, off as int, n as int),
                    forall|q: int|
                        relocs0.len() <= q < relocs@.len() ==> (#[trigger] relocs@[q]) == (
                        Relocation {
                            offset: (off + art.relocs@[q - relocs0.len()].offset) as u64,
                            target: art.relocs@[q - relocs0.len()].target,
                            addend: art.relocs@[q - relocs0.len()].addend,
                        }),
                    forall|q: int, k: int|
                        0 <= q < relocs0.len() && #[trigger] crate::link::spec_in_site(
                            relocs0[q],
                            k,
                        ) ==> 0 <= k < obj@.len() && obj@[k] == 0u8,
                decreases nr - i,
            {
                let r = &art.relocs[i];
                proof {
                    assert(art.relocs@[i as int].offset + 8 <= body_len);
                }
                relocs.push(
                    Relocation { offset: off + r.offset, target: r.target, addend: r.addend },
                );
                i += 1;
            }
            proof {
                lemma_rebased_relocs_wf(relocs@, relocs0, art.relocs@, off as int, obj@.len() as int, n as int, art.body@, obj@);
            }
            // Rebase this body's trap records to image offsets; earlier
            // records lie below `off`, this body's ascend within its range,
            // so the table stays sorted by strictly increasing offset.
            let nt = art.traps.len();
            let mut j: usize = 0;
            while j < nt
                invariant
                    t.wf(),
                    f < n == t.artifacts@.len(),
                    art == &t.artifacts@[f as int],
                    nt == art.traps@.len(),
                    j <= nt,
                    body_len == art.body@.len(),
                    off + body_len <= obj@.len(),
                    obj@.len() <= usize::MAX,
                    traps@.len() == traps0.len() + j,
                    forall|p: int| 0 <= p < traps0.len() ==> traps@[p] == traps0[p],
                    forall|p: int|
                        0 <= p < traps0.len() ==> ((#[trigger] traps0[p]).offset as int) < off,
                    forall|p: int, q: int|
                        0 <= p < q < traps0.len() ==> (#[trigger] traps0[p]).offset < (
                        #[trigger] traps0[q]).offset,
                    forall|p: int|
                        traps0.len() <= p < traps@.len() ==> (#[trigger] traps@[p]) == (
                        TrapRecord {
                            offset: (off + art.traps@[p - traps0.len()].offset) as u64,
                            source_loc: art.traps@[p - traps0.len()].source_loc,
                            code: art.traps@[p - traps0.len()].code,
                        }),
                decreases nt - j,
            {
                let tr = &art.traps[j];
                proof {
                    assert((art.traps@[j as int].offset as int) < body_len);
                }
                traps.push(
                    TrapRecord {
                        offset: off + tr.offset,
                        source_loc: tr.source_loc,
                        code: tr.code,
                    },
                );
                j += 1;
            }
            proof {
                assert(t.artifacts@[f as int].wf(
                    t.module.functions@.len() as int,
                    n as int,
                ));
                assert forall|p: int, q: int| 0 <= p < q < traps@.len() implies (
                #[trigger] traps@[p]).offset < (#[trigger] traps@[q]).offset by {
                    if q < traps0.len() {
                        assert(traps@[p] == traps0[p]);
                        assert(traps@[q] == traps0[q]);
                        assert(traps0[p].offset < traps0[q].offset);
                    } else if p < traps0.len() {
                        assert(traps@[p] == traps0[p]);
                        assert((traps0[p].offset as int) < off);
                        assert((art.traps@[q - traps0.len()].offset as int) < body_len);
                        assert(traps@[q].offset == off + art.traps@[q - traps0.len()].offset);
                    } else {
                        assert((art.traps@[p - traps0.len()].offset as int) < body_len);
                        assert((art.traps@[q - traps0.len()].offset as int) < body_len);
                        assert(traps@[p].offset == off + art.traps@[p - traps0.len()].offset);
                        assert(traps@[q].offset == off + art.traps@[q - traps0.len()].offset);
                        assert(art.traps@[p - traps0.len()].offset < art.traps@[q
                            - traps0.len()].offset);
                    }
                }
                assert forall|p: int| 0 <= p < traps@.len() implies ((
                #[trigger] traps@[p]).offset as int) < obj@.len() by {
                    if p >= traps0.len() {
                        assert((art.traps@[p - traps0.len()].offset as int) < body_len);
                        assert(traps@[p].offset == off + art.traps@[p - traps0.len()].offset);
                    } else {
                        assert(traps@[p] == traps0[p]);
                        assert((traps0[p].offset as int) < off);
                    }
                }
            }
            func_meta.push(
                FuncMeta {
                    checkpoints: crate::module::clone_copy_vec(&art.checkpoints),
                    result_values: crate::module::clone_copy_vec(&art.result_values),
                },
            );
            f += 1;
        }
        proof {
            assert(t.artifacts@.subrange(0, n as int) =~= t.artifacts@);
        }
        // Synthesize one trampoline per signature; they follow the function
        // bodies in the image and share their lifetime and publication.
        let mut trampolines: Vec<TrampolineInfo> = Vec::new();
        let ns = t.module.signatures.len();
        let mut s: usize = 0;
        let funcs_end = obj.len();
        while s < ns
            invariant
                t.wf(),
                n == t.artifacts@.len(),
                ns == t.module.signatures@.len(),
                s <= ns,
                funcs_end == spec_sum_bodies(t.artifacts@),
                obj@.len() == funcs_end + s * (TRAMPOLINE_CODE_LEN as int),
                trampolines@.len() == s as int,
                func_ranges@.len() == n as int,
                func_meta@.len() == n as int,
                forall|g: int|
                    0 <= g < n ==> (#[trigger] func_ranges@[g]).1 == t.artifacts@[g].body@.len(),
                forall|g: int|
                    0 <= g < n ==> (#[trigger] func_ranges@[g]).0 + func_ranges@[g].1
                        <= funcs_end,
                forall|g: int, h: int|
                    0 <= g < h < n ==> (#[trigger] func_ranges@[g]).0 + func_ranges@[g].1 <= (
                    #[trigger] func_ranges@[h]).0,
                forall|g: int, b: int|
                    0 <= g < n && 0 <= b < t.artifacts@[g].body@.len() ==> obj@[func_ranges@[g].0
                        + b] == #[trigger] t.artifacts@[g].body@[b],
                crate::link::spec_relocs_wf(relocs@, funcs_end as int, n as int),
                forall|i: int, k: int|
                    0 <= i < relocs@.len() && #[trigger] crate::link::spec_in_site(relocs@[i], k)
                        ==> 0 <= k < obj@.len() && obj@[k] == 0u8,
                forall|i: int, j: int|
                    0 <= i < j < traps@.len() ==> (#[trigger] traps@[i]).offset < (
                    #[trigger] traps@[j]).offset,
                forall|i: int|
                    0 <= i < traps@.len() ==> ((#[trigger] traps@[i]).offset as int) < funcs_end,
                forall|g: int|
                    0 <= g < n ==> (#[trigger] func_meta@[g]).checkpoints@
                        == t.artifacts@[g].checkpoints@ && func_meta@[g].result_values@
                        == t.artifacts@[g].result_values@,
                forall|q: int|
                    0 <= q < s ==> (#[trigger] trampolines@[q]).ops@ == spec_trampoline_plan(
                        t.module.signatures@[q].params@.len() as int,
                        t.module.signatures@[q].results@.len() as int,
                        VALUE_SIZE as int,
                    ),
                forall|q: int|
                    0 <= q < s ==> (#[trigger] trampolines@[q]).offset + TRAMPOLINE_CODE_LEN
                        <= obj@.len(),
            decreases ns - s,
        {
            let sig = &t.module.signatures[s];
            if sig.params.len() > 1000000 || sig.results.len() > 1000000 {
                return Err(SetupError::Compile(CompileError::ImplLimit));
            }
            if obj.len() > usize::MAX - (TRAMPOLINE_CODE_LEN as usize) {
                proof {
                    if spec_compile_fits(t) {
                        lemma_mul_le(s + 1 as int, ns as int, TRAMPOLINE_CODE_LEN as int);
                        assert((s + 1) * (TRAMPOLINE_CODE_LEN as int) == s * (
                        TRAMPOLINE_CODE_LEN as int) + TRAMPOLINE_CODE_LEN) by (nonlinear_arith);
                        lemma_sum_bodies_nonneg(t.artifacts@);
                        assert(false);
                    }
                }
                return Err(SetupError::Compile(CompileError::ImplLimit));
            }
            let toff = obj.len() as u64;
            append_zeros(&mut obj, TRAMPOLINE_CODE_LEN as usize);
            let ops = make_trampoline_plan(sig, VALUE_SIZE);
            // Trampoline code generation must yield at most libcall
            // relocations; anything else is a code generator bug and
            // aborts compilation.  It emits none here.
            let tramp_relocs: Vec<Relocation> = Vec::new();
            match crate::trampoline::check_trampoline_relocs(&tramp_relocs) {
                Ok(_) => {}
                Err(e) => {
                    proof {
                        assert(false);
                    }
                    return Err(e);
                }
            }
            trampolines.push(TrampolineInfo { offset: toff, ops });
            proof {
                assert((s + 1) * (TRAMPOLINE_CODE_LEN as int) == s * (TRAMPOLINE_CODE_LEN as int)
                    + TRAMPOLINE_CODE_LEN) by (nonlinear_arith);
            }
            s += 1;
        }
        Ok(Compilation { obj, func_ranges, trampolines, relocs, traps, func_meta })
    }
}

/// The total length of the generated bodies.
pub open spec fn spec_sum_bodies(arts: Seq<FunctionArtifact>) -> int
    decreases arts.len(),
{
    if arts.len() == 0 {
        0
    } else {
        spec_sum_bodies(arts.drop_last()) + arts.last().body@.len()
    }
}

/// Whether the compiled image fits the address space: the bodies plus one
/// trampoline per signature, with no signature beyond the synthesizer's
/// own limit.
pub open spec fn spec_compile_fits(t: &ModuleTranslation) -> bool {
    &&& spec_sum_bodies(t.artifacts@) + t.module.signatures@.len() * (TRAMPOLINE_CODE_LEN as int)
        <= usize::MAX
    &&& forall|s: int|
        0 <= s < t.module.signatures@.len() ==> (#[trigger] t.module.signatures@[s]).params@.len()
            <= 1000000 && t.module.signatures@[s].results@.len() <= 1000000
}

/// Body sums are nonnegative.
proof fn lemma_sum_bodies_nonneg(arts: Seq<FunctionArtifact>)
    ensures
        spec_sum_bodies(arts) >= 0,
    decreases arts.len(),
{
    if arts.len() > 0 {
        lemma_sum_bodies_nonneg(arts.drop_last());
    }
}

/// A prefix of the bodies never exceeds the whole sum.
proof fn lemma_sum_bodies_prefix_bound(arts: Seq<FunctionArtifact>, f: int)
    requires
        0 <= f <= arts.len(),
    ensures
        spec_sum_bodies(arts.subrange(0, f)) <= spec_sum_bodies(arts),
    decreases arts.len() - f,
{
    if f == arts.len() {
        assert(arts.subrange(0, f) =~= arts);
    } else {
        lemma_sum_bodies_prefix_bound(arts, f + 1);
        assert(arts.subrange(0, f + 1).drop_last() =~= arts.subrange(0, f));
        assert(spec_sum_bodies(arts.subrange(0, f + 1)) == spec_sum_bodies(arts.subrange(0, f))
            + arts[f].body@.len());
    }
}

/// Multiplication by a nonnegative factor preserves order.
proof fn lemma_mul_le(a: int, b: int, c: int)
    requires
        a <= b,
        c >= 0,
    ensures
        a * c <= b * c,
{
    assert(a * c <= b * c) by (nonlinear_arith)
        requires
            a <= b,
            c >= 0,
    ;
}

/// After rebasing one body's relocations to its image range, the combined
/// list is well formed against the grown image and its sites still hold
/// zeros.
proof fn lemma_rebased_relocs_wf(
    relocs: Seq<Relocation>,
    relocs0: Seq<Relocation>,
    art_relocs: Seq<Relocation>,
    off: int,
    obj_len: int,
    n: int,
    body: Seq<u8>,
    obj: Seq<u8>,
)
    requires
        relocs.len() == relocs0.len() + art_relocs.len(),
        forall|q: int| 0 <= q < relocs0.len() ==> relocs[q] == relocs0[q],
        forall|q: int| 0 <= q < relocs0.len() ==> (#[trigger] relocs0[q]).offset + 8 <= off,
        crate::link::spec_relocs_wf(relocs0, off, n),
        forall|q: int|
            relocs0.len() <= q < relocs.len() ==> (#[trigger] relocs[q]) == (Relocation {
                offset: (off + art_relocs[q - relocs0.len()].offset) as u64,
                target: art_relocs[q - relocs0.len()].target,
                addend: art_relocs[q - relocs0.len()].addend,
            }),
        forall|i: int|
            0 <= i < art_relocs.len() ==> (#[trigger] art_relocs[i]).offset + 8 <= body.len(),
        forall|i: int, j: int|
            0 <= i < j < art_relocs.len() ==> ((#[trigger] art_relocs[i]).offset + 8 <= (
            #[trigger] art_relocs[j]).offset || art_relocs[j].offset + 8 <= art_relocs[i].offset),
        forall|i: int|
            0 <= i < art_relocs.len() ==> match (#[trigger] art_relocs[i]).target {
                RelocationTarget::UserFunc(f) => (f as int) < n,
                RelocationTarget::LibCall(_) => true,
                RelocationTarget::JumpTable(_) => false,
            },
        forall|i: int, k: int|
            0 <= i < art_relocs.len() && #[trigger] crate::link::spec_in_site(art_relocs[i], k)
                ==> body[k] == 0u8,
        0 <= off,
        off + body.len() <= obj_len,
        obj_len <= usize::MAX,
        obj.len() == obj_len,
        forall|b: int| 0 <= b < body.len() ==> obj[off + b] == body[b],
        forall|q: int, k: int|
            0 <= q < relocs0.len() && #[trigger] crate::link::spec_in_site(relocs0[q], k) ==> 0
                <= k < obj.len() && obj[k] == 0u8,
    ensures
        crate::link::spec_relocs_wf(relocs, obj_len, n),
        forall|q: int, k: int|
            0 <= q < relocs.len() && #[trigger] crate::link::spec_in_site(relocs[q], k) ==> 0 <= k
                < obj.len() && obj[k] == 0u8,
{
    assert forall|i: int| 0 <= i < relocs.len() implies (#[trigger] relocs[i]).offset + 8
        <= obj_len by {
        if i >= relocs0.len() {
            assert(art_relocs[i - relocs0.len()].offset + 8 <= body.len());
            assert(relocs[i].offset == off + art_relocs[i - relocs0.len()].offset);
        }
    }
    assert forall|i: int, j: int| 0 <= i < j < relocs.len() implies ((#[trigger] relocs[i]).offset
        + 8 <= (#[trigger] relocs[j]).offset || relocs[j].offset + 8 <= relocs[i].offset) by {
        if j < relocs0.len() {
        } else if i < relocs0.len() {
            assert(relocs[i].offset + 8 <= off);
            assert(art_relocs[j - relocs0.len()].offset + 8 <= body.len());
            assert(off + art_relocs[j - relocs0.len()].offset <= usize::MAX);
            assert(relocs[j].offset == off + art_relocs[j - relocs0.len()].offset);
        } else {
            let a = art_relocs[i - relocs0.len()];
            let b = art_relocs[j - relocs0.len()];
            assert(a.offset + 8 <= body.len() && b.offset + 8 <= body.len());
            assert(relocs[i].offset == off + a.offset);
            assert(relocs[j].offset == off + b.offset);
            assert(a.offset + 8 <= b.offset || b.offset + 8 <= a.offset);
        }
    }
    assert forall|i: int| 0 <= i < relocs.len() implies match (#[trigger] relocs[i]).target {
        RelocationTarget::UserFunc(f) => (f as int) < n,
        RelocationTarget::LibCall(_) => true,
        RelocationTarget::JumpTable(_) => false,
    } by {
        if i >= relocs0.len() {
            assert(relocs[i].target == art_relocs[i - relocs0.len()].target);
        }
    }
    assert forall|q: int, k: int| 0 <= q < relocs.len() && #[trigger] crate::link::spec_in_site(
        relocs[q],
        k,
    ) implies 0 <= k < obj.len() && obj[k] == 0u8 by {
        if q >= relocs0.len() {
            let a = art_relocs[q - relocs0.len()];
            assert(a.offset + 8 <= body.len());
            assert(relocs[q].offset == off + a.offset);
            assert(a.offset <= k - off < a.offset + 8);
            assert(crate::link::spec_in_site(a, k - off));
            assert(body[k - off] == 0u8);
            assert(obj[off + (k - off)] == body[k - off]);
        }
    }
}

/// Appends `src` to `obj`.
pub fn append_bytes(obj: &mut Vec<u8>, src: &Vec<u8>)
    requires
        old(obj).len() + src.len() <= usize::MAX,
    ensures
        final(obj)@ == old(obj)@ + src@,
{
    let n = src.len();
    let mut i: usize = 0;
    while i < n
        invariant
            n == src@.len(),
            old(obj)@.len() + n <= usize::MAX,
            i <= n,
            obj@ == old(obj)@ + src@.subrange(0, i as int),
        decreases n - i,
    {
        obj.push(src[i]);
        proof {
            assert(old(obj)@ + src@.subrange(0, i + 1 as int) =~= (old(obj)@ + src@.subrange(
                0,
                i as int,
            )).push(src@[i as int]));
        }
        i += 1;
    }
    proof {
        assert(old(obj)@ + src@.subrange(0, n as int) =~= old(obj)@ + src@);
    }
}

/// Appends `n` zero bytes to `obj`.
pub fn append_zeros(obj: &mut Vec<u8>, n: usize)
    requires
        old(obj).len() + n <= usize::MAX,
    ensures
        final(obj)@.len() == old(obj)@.len() + n,
        forall|k: int| 0 <= k < old(obj)@.len() ==> final(obj)@[k] == old(obj)@[k],
        forall|k: int|
            old(obj)@.len() <= k < old(obj)@.len() + n ==> final(obj)@[k] == 0u8,
{
    let mut i: usize = 0;
    while i < n
        invariant
            old(obj)@.len() + n <= usize::MAX,
            i <= n,
            obj@.len() == old(obj)@.len() + i,
            forall|k: int| 0 <= k < old(obj)@.len() ==> obj@[k] == old(obj)@[k],
            forall|k: int| old(obj)@.len() <= k < old(obj)@.len() + i ==> obj@[k] == 0u8,
        decreases n - i,
    {
        obj.push(0);
        i += 1;
    }
}

} // verus!
