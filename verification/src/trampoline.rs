//! The per-signature trampoline synthesizer.
//!
//! For a signature `S` the synthesizer builds a small native function with
//! the uniform host calling convention
//! `(vmctx, caller_vmctx, callee, values_buf) -> ()`: it loads every Wasm
//! argument from `values_buf` at a fixed stride, makes an indirect call to
//! `callee` under the Wasm calling convention, stores the returned values
//! back into `values_buf` at the same stride, and returns.  The first two
//! Wasm arguments are always the two context pointers and come from the
//! trampoline's own parameters, not from the buffer.

use vstd::prelude::*;

use crate::errors::{CompileError, SetupError};
use crate::link::{Relocation, RelocationTarget};
use crate::types::FuncType;

verus! {

/// The fixed stride of the value buffer: one slot holds any value type.
pub const VALUE_SIZE: usize = 16;

/// The length of a synthesized trampoline's code, in bytes.
pub const TRAMPOLINE_CODE_LEN: u64 = 64;

/// One step of a trampoline's marshalling.
#[derive(Debug, Clone, Copy, PartialEq, Eq, Structural)]
pub enum TrampolineOp {
    /// Pass the callee `vmctx` pointer as the first Wasm argument.
    PassVmctx,
    /// Pass the caller `vmctx` pointer as the second Wasm argument.
    PassCallerVmctx,
    /// Load Wasm argument `index` from the value buffer at `offset`.
    LoadArg { index: usize, offset: usize },
    /// Call the callee address indirectly with the assembled arguments.
    CallIndirect,
    /// Store result `index` into the value buffer at `offset`.
    StoreResult { index: usize, offset: usize },
    /// Return to the host.
    Return,
}

/// The marshalling plan for a signature: the two context arguments, one
/// buffer load per Wasm parameter at stride `value_size`, the indirect
/// call, one buffer store per result, and the return.
pub open spec fn spec_trampoline_plan(
    n_params: int,
    n_results: int,
    value_size: int,
) -> Seq<TrampolineOp> {
    seq![TrampolineOp::PassVmctx, TrampolineOp::PassCallerVmctx] + Seq::new(
        n_params as nat,
        |i: int| TrampolineOp::LoadArg { index: (i + 2) as usize, offset: (i * value_size) as usize },
    ) + seq![TrampolineOp::CallIndirect] + Seq::new(
        n_results as nat,
        |i: int| TrampolineOp::StoreResult { index: i as usize, offset: (i * value_size) as usize },
    ) + seq![TrampolineOp::Return]
}

/// A synthesized trampoline: its marshalling plan and its code range within
/// the object, `TRAMPOLINE_CODE_LEN` bytes long.
#[derive(Debug)]
pub struct TrampolineInfo {
    /// The offset of the trampoline's code within the object image.
    pub offset: u64,
    /// The marshalling steps the trampoline performs.
    pub ops: Vec<TrampolineOp>,
}

/// Builds the marshalling plan for `sig` with the given buffer stride.
///
/// The plan is the contract of §trampoline synthesis: argument `i` of the
/// Wasm signature is read from buffer offset `i * value_size`, and result
/// `i` is written back to buffer offset `i * value_size`.
pub fn make_trampoline_plan(sig: &FuncType, value_size: usize) -> (ops: Vec<TrampolineOp>)
    requires
        sig.params@.len() * value_size <= usize::MAX,
        sig.results@.len() * value_size <= usize::MAX,
        sig.params@.len() + 2 <= usize::MAX,
    ensures
        ops@ == spec_trampoline_plan(
            sig.params@.len() as int,
            sig.results@.len() as int,
            value_size as int,
        ),
{
    let n_params = sig.params.len();
    let n_results = sig.results.len();
    let mut ops: Vec<TrampolineOp> = Vec::new();
    ops.push(TrampolineOp::PassVmctx);
    ops.push(TrampolineOp::PassCallerVmctx);
    let mut i: usize = 0;
    while i < n_params
        invariant
            n_params == sig.params@.len(),
            n_params * value_size <= usize::MAX,
            n_params + 2 <= usize::MAX,
            i <= n_params,
            ops@ == seq![TrampolineOp::PassVmctx, TrampolineOp::PassCallerVmctx] + Seq::new(
                i as nat,
                |k: int| TrampolineOp::LoadArg {
                    index: (k + 2) as usize,
                    offset: (k * value_size) as usize,
                },
            ),
        decreases n_params - i,
    {
        proof {
            assert(i * value_size <= n_params * value_size) by (nonlinear_arith)
                requires
                    i < n_params,
                    value_size >= 0,
            ;
            assert((i + 1) * value_size <= n_params * value_size) by (nonlinear_arith)
                requires
                    i + 1 <= n_params,
                    value_size >= 0,
            ;
        }
        ops.push(TrampolineOp::LoadArg { index: i + 2, offset: i * value_size });
        proof {
            assert(ops@ =~= seq![TrampolineOp::PassVmctx, TrampolineOp::PassCallerVmctx]
                + Seq::new(
                (i + 1) as nat,
                |k: int| TrampolineOp::LoadArg {
                    index: (k + 2) as usize,
                    offset: (k * value_size) as usize,
                },
            ));
        }
        i += 1;
    }
    ops.push(TrampolineOp::CallIndirect);
    let prefix = Ghost(ops@);
    let mut j: usize = 0;
    while j < n_results
        invariant
            n_results == sig.results@.len(),
            n_results * value_size <= usize::MAX,
            j <= n_results,
            ops@ == prefix@ + Seq::new(
                j as nat,
                |k: int| TrampolineOp::StoreResult {
                    index: k as usize,
                    offset: (k * value_size) as usize,
                },
            ),
        decreases n_results - j,
    {
        proof {
            assert(j * value_size <= n_results * value_size) by (nonlinear_arith)
                requires
                    j < n_results,
                    value_size >= 0,
            ;
        }
        ops.push(TrampolineOp::StoreResult { index: j, offset: j * value_size });
        proof {
            assert(ops@ =~= prefix@ + Seq::new(
                (j + 1) as nat,
                |k: int| TrampolineOp::StoreResult {
                    index: k as usize,
                    offset: (k * value_size) as usize,
                },
            ));
        }
        j += 1;
    }
    ops.push(TrampolineOp::Return);
    proof {
        assert(ops@ =~= spec_trampoline_plan(
            sig.params@.len() as int,
            sig.results@.len() as int,
            value_size as int,
        ));
    }
    ops
}

/// Checks the trampoline invariant: trampoline compilation must yield at
/// most libcall relocations; any block, constant or jump-table relocation
/// is a code generator bug and aborts compilation.
pub fn check_trampoline_relocs(relocs: &Vec<Relocation>) -> (r: Result<(), SetupError>)
    ensures
        match r {
            Ok(_) => forall|i: int|
                0 <= i < relocs@.len() ==> (#[trigger] relocs@[i]).target matches
                    RelocationTarget::LibCall(_),
            Err(_) => exists|i: int|
                0 <= i < relocs@.len() && !((#[trigger] relocs@[i]).target matches
                    RelocationTarget::LibCall(_)),
        },
{
    proof {
        reveal_strlit("trampoline compilation produced a non-libcall relocation");
    }
    let n = relocs.len();
    let mut i: usize = 0;
    while i < n
        invariant
            n == relocs@.len(),
            i <= n,
            forall|j: int|
                0 <= j < i ==> (#[trigger] relocs@[j]).target matches RelocationTarget::LibCall(_),
        decreases n - i,
    {
        match &relocs[i].target {
            RelocationTarget::LibCall(_) => {}
            _ => {
                return Err(
                    SetupError::Compile(
                        CompileError::Codegen(
                            String::from_str(
                                "trampoline compilation produced a non-libcall relocation",
                            ),
                        ),
                    ),
                );
            }
        }
        i += 1;
    }
    Ok(())
}

} // verus!
