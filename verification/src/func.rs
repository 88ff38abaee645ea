//! Invoking Wasm functions, and the runtime half of their execution.
//!
//! `Func::call` validates the argument vector against the signature, writes
//! the arguments into a value buffer exactly as the signature's trampoline
//! loads them, and enters compiled code.  Native execution itself is the
//! code generator's output; what the engine sees of it is the sequence of
//! runtime checkpoints each body performs (entry and back-edge checks,
//! direct calls, fuel decrements, potential faults, the return), and the
//! executor here drives those checkpoints: it enforces the stack limit,
//! consumes interrupts, meters fuel, classifies faulting addresses through
//! the store's frame info, and reconstructs the Wasm backtrace on a trap.

use vstd::prelude::*;

use crate::compiler::{BodyOp, Checkpoint};
use crate::config::WASM_FRAME_COST;
use crate::frame_info::{FrameInfo, TrapRecord};
use crate::module::clone_copy_vec;
use crate::store::{FuncRef, HostBehavior, HostFunc, OutOfGasAction, Store, spec_funcref_valid};
use crate::trap::{Trap, TrapCode, spec_dec_str};
use crate::types::{FuncType, ValType};
use crate::values::{spec_val_bits, spec_val_of_bits, val_of_bits, val_to_bits, Val};

verus! {

/// One live Wasm frame during execution: the owning instance and the
/// function's module-level index.
#[derive(Debug, Clone, Copy, PartialEq, Eq, Structural)]
pub struct WasmFrame {
    /// The owning instance's index in the store.
    pub instance: usize,
    /// The function's index within the instance's module.
    pub func_index: u32,
}

/// Validity of a frame entry against the store: it names a defined
/// function of a live instance.
pub open spec fn spec_frame_valid(s: &Store, f: WasmFrame) -> bool {
    spec_funcref_valid(s, FuncRef::Wasm { instance: f.instance, index: f.func_index })
}

/// The address a frame is classified by: the published start of its
/// function's code.
pub open spec fn spec_frame_pc(s: &Store, f: WasmFrame) -> u64 {
    let m = &s.modules@[s.instances@[f.instance as int].module_id as int];
    let def = f.func_index - m.module.num_imported_funcs;
    (m.code.image_start + m.func_ranges@[def as int].0) as u64
}

/// The backtrace entry for a frame: its classification through the store's
/// frame info, or an anonymous frame when the address is not registered.
pub open spec fn spec_frame_classify(s: &Store, f: WasmFrame) -> FrameInfo {
    match s.frame_info.spec_lookup_frame(spec_frame_pc(s, f)) {
        Some(info) => info,
        None => FrameInfo { module_name: None, func_index: f.func_index, func_name: None },
    }
}

/// The backtrace for a frame stack: one entry per Wasm frame between the
/// trap site and the outermost host-to-Wasm entry, innermost first.
pub open spec fn spec_backtrace(s: &Store, frames: Seq<WasmFrame>) -> Seq<FrameInfo> {
    Seq::new(frames.len(), |k: int| spec_frame_classify(s, frames[frames.len() - 1 - k]))
}

/// Builds the backtrace for the current frame stack, innermost frame
/// first.  Its length equals the number of live Wasm frames.
pub fn build_backtrace(store: &Store, frames: &Vec<WasmFrame>) -> (t: Vec<FrameInfo>)
    requires
        store.wf(),
        forall|k: int| 0 <= k < frames@.len() ==> spec_frame_valid(store, #[trigger] frames@[k]),
    ensures
        t@.len() == frames@.len(),
        t@ == spec_backtrace(store, frames@),
{
    let n = frames.len();
    let mut t: Vec<FrameInfo> = Vec::new();
    let mut k: usize = 0;
    while k < n
        invariant
            store.wf(),
            n == frames@.len(),
            forall|j: int| 0 <= j < n ==> spec_frame_valid(store, #[trigger] frames@[j]),
            k <= n,
            t@.len() == k as int,
            forall|j: int|
                0 <= j < k ==> #[trigger] t@[j] == spec_frame_classify(
                    store,
                    frames@[n - 1 - j],
                ),
        decreases n - k,
    {
        let f = frames[n - 1 - k];
        let m = &store.modules[store.instances[f.instance].module_id];
        proof {
            assert(spec_frame_valid(store, frames@[n - 1 - k as int]));
            assert(m.wf());
        }
        let def = (f.func_index as usize) - m.module.num_imported_funcs;
        let pc = m.code.image_start + m.func_ranges[def].0;
        let entry = match store.frame_info.lookup_frame_info(pc) {
            Some(info) => info,
            None => FrameInfo { module_name: None, func_index: f.func_index, func_name: None },
        };
        t.push(entry);
        k += 1;
    }
    proof {
        assert(t@ =~= spec_backtrace(store, frames@));
    }
    t
}

/// The parts of a store the executor never touches: everything but the
/// interrupt flag, the fuel counter and the out-of-gas behavior.  This is
/// the "never corrupts store state" half of every call's contract.
pub open spec fn spec_store_preserved(pre: &Store, post: &Store) -> bool {
    &&& post.engine == pre.engine
    &&& post.is_async == pre.is_async
    &&& post.signatures == pre.signatures
    &&& post.frame_info == pre.frame_info
    &&& post.modules == pre.modules
    &&& post.instances == pre.instances
    &&& post.host_funcs == pre.host_funcs
    &&& post.memories == pre.memories
    &&& post.tables == pre.tables
    &&& post.globals == pre.globals
    &&& post.instance_count == pre.instance_count
    &&& post.memory_count == pre.memory_count
    &&& post.table_count == pre.table_count
    &&& post.fuel_adj == pre.fuel_adj
}

/// What is true of every trap execution returns.  A runtime-fault trap
/// carries the stable message for its kind and source location; a recorded
/// source location comes from a registered trap table entry of that kind at
/// some classified address, and a fault without one is a synthesized check
/// (stack limit, interrupt, fuel) or the unclassified-fault fallback.  A
/// user trap carries some host function's trap message verbatim.
pub open spec fn spec_trap_source_wf(s: &Store, t: &Trap) -> bool {
    match t.code {
        Some(c) => {
            &&& t.message@ == crate::trap::spec_wasm_trap_message(c, t.source_loc)
            &&& match t.source_loc {
                Some(l) => exists|pc: u64| #[trigger] s.frame_info.spec_lookup_trap(pc)
                    == Some(TrapRecord { offset: pc, source_loc: l, code: c }),
                None => c == TrapCode::StackOverflow || c == TrapCode::Interrupt || c
                    == TrapCode::OutOfFuel || c == TrapCode::Unreachable,
            }
        },
        None => exists|h: int|
            0 <= h < s.host_funcs@.len() && ((#[trigger] s.host_funcs@[h].behavior) matches
                HostBehavior::TrapMsg(m) && t.message == m),
    }
}

/// Whether every entry of a frame stack is a live, valid Wasm frame.
pub open spec fn spec_frames_valid(s: &Store, fs: Seq<WasmFrame>) -> bool {
    forall|k: int| 0 <= k < fs.len() ==> spec_frame_valid(s, #[trigger] fs[k])
}

/// Whether a trap's backtrace is the classification of some stack of valid
/// Wasm frames, innermost first: what a call promises of the trace of any
/// trap it returns.
pub open spec fn spec_trace_of_valid_frames(s: &Store, t: &Trap) -> bool {
    exists|fs: Seq<WasmFrame>| #[trigger] spec_backtrace(s, fs) == t.trace@ && spec_frames_valid(
        s,
        fs,
    )
}

/// Runs one defined function to completion: pushes its frame, performs the
/// prologue checks (stack limit, interrupt), and drives the body's
/// checkpoints, recursing into direct calls.
///
/// On success the frame stack is exactly as before.  On a trap the trap
/// carries the backtrace of the frames that were live at the fault.
pub(crate) fn run_function(store: &mut Store, frames: &mut Vec<WasmFrame>, instance: usize, func_index: u32)
    -> (r: Result<(), Trap>)
    requires
        old(store).wf(),
        !old(store).is_async,
        spec_funcref_valid(old(store), FuncRef::Wasm { instance, index: func_index }),
        forall|k: int|
            0 <= k < old(frames)@.len() ==> spec_frame_valid(old(store), #[trigger] old(frames)@[k]),
        old(frames)@.len() <= old(store).engine.config.max_wasm_stack / WASM_FRAME_COST,
    ensures
        final(store).wf(),
        spec_store_preserved(old(store), final(store)),
        r is Ok ==> final(frames)@ == old(frames)@,
        // The interrupt flag is never raised by execution.
        !old(store).interrupts.interrupted ==> !final(store).interrupts.interrupted,
        // When the entry's prologue runs, any pending interrupt is consumed.
        old(frames)@.len() + 1 <= old(store).engine.config.max_wasm_stack / WASM_FRAME_COST
            ==> !final(store).interrupts.interrupted,
        // A pending interrupt makes the function entry trap with the
        // interrupt kind; the flag is consumed, so subsequent execution
        // resumes normally.
        (old(store).interrupts.interrupted && old(frames)@.len() + 1 <= old(
            store,
        ).engine.config.max_wasm_stack / WASM_FRAME_COST) ==> (r matches Err(t) && t.code == Some(
            TrapCode::Interrupt,
        )),
        // A returned trap carries a consistent message and source, and its
        // backtrace is the classification of the Wasm frames that were live
        // at the fault, innermost first.
        r matches Err(t) ==> {
            &&& spec_trap_source_wf(final(store), &t)
            &&& t.trace@ == spec_backtrace(final(store), final(frames)@)
            &&& forall|k: int|
                0 <= k < final(frames)@.len() ==> spec_frame_valid(
                    final(store),
                    #[trigger] final(frames)@[k],
                )
        },
        // Exceeding the stack limit raises the stack-overflow trap, with the
        // recursion's frames all on the backtrace.
        old(frames)@.len() + 1 > old(store).engine.config.max_wasm_stack / WASM_FRAME_COST ==> (r
            matches Err(t) && t.code == Some(TrapCode::StackOverflow) && t.source_loc is None
            && final(frames)@.len() == old(frames)@.len() + 1),
    decreases old(store).engine.config.max_wasm_stack / WASM_FRAME_COST - old(frames)@.len(),
{
    let limit = store.max_wasm_frames();
    frames.push(WasmFrame { instance, func_index });
    // Prologue: the soft stack limit, then the interrupt check compiled
    // into every function entry.
    if frames.len() as u64 > limit {
        let trace = build_backtrace(store, frames);
        return Err(Trap::new_wasm(TrapCode::StackOverflow, None, trace));
    }
    if store.check_interrupt() {
        let trace = build_backtrace(store, frames);
        return Err(Trap::new_wasm(TrapCode::Interrupt, None, trace));
    }
    // The body's checkpoints, copied out so the store stays mutable.
    let (ops, mid, def): (Vec<Checkpoint>, usize, usize) = {
        let m = &store.modules[store.instances[instance].module_id];
        proof {
            assert(m.wf());
        }
        let def = (func_index as usize) - m.module.num_imported_funcs;
        (clone_copy_vec(&m.func_meta[def].checkpoints), store.instances[instance].module_id, def)
    };
    let n = ops.len();
    let mut pc: usize = 0;
    while pc < n
        invariant
            store.wf(),
            !store.is_async,
            spec_store_preserved(old(store), store),
            n == ops@.len(),
            pc <= n,
            limit == store.engine.config.max_wasm_stack / WASM_FRAME_COST,
            frames@ == old(frames)@.push(WasmFrame { instance, func_index }),
            frames@.len() <= limit,
            !store.interrupts.interrupted,
            !(old(store).interrupts.interrupted && old(frames)@.len() + 1 <= old(
                store,
            ).engine.config.max_wasm_stack / WASM_FRAME_COST),
            old(frames)@.len() + 1 <= old(store).engine.config.max_wasm_stack / WASM_FRAME_COST,
            forall|k: int|
                0 <= k < frames@.len() ==> spec_frame_valid(store, #[trigger] frames@[k]),
            spec_funcref_valid(store, FuncRef::Wasm { instance, index: func_index }),
            (mid as int) == store.instances@[instance as int].module_id,
            (mid as int) < store.modules@.len(),
            def as int == func_index - store.modules@[mid as int].module.num_imported_funcs,
            (def as int) < store.modules@[mid as int].func_meta@.len(),
            ops@ == store.modules@[mid as int].func_meta@[def as int].checkpoints@,
        decreases n - pc,
    {
        let op = ops[pc];
        match op.op {
            BodyOp::Call(target) => {
                proof {
                    assert(store.modules@[mid as int].wf());
                }
                let m_num_imported = {
                    let m = &store.modules[mid];
                    m.module.num_imported_funcs
                };
                if (target as usize) < m_num_imported {
                    // An imported function: flows through the instance's
                    // import vector rather than a patched call site.
                    let callee: FuncRef = store.instances[instance].func_imports[target as usize];
                    match callee {
                        FuncRef::Host(h) => {
                            let outcome = host_outcome(store, h);
                            match outcome {
                                None => {}
                                Some(message) => {
                                    let trace = build_backtrace(store, frames);
                                    return Err(Trap::new(message).with_backtrace(trace));
                                }
                            }
                        }
                        FuncRef::Wasm { instance: callee_inst, index: callee_index } => {
                            match run_function(store, frames, callee_inst, callee_index) {
                                Ok(_) => {}
                                Err(t) => {
                                    return Err(t);
                                }
                            }
                        }
                    }
                } else {
                    match run_function(store, frames, instance, target) {
                        Ok(_) => {}
                        Err(t) => {
                            return Err(t);
                        }
                    }
                }
            }
            BodyOp::BackEdge => {
                // The interrupt check compiled into every loop back-edge.
                if store.check_interrupt() {
                    let trace = build_backtrace(store, frames);
                    return Err(Trap::new_wasm(TrapCode::Interrupt, None, trace));
                }
            }
            BodyOp::Work(units) => {
                if store.engine.config.consume_fuel {
                    let exhausted = store.consume_fuel_units(units);
                    if exhausted {
                        match store.out_of_gas() {
                            OutOfGasAction::TrapNow => {
                                let trace = build_backtrace(store, frames);
                                return Err(
                                    Trap::new_wasm(TrapCode::OutOfFuel, None, trace),
                                );
                            }
                            OutOfGasAction::Yield(_) => {
                                // Unreachable: yielding requires an async
                                // store, and this executor is synchronous.
                                let trace = build_backtrace(store, frames);
                                return Err(
                                    Trap::new_wasm(TrapCode::OutOfFuel, None, trace),
                                );
                            }
                        }
                    }
                }
            }
            BodyOp::Fault => {
                // A CPU fault at this address: classify it through the
                // store's frame info and trap table.
                let fault_pc = {
                    let m = &store.modules[mid];
                    proof {
                        assert(m.wf());
                    }
                    m.code.image_start + m.func_ranges[def].0 + (op.offset as u64)
                };
                let (code, srcloc): (TrapCode, Option<u32>) = match store.frame_info.lookup_trap_info(
                    fault_pc,
                ) {
                    Some(rec) => {
                        proof {
                            assert(store.frame_info.spec_lookup_trap(fault_pc) == Some(
                                TrapRecord {
                                    offset: fault_pc,
                                    source_loc: rec.source_loc,
                                    code: rec.code,
                                },
                            ));
                        }
                        (rec.code, Some(rec.source_loc))
                    }
                    None => (TrapCode::Unreachable, None),
                };
                let trace = build_backtrace(store, frames);
                return Err(Trap::new_wasm(code, srcloc, trace));
            }
            BodyOp::Return => {
                frames.pop();
                return Ok(());
            }
        }
        pc += 1;
    }
    // A body whose checkpoints end without an explicit return returns here.
    frames.pop();
    Ok(())
}

/// Reads a host function's outcome: `None` when it returns normally,
/// `Some(message)` when it returns a trap.
fn host_outcome(store: &Store, h: usize) -> (r: Option<String>)
    requires
        store.wf(),
        (h as int) < store.host_funcs@.len(),
    ensures
        match r {
            Some(m) => store.host_funcs@[h as int].behavior matches HostBehavior::TrapMsg(t)
                && m == t,
            None => store.host_funcs@[h as int].behavior is Return,
        },
{
    match &store.host_funcs[h].behavior {
        HostBehavior::Return(_) => None,
        HostBehavior::TrapMsg(m) => Some(m.clone()),
    }
}

/// The count-mismatch message: `expected K arguments, got M`.
pub open spec fn spec_expected_arguments_msg(k: int, m: int) -> Seq<char> {
    "expected "@ + spec_dec_str(k as nat) + " arguments, got "@ + spec_dec_str(m as nat)
}

/// The type-mismatch message.
pub open spec fn spec_type_mismatch_msg() -> Seq<char> {
    "argument type mismatch"@
}

/// Whether an argument vector matches a parameter list exactly.
pub open spec fn spec_args_match(params: Seq<ValType>, args: Seq<Val>) -> bool {
    &&& args.len() == params.len()
    &&& forall|i: int| 0 <= i < args.len() ==> (#[trigger] args[i]).spec_ty() == params[i]
}

/// The values a call returns: the produced values driven through the value
/// buffer, slot by slot, and read back under the declared result types.
/// A slot no produced value was stored into reads back as zero bits.
pub open spec fn spec_returned_vals(results: Seq<ValType>, produced: Seq<Val>) -> Seq<Val> {
    Seq::new(
        results.len(),
        |i: int| spec_val_of_bits(
            results[i],
            if i < produced.len() {
                spec_val_bits(produced[i])
            } else {
                0
            },
        ),
    )
}

/// When the produced values match the declared result types, the buffer
/// round trip returns them unchanged: a call returns the spec-defined
/// result exactly.
pub proof fn lemma_returned_vals_exact(results: Seq<ValType>, produced: Seq<Val>)
    requires
        produced.len() == results.len(),
        forall|i: int| 0 <= i < produced.len() ==> (#[trigger] produced[i]).spec_ty() == results[i],
    ensures
        spec_returned_vals(results, produced) == produced,
{
    assert forall|i: int| 0 <= i < results.len() implies spec_returned_vals(results, produced)[i]
        == produced[i] by {
        crate::values::lemma_val_bits_roundtrip(produced[i]);
    }
    assert(spec_returned_vals(results, produced) =~= produced);
}

/// Trap source consistency depends only on the store's host functions and
/// frame info; stores that agree on both judge a trap alike.
pub proof fn lemma_trap_source_wf_same(s1: &Store, s2: &Store, t: &Trap)
    requires
        s1.host_funcs == s2.host_funcs,
        s1.frame_info == s2.frame_info,
        spec_trap_source_wf(s1, t),
    ensures
        spec_trap_source_wf(s2, t),
{
    match t.code {
        Some(c) => {
            match t.source_loc {
                Some(l) => {
                    let pc = choose|pc: u64|
                        #[trigger] s1.frame_info.spec_lookup_trap(pc) == Some(
                            TrapRecord { offset: pc, source_loc: l, code: c },
                        );
                    assert(s2.frame_info.spec_lookup_trap(pc) == Some(
                        TrapRecord { offset: pc, source_loc: l, code: c },
                    ));
                }
                None => {}
            }
        }
        None => {
            let h = choose|h: int|
                0 <= h < s1.host_funcs@.len() && ((#[trigger] s1.host_funcs@[h].behavior) matches
                    HostBehavior::TrapMsg(m) && t.message == m);
            assert(0 <= h < s2.host_funcs@.len() && (s2.host_funcs@[h].behavior matches
                HostBehavior::TrapMsg(m) && t.message == m));
        }
    }
}

/// A callable Wasm or host function.
#[derive(Debug, Clone, Copy, PartialEq, Eq, Structural)]
pub struct Func {
    /// What the handle calls.
    pub kind: FuncRef,
}

impl Func {
    /// Defines a new host function in the store with the given signature
    /// and behavior, and returns a handle to it.
    pub fn new(store: &mut Store, ty: FuncType, behavior: HostBehavior) -> (r: Func)
        requires
            old(store).wf(),
        ensures
            final(store).wf(),
            r.kind == FuncRef::Host(old(store).host_funcs@.len() as usize),
            spec_funcref_valid(final(store), r.kind),
            final(store).host_funcs@.len() == old(store).host_funcs@.len() + 1,
            final(store).host_funcs@.last().ty@ == ty@,
            final(store).host_funcs@.last().behavior == behavior,
            forall|h: int|
                0 <= h < old(store).host_funcs@.len() ==> final(store).host_funcs@[h] == old(
                    store,
                ).host_funcs@[h],
            final(store).instances == old(store).instances,
            final(store).modules == old(store).modules,
            final(store).frame_info == old(store).frame_info,
            final(store).interrupts == old(store).interrupts,
            final(store).engine == old(store).engine,
            final(store).memories == old(store).memories,
            final(store).tables == old(store).tables,
            final(store).globals == old(store).globals,
            final(store).signatures == old(store).signatures,
            final(store).fuel_adj == old(store).fuel_adj,
    {
        let id = store.host_funcs.len();
        store.host_funcs.push(HostFunc { ty, behavior });
        proof {
            assert forall|i: int| 0 <= i < store.instances@.len() implies crate::store::spec_instance_valid(
                store,
                &store.instances@[i],
            ) by {
                assert(crate::store::spec_instance_valid(old(store), &old(store).instances@[i]));
                assert forall|k: int|
                    0 <= k < store.instances@[i].func_imports@.len() implies spec_funcref_valid(
                    store,
                    #[trigger] store.instances@[i].func_imports@[k],
                ) by {
                    assert(spec_funcref_valid(
                        old(store),
                        old(store).instances@[i].func_imports@[k],
                    ));
                }
            }
        }
        Func { kind: FuncRef::Host(id) }
    }

    /// Returns the signature this function is callable under.
    pub fn ty(&self, store: &Store) -> (r: FuncType)
        requires
            store.wf(),
            spec_funcref_valid(store, self.kind),
        ensures
            r@ == spec_func_ty(store, self.kind),
    {
        match self.kind {
            FuncRef::Host(h) => crate::module::clone_func_type(&store.host_funcs[h].ty),
            FuncRef::Wasm { instance, index } => {
                let m = &store.modules[store.instances[instance].module_id];
                proof {
                    assert(m.wf());
                }
                crate::module::clone_func_type(m.module.func_signature(index))
            }
        }
    }

    /// Invokes this function with the given arguments.
    ///
    /// The argument vector is validated against the signature first: a
    /// wrong count fails with `expected K arguments, got M`, a wrong type
    /// with `argument type mismatch`, and nothing is executed.  A valid
    /// vector is marshalled through the signature's value buffer, the
    /// function runs, and either its results come back through the same
    /// buffer or the trap that ended execution is returned, carrying one
    /// backtrace entry per Wasm frame that was live.  The store's
    /// instances, modules and registries are never touched.
    pub fn call(&self, store: &mut Store, args: &Vec<Val>) -> (r: Result<Vec<Val>, Trap>)
        requires
            old(store).wf(),
            !old(store).is_async,
            spec_funcref_valid(old(store), self.kind),
        ensures
            final(store).wf(),
            spec_store_preserved(old(store), final(store)),
            args@.len() != spec_func_ty(old(store), self.kind).0.len() ==> (r matches Err(t)
                && t.message@ == spec_expected_arguments_msg(
                spec_func_ty(old(store), self.kind).0.len() as int,
                args@.len() as int,
            ) && *final(store) == *old(store)),
            (args@.len() == spec_func_ty(old(store), self.kind).0.len() && !spec_args_match(
                spec_func_ty(old(store), self.kind).0,
                args@,
            )) ==> (r matches Err(t) && t.message@ == spec_type_mismatch_msg() && *final(store)
                == *old(store)),
            r matches Ok(vals) ==> (spec_args_match(spec_func_ty(old(store), self.kind).0, args@)
                && vals@ == spec_returned_vals(
                spec_func_ty(old(store), self.kind).1,
                spec_produced_vals(old(store), self.kind),
            )),
            // A host function that returns normally owes success on every
            // matching argument vector.
            (spec_args_match(spec_func_ty(old(store), self.kind).0, args@) && (self.kind matches
                FuncRef::Host(h) && old(store).host_funcs@[h as int].behavior is Return)) ==> r
                is Ok,
            // A trap from execution (not argument validation) carries a
            // consistent message and source, and its backtrace classifies a
            // stack of live Wasm frames.
            r matches Err(t) ==> (spec_args_match(spec_func_ty(old(store), self.kind).0, args@)
                ==> spec_trap_source_wf(final(store), &t) && spec_trace_of_valid_frames(
                final(store),
                &t,
            )),
            // A pending interrupt makes a call into Wasm trap with the
            // interrupt kind at the function entry, and consumes the flag.
            (spec_args_match(spec_func_ty(old(store), self.kind).0, args@) && old(
                store,
            ).interrupts.interrupted && self.kind is Wasm && 1 <= old(
                store,
            ).engine.config.max_wasm_stack / WASM_FRAME_COST) ==> (r matches Err(t) && t.code
                == Some(TrapCode::Interrupt) && !final(store).interrupts.interrupted),
    {
        let ty = self.ty(store);
        // Validate the argument count.
        if args.len() != ty.params.len() {
            proof {
                reveal_strlit("expected ");
                reveal_strlit(" arguments, got ");
            }
            let mut msg = String::from_str("expected ");
            let k = crate::trap::dec_str(ty.params.len() as u64);
            msg.append(k.as_str());
            msg.append(" arguments, got ");
            let m = crate::trap::dec_str(args.len() as u64);
            msg.append(m.as_str());
            return Err(Trap::new(msg));
        }
        // Validate the argument types.
        let np = ty.params.len();
        let mut i: usize = 0;
        while i < np
            invariant
                old(store).wf(),
                *store == *old(store),
                spec_funcref_valid(old(store), self.kind),
                ty@ == spec_func_ty(old(store), self.kind),
                np == ty.params@.len() == args@.len(),
                i <= np,
                forall|j: int| 0 <= j < i ==> (#[trigger] args@[j]).spec_ty() == ty.params@[j],
            decreases np - i,
        {
            let a = args[i].ty();
            if !val_type_eq(a, ty.params[i]) {
                proof {
                    reveal_strlit("argument type mismatch");
                }
                return Err(Trap::new(String::from_str("argument type mismatch")));
            }
            i += 1;
        }
        // Marshal the arguments into the value buffer, one slot per value,
        // exactly as the trampoline's loads consume them.
        let nslots = if ty.params.len() > ty.results.len() {
            ty.params.len()
        } else {
            ty.results.len()
        };
        let mut values_vec: Vec<u128> = Vec::new();
        let mut s: usize = 0;
        while s < nslots
            invariant
                old(store).wf(),
                *store == *old(store),
                spec_funcref_valid(old(store), self.kind),
                ty@ == spec_func_ty(old(store), self.kind),
                nslots >= ty.results@.len(),
                s <= nslots,
                values_vec@.len() == s as int,
                np == args@.len(),
                nslots >= np,
                forall|j: int|
                    0 <= j < s && j < np ==> values_vec@[j] == spec_val_bits(args@[j]),
                spec_args_match(spec_func_ty(old(store), self.kind).0, args@),
            decreases nslots - s,
        {
            if s < args.len() {
                values_vec.push(val_to_bits(&args[s]));
            } else {
                values_vec.push(0);
            }
            s += 1;
        }
        // Enter compiled code through the signature's trampoline.
        let produced: Vec<Val> = match self.kind {
            FuncRef::Host(h) => {
                match host_call(store, h) {
                    Ok(vals) => vals,
                    Err(t) => {
                        proof {
                            assert(store.host_funcs@[h as int].behavior matches
                                HostBehavior::TrapMsg(m) && t.message == m);
                            assert(spec_backtrace(store, Seq::<WasmFrame>::empty()) =~= t.trace@);
                            assert(spec_frames_valid(store, Seq::<WasmFrame>::empty()));
                        }
                        return Err(t);
                    }
                }
            }
            FuncRef::Wasm { instance, index } => {
                let mut frames: Vec<WasmFrame> = Vec::new();
                match run_function(store, &mut frames, instance, index) {
                    Ok(_) => {}
                    Err(t) => {
                        proof {
                            assert(spec_backtrace(store, frames@) == t.trace@);
                        }
                        return Err(t);
                    }
                }
                let m = &store.modules[store.instances[instance].module_id];
                proof {
                    assert(m.wf());
                }
                let def = (index as usize) - m.module.num_imported_funcs;
                clone_copy_vec(&m.func_meta[def].result_values)
            }
        };
        // The trampoline stores each returned value into the buffer; the
        // host reads the slots back under the declared result types.
        let nr = ty.results.len();
        let mut w: usize = 0;
        while w < nr
            invariant
                old(store).wf(),
                store.wf(),
                spec_store_preserved(old(store), store),
                spec_funcref_valid(old(store), self.kind),
                ty@ == spec_func_ty(old(store), self.kind),
                produced@ == spec_produced_vals(old(store), self.kind),
                spec_args_match(spec_func_ty(old(store), self.kind).0, args@),
                nr == ty.results@.len(),
                w <= nr,
                values_vec@.len() == nslots,
                nslots >= nr,
                forall|j: int|
                    0 <= j < w ==> values_vec@[j] == (if j < produced@.len() {
                        spec_val_bits(produced@[j])
                    } else {
                        0
                    }),
            decreases nr - w,
        {
            if w < produced.len() {
                values_vec[w] = val_to_bits(&produced[w]);
            } else {
                values_vec[w] = 0;
            }
            w += 1;
        }
        let mut out: Vec<Val> = Vec::new();
        let mut u: usize = 0;
        while u < nr
            invariant
                old(store).wf(),
                store.wf(),
                spec_store_preserved(old(store), store),
                spec_funcref_valid(old(store), self.kind),
                ty@ == spec_func_ty(old(store), self.kind),
                produced@ == spec_produced_vals(old(store), self.kind),
                spec_args_match(spec_func_ty(old(store), self.kind).0, args@),
                nr == ty.results@.len(),
                u <= nr,
                values_vec@.len() == nslots,
                nslots >= nr,
                forall|j: int|
                    0 <= j < nr ==> values_vec@[j] == (if j < produced@.len() {
                        spec_val_bits(produced@[j])
                    } else {
                        0
                    }),
                out@.len() == u as int,
                forall|j: int|
                    0 <= j < u ==> #[trigger] out@[j] == spec_val_of_bits(
                        ty.results@[j],
                        if j < produced@.len() {
                            spec_val_bits(produced@[j])
                        } else {
                            0
                        },
                    ),
            decreases nr - u,
        {
            out.push(val_of_bits(&ty.results[u], values_vec[u]));
            u += 1;
        }
        proof {
            assert(out@ =~= spec_returned_vals(
                spec_func_ty(old(store), self.kind).1,
                spec_produced_vals(old(store), self.kind),
            ));
        }
        Ok(out)
    }
}

/// The signature of a function reference: host signature, or the module's
/// signature of the referenced defined function.
pub open spec fn spec_func_ty(s: &Store, k: FuncRef) -> (Seq<ValType>, Seq<ValType>) {
    match k {
        FuncRef::Host(h) => s.host_funcs@[h as int].ty@,
        FuncRef::Wasm { instance, index } => {
            let m = &s.modules@[s.instances@[instance as int].module_id as int];
            m.module.signatures@[m.module.functions@[index as int] as int]@
        },
    }
}

/// The values a successful call leaves in the return registers: what the
/// host behavior returns, or what the defined function's compiled body
/// produces on completion.
pub open spec fn spec_produced_vals(s: &Store, k: FuncRef) -> Seq<Val> {
    match k {
        FuncRef::Host(h) => match s.host_funcs@[h as int].behavior {
            HostBehavior::Return(vals) => vals@,
            HostBehavior::TrapMsg(_) => Seq::empty(),
        },
        FuncRef::Wasm { instance, index } => {
            let m = &s.modules@[s.instances@[instance as int].module_id as int];
            let def = index - m.module.num_imported_funcs;
            m.func_meta@[def as int].result_values@
        },
    }
}

/// Calls a host function directly: returns its values, or its trap with no
/// Wasm frames on the backtrace.
fn host_call(store: &Store, h: usize) -> (r: Result<Vec<Val>, Trap>)
    requires
        store.wf(),
        (h as int) < store.host_funcs@.len(),
    ensures
        match r {
            Ok(vals) => store.host_funcs@[h as int].behavior matches HostBehavior::Return(v)
                && vals@ == v@,
            Err(t) => store.host_funcs@[h as int].behavior matches HostBehavior::TrapMsg(m)
                && t.message == m && t.trace@.len() == 0 && t.code is None && t.source_loc
                is None,
        },
{
    match &store.host_funcs[h].behavior {
        HostBehavior::Return(vals) => Ok(clone_copy_vec(vals)),
        HostBehavior::TrapMsg(m) => Err(Trap::new(m.clone())),
    }
}

/// Compares two value types.
pub fn val_type_eq(a: ValType, b: ValType) -> (r: bool)
    ensures
        r == (a == b),
{
    a == b
}

} // verus!
