use wasmtime::code_memory::CodeMemory;
use wasmtime::link::{LibCall, Relocation, RelocationTarget};
use wasmtime::trampoline::TrampolineOp;
use wasmtime::compiler::{BodyOp, Checkpoint, CompilationStrategy, Compiler, DataInitializer, FunctionArtifact, ModuleTranslation};
use wasmtime::config::{Config, Engine};
use wasmtime::func::Func;
use wasmtime::instance::{Extern, Global, Instance, Memory};
use wasmtime::instantiate::{CompilationArtifacts, CompiledModule};
use wasmtime::module::{EntityIndex, Module};
use wasmtime::sig_registry::SignatureRegistry;
use wasmtime::store::{HostBehavior, OutOfGasAction, Store};
use wasmtime::trap::{dec_str, hex4_str};
use wasmtime::types::{FuncType, GlobalType, Limits, MemoryType, Mutability, ValType};
use wasmtime::values::Val;

fn body_artifact(len: usize, checkpoints: Vec<Checkpoint>) -> FunctionArtifact {
    FunctionArtifact {
        body: vec![0u8; len],
        relocs: Vec::new(),
        traps: Vec::new(),
        checkpoints,
        result_values: Vec::new(),
    }
}

fn build_artifacts(
    module: Module,
    artifacts: Vec<FunctionArtifact>,
    data_initializers: Vec<DataInitializer>,
) -> CompilationArtifacts {
    let compiler = Compiler::new(CompilationStrategy::Auto, Config::new());
    let translation = ModuleTranslation { module, artifacts, data_initializers };
    CompilationArtifacts::build(&compiler, translation).expect("compilation failed")
}

fn compile(module: Module, artifacts: Vec<FunctionArtifact>, base: u64) -> CompiledModule {
    CompiledModule::from_artifacts(build_artifacts(module, artifacts, Vec::new()), base)
        .expect("loading failed")
}

fn nullary_module(name: &str) -> (Module, u32) {
    let mut module = Module::new(Some(String::from(name)));
    let sig = module.declare_signature(FuncType::new(Vec::new(), Vec::new()));
    (module, sig)
}

#[test]
fn number_rendering() {
    assert_eq!(dec_str(0), "0");
    assert_eq!(dec_str(7), "7");
    assert_eq!(dec_str(1234), "1234");
    assert_eq!(dec_str(1000001), "1000001");
    assert_eq!(hex4_str(0x23), "0023");
    assert_eq!(hex4_str(0), "0000");
    assert_eq!(hex4_str(0xabc), "0abc");
    assert_eq!(hex4_str(0x12345), "12345");
}

#[test]
fn publish_is_idempotent() {
    let mut cm = CodeMemory::new(0x1000);
    let start = cm.allocate(64).unwrap();
    assert_eq!(start, 0x1000);
    assert!(!cm.contains(start));
    cm.publish();
    assert!(cm.contains(start));
    assert!(cm.contains(start + 63));
    assert!(!cm.contains(start + 64));
    let ranges_once: Vec<(u64, u64)> = cm.published_ranges();
    cm.publish();
    let ranges_twice: Vec<(u64, u64)> = cm.published_ranges();
    assert_eq!(ranges_once, ranges_twice);
    assert!(cm.contains(start));
}

#[test]
fn register_module_is_idempotent() {
    let mut store = Store::new(&Engine::new(Config::new()));
    let (mut module, sig) = nullary_module("m");
    let f = module.define_func(sig, None);
    module.declare_export(String::from("f"), EntityIndex::Function(f));
    let body = body_artifact(0x40, vec![Checkpoint { offset: 0x10, op: BodyOp::Return }]);

    let compiled = compile(module, vec![body], 0x10000);
    let first_id = store.register_module(compiled);
    let frames_once = store.frame_info.modules.len();
    let pinned_once = store.modules.len();
    let sigs_once = store.signatures.len();

    // The same image range again: same module, loaded at the same address.
    // Nothing changes: no duplicate frame-info entry, no second pin, no
    // re-registered signature, and the existing index comes back.
    let (mut module2, sig2) = nullary_module("m");
    let f2 = module2.define_func(sig2, None);
    module2.declare_export(String::from("f"), EntityIndex::Function(f2));
    let body2 = body_artifact(0x40, vec![Checkpoint { offset: 0x10, op: BodyOp::Return }]);
    let compiled2 = compile(module2, vec![body2], 0x10000);
    let second_id = store.register_module(compiled2);

    assert_eq!(second_id, first_id);
    assert_eq!(store.frame_info.modules.len(), frames_once);
    assert_eq!(store.modules.len(), pinned_once);
    assert_eq!(store.signatures.len(), sigs_once);
}

#[test]
fn artifact_round_trip() {
    let (mut module, sig) = nullary_module("rt");
    let f = module.define_func(sig, None);
    module.declare_export(String::from("f"), EntityIndex::Function(f));
    // A body with a relocation site: eight zero bytes patched on load.
    let mut art = body_artifact(0x40, vec![Checkpoint { offset: 0x10, op: BodyOp::Return }]);
    art.relocs.push(Relocation {
        offset: 8,
        target: RelocationTarget::LibCall(LibCall::Memmove),
        addend: 0,
    });
    let artifacts = build_artifacts(module, vec![art], Vec::new());
    let original_obj = artifacts.obj.clone();
    let original_traps = artifacts.traps.len();
    let original_ranges = artifacts.func_ranges.clone();

    let compiled = CompiledModule::from_artifacts(artifacts, 0x30000).expect("loading failed");
    // The loaded image differs at the patched site.
    assert_ne!(compiled.code.image, original_obj);

    let saved = compiled.to_compilation_artifacts();
    // Unlinking restores the position-independent image byte for byte.
    assert_eq!(saved.obj, original_obj);
    assert_eq!(saved.traps.len(), original_traps);
    assert_eq!(saved.func_ranges, original_ranges);
    assert_eq!(saved.module.name, Some(String::from("rt")));

    // Loading the saved artifacts again behaves like the first load.
    let reloaded = CompiledModule::from_artifacts(saved, 0x30000).expect("reload failed");
    assert_eq!(reloaded.code.image, compiled.code.image);
}

#[test]
fn call_returns_produced_values() {
    let mut store = Store::new(&Engine::new(Config::new()));
    let mut module = Module::new(Some(String::from("answers")));
    let sig = module.declare_signature(FuncType::new(
        Vec::new(),
        vec![ValType::I32, ValType::I64],
    ));
    let f = module.define_func(sig, None);
    module.declare_export(String::from("answer"), EntityIndex::Function(f));
    let mut body = body_artifact(0x40, vec![Checkpoint { offset: 0x10, op: BodyOp::Return }]);
    body.result_values = vec![Val::I32(-42), Val::I64(7)];

    let compiled = compile(module, vec![body], 0x10000);
    let module_id = store.register_module(compiled);
    let instance = Instance::new(&mut store, module_id, &Vec::new()).unwrap();
    let f = *instance.exports(&store)[0].func().unwrap();

    let out = f.call(&mut store, &Vec::new()).unwrap();
    assert_eq!(out, vec![Val::I32(-42), Val::I64(7)]);
}

#[test]
fn host_call_returns_values() {
    let mut store = Store::new(&Engine::new(Config::new()));
    let ty = FuncType::new(vec![ValType::I32], vec![ValType::I32]);
    let f = Func::new(&mut store, ty, HostBehavior::Return(vec![Val::I32(9)]));
    let out = f.call(&mut store, &vec![Val::I32(1)]).unwrap();
    assert_eq!(out, vec![Val::I32(9)]);
}

#[test]
fn interrupt_traps_then_resumes() {
    let mut config = Config::new();
    config.interruptable(true);
    let mut store = Store::new(&Engine::new(config));

    let (mut module, sig) = nullary_module("loops");
    let f = module.define_func(sig, None);
    module.declare_export(String::from("run"), EntityIndex::Function(f));
    let body = body_artifact(
        0x40,
        vec![
            Checkpoint { offset: 0x10, op: BodyOp::BackEdge },
            Checkpoint { offset: 0x20, op: BodyOp::Return },
        ],
    );
    let compiled = compile(module, vec![body], 0x10000);
    let module_id = store.register_module(compiled);
    let instance = Instance::new(&mut store, module_id, &Vec::new()).unwrap();
    let run = *instance.exports(&store)[0].func().unwrap();

    let handle = store.interrupt_handle().unwrap();
    handle.interrupt(&mut store);
    let e = run.call(&mut store, &Vec::new()).unwrap_err();
    assert!(e.message().contains("wasm trap: interrupt"));

    // The interrupt was consumed; subsequent execution resumes normally.
    assert!(run.call(&mut store, &Vec::new()).is_ok());
}

#[test]
fn interrupt_handle_requires_config() {
    let store = Store::new(&Engine::new(Config::new()));
    let err = store.interrupt_handle().unwrap_err();
    assert_eq!(err.message(), "interrupts aren't enabled for this `Store`");
}

#[test]
fn fuel_budget_is_exact() {
    let mut config = Config::new();
    config.consume_fuel(true);
    let mut store = Store::new(&Engine::new(Config::new()));
    assert_eq!(store.fuel_consumed(), None);

    let mut store = Store::new(&Engine::new(config));
    assert_eq!(store.fuel_consumed(), Some(0));
    store.add_fuel(10);

    let (mut module, sig) = nullary_module("fuel");
    let burn5 = module.define_func(sig, None);
    module.declare_export(String::from("burn5"), EntityIndex::Function(burn5));
    let body = body_artifact(
        0x40,
        vec![
            Checkpoint { offset: 0x10, op: BodyOp::Work(5) },
            Checkpoint { offset: 0x20, op: BodyOp::Return },
        ],
    );
    let compiled = compile(module, vec![body], 0x10000);
    let module_id = store.register_module(compiled);
    let instance = Instance::new(&mut store, module_id, &Vec::new()).unwrap();
    let burn = *instance.exports(&store)[0].func().unwrap();

    // Ten units of fuel back exactly two five-unit bursts of work.
    assert!(burn.call(&mut store, &Vec::new()).is_ok());
    assert!(burn.call(&mut store, &Vec::new()).is_ok());
    assert_eq!(store.fuel_consumed(), Some(10));

    // The very next unit of work runs out of gas and traps; the work that
    // hit the limit was still charged.
    let e = burn.call(&mut store, &Vec::new()).unwrap_err();
    assert!(e.message().contains("all fuel consumed by WebAssembly"));
    assert_eq!(store.fuel_consumed(), Some(15));

    // Refueling allows execution again: five units cover the overshoot
    // and five more back the next burst.
    store.add_fuel(10);
    assert!(burn.call(&mut store, &Vec::new()).is_ok());
    assert_eq!(store.fuel_consumed(), Some(20));
}

#[test]
fn data_initializers_fill_memory() {
    let mut store = Store::new(&Engine::new(Config::new()));
    let mut module = Module::new(Some(String::from("data")));
    let mem = module.declare_memory(MemoryType::new(Limits::new(1, None)));
    module.declare_export(String::from("mem"), EntityIndex::Memory(mem));
    let init = DataInitializer { memory_index: 0, offset: 5, data: vec![1, 2, 3] };
    let artifacts = build_artifacts(module, Vec::new(), vec![init]);
    let compiled = CompiledModule::from_artifacts(artifacts, 0x10000).unwrap();
    let module_id = store.register_module(compiled);
    let instance = Instance::new(&mut store, module_id, &Vec::new()).unwrap();
    let memory: Memory = *instance.exports(&store)[0].memory().unwrap();

    assert_eq!(memory.data_size(&store), 65536);
    assert_eq!(memory.read_byte(&store, 4), 0);
    assert_eq!(memory.read_byte(&store, 5), 1);
    assert_eq!(memory.read_byte(&store, 6), 2);
    assert_eq!(memory.read_byte(&store, 7), 3);
    assert_eq!(memory.read_byte(&store, 8), 0);
}

#[test]
fn out_of_bounds_initializer_fails_instantiation() {
    let mut store = Store::new(&Engine::new(Config::new()));
    let mut module = Module::new(Some(String::from("data")));
    let mem = module.declare_memory(MemoryType::new(Limits::new(1, None)));
    module.declare_export(String::from("mem"), EntityIndex::Memory(mem));
    let init = DataInitializer { memory_index: 0, offset: 65534, data: vec![1, 2, 3] };
    let artifacts = build_artifacts(module, Vec::new(), vec![init]);
    let compiled = CompiledModule::from_artifacts(artifacts, 0x10000).unwrap();
    let module_id = store.register_module(compiled);
    let err = Instance::new(&mut store, module_id, &Vec::new()).err().unwrap();
    match err {
        wasmtime::errors::InstantiationError::Link(m) => {
            assert_eq!(m, "data segment does not fit");
        }
        other => panic!("expected a link error, got {:?}", other),
    }
    // The failed instantiation left no instance behind.
    assert_eq!(store.instances.len(), 0);
}

#[test]
fn missing_import_fails_link() {
    let mut store = Store::new(&Engine::new(Config::new()));
    let (mut module, sig) = nullary_module("needy");
    module.import_func(String::from(""), String::from(""), sig);
    let compiled = compile(module, Vec::new(), 0x10000);
    let module_id = store.register_module(compiled);
    let err = Instance::new(&mut store, module_id, &Vec::new()).err().unwrap();
    match err {
        wasmtime::errors::InstantiationError::Link(m) => {
            assert_eq!(m, "wrong number of imports provided");
        }
        other => panic!("expected a link error, got {:?}", other),
    }
}

#[test]
fn mismatched_import_signature_fails_link() {
    let mut store = Store::new(&Engine::new(Config::new()));
    let (mut module, sig) = nullary_module("needy");
    module.import_func(String::from(""), String::from(""), sig);
    let compiled = compile(module, Vec::new(), 0x10000);
    let module_id = store.register_module(compiled);

    let wrong_ty = FuncType::new(vec![ValType::I32], Vec::new());
    let func = Func::new(&mut store, wrong_ty, HostBehavior::Return(Vec::new()));
    let err = Instance::new(&mut store, module_id, &vec![Extern::Func(func)]).err().unwrap();
    match err {
        wasmtime::errors::InstantiationError::Link(m) => {
            assert_eq!(m, "incompatible import type");
        }
        other => panic!("expected a link error, got {:?}", other),
    }
}

#[test]
fn instance_quota_is_enforced() {
    let mut config = Config::new();
    config.max_instances(1);
    let mut store = Store::new(&Engine::new(config));
    let (mut module, sig) = nullary_module("one");
    let f = module.define_func(sig, None);
    module.declare_export(String::from("f"), EntityIndex::Function(f));
    let body = body_artifact(0x40, vec![Checkpoint { offset: 0x10, op: BodyOp::Return }]);
    let compiled = compile(module, vec![body], 0x10000);
    let module_id = store.register_module(compiled);

    assert!(Instance::new(&mut store, module_id, &Vec::new()).is_ok());
    let err = Instance::new(&mut store, module_id, &Vec::new()).err().unwrap();
    match err {
        wasmtime::errors::InstantiationError::Resource(m) => {
            assert_eq!(m, "resource limit exceeded: instance count too high at 2");
        }
        other => panic!("expected a resource error, got {:?}", other),
    }
}

#[test]
fn global_value_must_match_type() {
    let mut store = Store::new(&Engine::new(Config::new()));
    let ty = GlobalType::new(ValType::I32, Mutability::Const);
    assert!(Global::new(&mut store, ty, Val::I64(0)).is_err());
    let ty = GlobalType::new(ValType::I32, Mutability::Const);
    let g = Global::new(&mut store, ty, Val::I32(3)).unwrap();
    assert_eq!(g.get(&store), Val::I32(3));
}

#[test]
fn signatures_intern_to_shared_indices() {
    let mut registry = SignatureRegistry::new();
    let a = FuncType::new(vec![ValType::I32], Vec::new());
    let b = FuncType::new(vec![ValType::I32], Vec::new());
    let c = FuncType::new(vec![ValType::I64], Vec::new());
    let ia = registry.register(&a);
    let ic = registry.register(&c);
    let ib = registry.register(&b);
    assert_eq!(ia, ib);
    assert_ne!(ia, ic);
    assert_eq!(registry.lookup(&a), Some(ia));
    assert_eq!(registry.len(), 2);
}

#[test]
fn value_types_are_classified() {
    assert!(ValType::I32.is_num());
    assert!(ValType::F64.is_num());
    assert!(!ValType::V128.is_num());
    assert!(ValType::FuncRef.is_ref());
    assert!(ValType::ExternRef.is_ref());
    assert!(!ValType::I64.is_ref());
    assert_eq!(ValType::I32.name(), "i32");
    let limits = Limits::at_least(2);
    assert_eq!(limits.min(), 2);
    assert_eq!(limits.max(), None);
}

#[test]
fn trampolines_follow_the_plan() {
    let mut module = Module::new(Some(String::from("plans")));
    module.declare_signature(FuncType::new(
        vec![ValType::I32, ValType::I64],
        vec![ValType::I32],
    ));
    let compiled = compile(module, Vec::new(), 0x10000);
    assert_eq!(compiled.trampolines.len(), 1);
    let ops = &compiled.trampolines[0].ops;
    assert_eq!(
        ops.as_slice(),
        &[
            TrampolineOp::PassVmctx,
            TrampolineOp::PassCallerVmctx,
            TrampolineOp::LoadArg { index: 2, offset: 0 },
            TrampolineOp::LoadArg { index: 3, offset: 16 },
            TrampolineOp::CallIndirect,
            TrampolineOp::StoreResult { index: 0, offset: 0 },
            TrampolineOp::Return,
        ],
    );
}

#[test]
fn published_code_is_classified() {
    let mut store = Store::new(&Engine::new(Config::new()));
    let (mut module, sig) = nullary_module("vis");
    let f = module.define_func(sig, None);
    module.declare_export(String::from("f"), EntityIndex::Function(f));
    let body = body_artifact(0x40, vec![Checkpoint { offset: 0x10, op: BodyOp::Return }]);
    let compiled = compile(module, vec![body], 0x10000);
    let image_len = compiled.code.image.len() as u64;
    let ranges = compiled.jit_code_ranges();
    assert_eq!(ranges, vec![(0x10000, image_len)]);

    // Before registration nothing is classified; afterwards the published
    // range is classified exactly.
    assert!(!store.frame_info.contains_pc(0x10000));
    let module_id = store.register_module(compiled);
    assert!(store.frame_info.contains_pc(0x10000));
    assert!(store.frame_info.contains_pc(0x10000 + image_len - 1));
    assert!(!store.frame_info.contains_pc(0x10000 + image_len));
    assert!(!store.frame_info.contains_pc(0xffff));
    assert!(store.modules[module_id].code.code_memory.contains(0x10000));
    assert!(!store.modules[module_id].code.code_memory.contains(0x10000 + image_len));
}

#[test]
fn out_of_gas_yields_then_traps() {
    let mut store = Store::new_async(&Engine::new(Config::new()));
    // The default behavior is to trap.
    assert_eq!(store.out_of_gas(), OutOfGasAction::TrapNow);

    // With yield configured, each exhaustion yields and re-injects fuel
    // until the injections are used up; then it traps.
    store.out_of_fuel_async_yield(2, 7);
    assert_eq!(store.out_of_gas(), OutOfGasAction::Yield(7));
    assert_eq!(store.out_of_gas(), OutOfGasAction::Yield(7));
    assert_eq!(store.out_of_gas(), OutOfGasAction::TrapNow);

    // Configuring the trap behavior again takes effect immediately.
    store.out_of_fuel_async_yield(1, 3);
    store.out_of_fuel_trap();
    assert_eq!(store.out_of_gas(), OutOfGasAction::TrapNow);
}
