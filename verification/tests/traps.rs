use wasmtime::compiler::{BodyOp, Checkpoint, CompilationStrategy, Compiler, FunctionArtifact, ModuleTranslation};
use wasmtime::config::{Config, Engine};
use wasmtime::frame_info::TrapRecord;
use wasmtime::func::Func;
use wasmtime::instance::{Extern, Instance};
use wasmtime::instantiate::{CompilationArtifacts, CompiledModule};
use wasmtime::module::Module;
use wasmtime::store::{HostBehavior, Store};
use wasmtime::trap::TrapCode;
use wasmtime::types::FuncType;
use wasmtime::values::Val;

fn body_artifact(len: usize, checkpoints: Vec<Checkpoint>, traps: Vec<TrapRecord>) -> FunctionArtifact {
    FunctionArtifact {
        body: vec![0u8; len],
        relocs: Vec::new(),
        traps,
        checkpoints,
        result_values: Vec::new(),
    }
}

fn compile(module: Module, artifacts: Vec<FunctionArtifact>, base: u64) -> CompiledModule {
    let compiler = Compiler::new(CompilationStrategy::Auto, Config::new());
    let translation = ModuleTranslation { module, artifacts, data_initializers: Vec::new() };
    let arts: CompilationArtifacts =
        CompilationArtifacts::build(&compiler, translation).expect("compilation failed");
    CompiledModule::from_artifacts(arts, base).expect("loading failed")
}

fn default_store() -> Store {
    Store::new(&Engine::new(Config::new()))
}

#[test]
fn test_trap_return() {
    let mut store = default_store();

    // (module (func $hello (import "" "hello")) (func (export "run") (call $hello)))
    let mut module = Module::new(None);
    let sig = module.declare_signature(FuncType::new(Vec::new(), Vec::new()));
    let hello_idx = module.import_func(String::from(""), String::from("hello"), sig);
    assert_eq!(hello_idx, 0);
    let run = module.define_func(sig, None);
    module.declare_export(String::from("run"), wasmtime::module::EntityIndex::Function(run));
    let run_body = body_artifact(
        0x40,
        vec![
            Checkpoint { offset: 0x10, op: BodyOp::Call(0) },
            Checkpoint { offset: 0x20, op: BodyOp::Return },
        ],
        Vec::new(),
    );

    let compiled = compile(module, vec![run_body], 0x10000);
    let module_id = store.register_module(compiled);

    let hello_type = FuncType::new(Vec::new(), Vec::new());
    let hello_func = Func::new(
        &mut store,
        hello_type,
        HostBehavior::TrapMsg(String::from("test 123")),
    );

    let instance =
        Instance::new(&mut store, module_id, &vec![Extern::Func(hello_func)]).unwrap();
    let exports = instance.exports(&store);
    let run_func = exports[0].func().expect("expected function export");

    let e = run_func.call(&mut store, &Vec::new()).err().expect("error calling function");

    assert_eq!(e.message(), "test 123");
}

#[test]
fn test_trap_trace() {
    let mut store = default_store();

    // (module $hello_mod (func (export "run") (call $hello)) (func $hello (unreachable)))
    let mut module = Module::new(Some(String::from("hello_mod")));
    let sig = module.declare_signature(FuncType::new(Vec::new(), Vec::new()));
    let run = module.define_func(sig, None);
    let hello = module.define_func(sig, Some(String::from("hello")));
    assert_eq!(run, 0);
    assert_eq!(hello, 1);
    module.declare_export(String::from("run"), wasmtime::module::EntityIndex::Function(run));

    let run_body = body_artifact(
        0x40,
        vec![
            Checkpoint { offset: 0x10, op: BodyOp::Call(1) },
            Checkpoint { offset: 0x20, op: BodyOp::Return },
        ],
        Vec::new(),
    );
    let hello_body = body_artifact(
        0x40,
        vec![Checkpoint { offset: 0x23, op: BodyOp::Fault }],
        vec![TrapRecord { offset: 0x23, source_loc: 0x23, code: TrapCode::Unreachable }],
    );

    let compiled = compile(module, vec![run_body, hello_body], 0x10000);
    let module_id = store.register_module(compiled);
    let instance = Instance::new(&mut store, module_id, &Vec::new()).unwrap();
    let exports = instance.exports(&store);
    let run_func = exports[0].func().expect("expected function export");

    let e = run_func.call(&mut store, &Vec::new()).err().expect("error calling function");

    let trace = e.trace();
    assert_eq!(trace.len(), 2);
    assert_eq!(trace[0].module_name().unwrap(), "hello_mod");
    assert_eq!(trace[0].func_index(), 1);
    assert_eq!(trace[0].func_name(), Some(String::from("hello")));
    assert_eq!(trace[1].module_name().unwrap(), "hello_mod");
    assert_eq!(trace[1].func_index(), 0);
    assert_eq!(trace[1].func_name(), None);
    assert!(e.message().contains("unreachable"));
}

#[test]
fn test_trap_trace_cb() {
    let mut store = default_store();

    // (module $hello_mod (import "" "throw" (func $throw))
    //   (func (export "run") (call $hello)) (func $hello (call $throw)))
    let mut module = Module::new(Some(String::from("hello_mod")));
    let sig = module.declare_signature(FuncType::new(Vec::new(), Vec::new()));
    let throw = module.import_func(String::from(""), String::from("throw"), sig);
    assert_eq!(throw, 0);
    let run = module.define_func(sig, None);
    let hello = module.define_func(sig, None);
    assert_eq!(run, 1);
    assert_eq!(hello, 2);
    module.declare_export(String::from("run"), wasmtime::module::EntityIndex::Function(run));

    let run_body = body_artifact(
        0x40,
        vec![
            Checkpoint { offset: 0x10, op: BodyOp::Call(2) },
            Checkpoint { offset: 0x20, op: BodyOp::Return },
        ],
        Vec::new(),
    );
    let hello_body = body_artifact(
        0x40,
        vec![
            Checkpoint { offset: 0x10, op: BodyOp::Call(0) },
            Checkpoint { offset: 0x20, op: BodyOp::Return },
        ],
        Vec::new(),
    );

    let fn_type = FuncType::new(Vec::new(), Vec::new());
    let fn_func =
        Func::new(&mut store, fn_type, HostBehavior::TrapMsg(String::from("cb throw")));

    let compiled = compile(module, vec![run_body, hello_body], 0x10000);
    let module_id = store.register_module(compiled);
    let instance = Instance::new(&mut store, module_id, &vec![Extern::Func(fn_func)]).unwrap();
    let exports = instance.exports(&store);
    let run_func = exports[0].func().expect("expected function export");

    let e = run_func.call(&mut store, &Vec::new()).err().expect("error calling function");

    let trace = e.trace();
    assert_eq!(trace.len(), 2);
    assert_eq!(trace[0].module_name().unwrap(), "hello_mod");
    assert_eq!(trace[0].func_index(), 2);
    assert_eq!(trace[1].module_name().unwrap(), "hello_mod");
    assert_eq!(trace[1].func_index(), 1);
    assert_eq!(e.message(), "cb throw");
}

#[test]
fn test_trap_stack_overflow() {
    let mut store = default_store();

    // (module $rec_mod (func $run (export "run") (call $run)))
    let mut module = Module::new(Some(String::from("rec_mod")));
    let sig = module.declare_signature(FuncType::new(Vec::new(), Vec::new()));
    let run = module.define_func(sig, Some(String::from("run")));
    module.declare_export(String::from("run"), wasmtime::module::EntityIndex::Function(run));

    let run_body = body_artifact(
        0x40,
        vec![
            Checkpoint { offset: 0x10, op: BodyOp::Call(0) },
            Checkpoint { offset: 0x20, op: BodyOp::Return },
        ],
        Vec::new(),
    );

    let compiled = compile(module, vec![run_body], 0x10000);
    let module_id = store.register_module(compiled);
    let instance = Instance::new(&mut store, module_id, &Vec::new()).unwrap();
    let exports = instance.exports(&store);
    let run_func = exports[0].func().expect("expected function export");

    let e = run_func.call(&mut store, &Vec::new()).err().expect("error calling function");

    let trace = e.trace();
    assert!(trace.len() >= 32);
    for i in 0..trace.len() {
        assert_eq!(trace[i].module_name().unwrap(), "rec_mod");
        assert_eq!(trace[i].func_index(), 0);
        assert_eq!(trace[i].func_name(), Some(String::from("run")));
    }
    assert!(e.message().contains("call stack exhausted"));
}

#[test]
fn trap_display_pretty() {
    let mut store = default_store();

    // (module $m (func $die unreachable) (func call $die)
    //   (func $foo call 1) (func (export "bar") call $foo))
    let mut module = Module::new(Some(String::from("m")));
    let sig = module.declare_signature(FuncType::new(Vec::new(), Vec::new()));
    let die = module.define_func(sig, Some(String::from("die")));
    let f1 = module.define_func(sig, None);
    let foo = module.define_func(sig, Some(String::from("foo")));
    let bar = module.define_func(sig, None);
    module.declare_export(String::from("bar"), wasmtime::module::EntityIndex::Function(bar));

    let die_body = body_artifact(
        0x40,
        vec![Checkpoint { offset: 0x23, op: BodyOp::Fault }],
        vec![TrapRecord { offset: 0x23, source_loc: 0x23, code: TrapCode::Unreachable }],
    );
    let call_body = |target: u32| {
        body_artifact(
            0x40,
            vec![
                Checkpoint { offset: 0x10, op: BodyOp::Call(target) },
                Checkpoint { offset: 0x20, op: BodyOp::Return },
            ],
            Vec::new(),
        )
    };

    let compiled = compile(
        module,
        vec![die_body, call_body(die), call_body(f1), call_body(foo)],
        0x10000,
    );
    let module_id = store.register_module(compiled);
    let instance = Instance::new(&mut store, module_id, &Vec::new()).unwrap();
    let exports = instance.exports(&store);
    let run_func = exports[0].func().expect("expected function export");

    let e = run_func.call(&mut store, &Vec::new()).err().expect("error calling function");
    assert_eq!(
        e.display_text(),
        "\
wasm trap: unreachable, source location: @0023
wasm backtrace:
  0: m!die
  1: m!<wasm function 1>
  2: m!foo
  3: m!<wasm function 3>
"
    );
}

#[test]
fn trap_display_multi_module() {
    let mut store = default_store();

    // (module $a (func $die unreachable) (func call $die)
    //   (func $foo call 1) (func (export "bar") call $foo))
    let mut module_a = Module::new(Some(String::from("a")));
    let sig_a = module_a.declare_signature(FuncType::new(Vec::new(), Vec::new()));
    let die = module_a.define_func(sig_a, Some(String::from("die")));
    let f1 = module_a.define_func(sig_a, None);
    let foo = module_a.define_func(sig_a, Some(String::from("foo")));
    let bar = module_a.define_func(sig_a, None);
    module_a.declare_export(String::from("bar"), wasmtime::module::EntityIndex::Function(bar));

    let die_body = body_artifact(
        0x40,
        vec![Checkpoint { offset: 0x23, op: BodyOp::Fault }],
        vec![TrapRecord { offset: 0x23, source_loc: 0x23, code: TrapCode::Unreachable }],
    );
    let call_body = |target: u32| {
        body_artifact(
            0x40,
            vec![
                Checkpoint { offset: 0x10, op: BodyOp::Call(target) },
                Checkpoint { offset: 0x20, op: BodyOp::Return },
            ],
            Vec::new(),
        )
    };

    let compiled_a = compile(
        module_a,
        vec![die_body, call_body(die), call_body(f1), call_body(foo)],
        0x10000,
    );
    let module_a_id = store.register_module(compiled_a);
    let instance_a = Instance::new(&mut store, module_a_id, &Vec::new()).unwrap();
    let bar_export = instance_a.exports(&store)[0];

    // (module $b (import "" "" (func $bar)) (func $middle call $bar)
    //   (func (export "bar2") call $middle))
    let mut module_b = Module::new(Some(String::from("b")));
    let sig_b = module_b.declare_signature(FuncType::new(Vec::new(), Vec::new()));
    let imported = module_b.import_func(String::from(""), String::from(""), sig_b);
    assert_eq!(imported, 0);
    let middle = module_b.define_func(sig_b, Some(String::from("middle")));
    let bar2 = module_b.define_func(sig_b, None);
    module_b.declare_export(String::from("bar2"), wasmtime::module::EntityIndex::Function(bar2));

    let compiled_b = compile(module_b, vec![call_body(0), call_body(middle)], 0x20000);
    let module_b_id = store.register_module(compiled_b);
    let instance_b = Instance::new(&mut store, module_b_id, &vec![bar_export]).unwrap();
    let exports_b = instance_b.exports(&store);
    let bar2_func = exports_b[0].func().expect("expected function export");

    let e = bar2_func.call(&mut store, &Vec::new()).err().expect("error calling function");
    assert_eq!(
        e.display_text(),
        "\
wasm trap: unreachable, source location: @0023
wasm backtrace:
  0: a!die
  1: a!<wasm function 1>
  2: a!foo
  3: a!<wasm function 3>
  4: b!middle
  5: b!<wasm function 2>
"
    );
}

#[test]
fn trap_start_function_import() {
    let mut store = default_store();

    // (module $a (import "" "" (func $foo)) (start $foo))
    let mut module = Module::new(Some(String::from("a")));
    let sig = module.declare_signature(FuncType::new(Vec::new(), Vec::new()));
    let foo = module.import_func(String::from(""), String::from(""), sig);
    module.declare_start(foo);

    let compiled = compile(module, Vec::new(), 0x10000);
    let module_id = store.register_module(compiled);

    let sig = FuncType::new(Vec::new(), Vec::new());
    let func = Func::new(&mut store, sig, HostBehavior::TrapMsg(String::from("user trap")));
    let err = Instance::new(&mut store, module_id, &vec![Extern::Func(func)]).err().unwrap();
    match err {
        wasmtime::errors::InstantiationError::StartTrap(t) => {
            assert_eq!(t.message(), "user trap");
        }
        other => panic!("expected a start trap, got {:?}", other),
    }
}

#[test]
fn mismatched_arguments() {
    let mut store = default_store();

    // (module $a (func (export "foo") (param i32)))
    let mut module = Module::new(Some(String::from("a")));
    let sig = module.declare_signature(FuncType::new(
        vec![wasmtime::types::ValType::I32],
        Vec::new(),
    ));
    let foo = module.define_func(sig, None);
    module.declare_export(String::from("foo"), wasmtime::module::EntityIndex::Function(foo));

    let body = body_artifact(
        0x40,
        vec![Checkpoint { offset: 0x10, op: BodyOp::Return }],
        Vec::new(),
    );
    let compiled = compile(module, vec![body], 0x10000);
    let module_id = store.register_module(compiled);
    let instance = Instance::new(&mut store, module_id, &Vec::new()).unwrap();
    let exports = instance.exports(&store);
    let func = exports[0].func().unwrap();

    assert_eq!(
        func.call(&mut store, &Vec::new()).unwrap_err().message(),
        "expected 1 arguments, got 0"
    );
    assert_eq!(
        func.call(&mut store, &vec![Val::F32(0)]).unwrap_err().message(),
        "argument type mismatch",
    );
    assert_eq!(
        func.call(&mut store, &vec![Val::I32(0), Val::I32(1)]).unwrap_err().message(),
        "expected 1 arguments, got 2"
    );
}

#[test]
fn fault_is_classified_by_binary_search() {
    let mut store = default_store();

    // Two potential fault sites in one body; the executed one is the
    // second record of the sorted trap table.
    let mut module = Module::new(Some(String::from("faulty")));
    let sig = module.declare_signature(FuncType::new(Vec::new(), Vec::new()));
    let f = module.define_func(sig, Some(String::from("f")));
    module.declare_export(String::from("f"), wasmtime::module::EntityIndex::Function(f));
    let body = body_artifact(
        0x40,
        vec![Checkpoint { offset: 0x30, op: BodyOp::Fault }],
        vec![
            TrapRecord { offset: 0x10, source_loc: 0x10, code: TrapCode::IntegerDivideByZero },
            TrapRecord { offset: 0x30, source_loc: 0x31, code: TrapCode::MemoryOutOfBounds },
        ],
    );
    let compiled = compile(module, vec![body], 0x10000);
    let module_id = store.register_module(compiled);
    let instance = Instance::new(&mut store, module_id, &Vec::new()).unwrap();
    let f = *instance.exports(&store)[0].func().unwrap();

    let e = f.call(&mut store, &Vec::new()).unwrap_err();
    assert_eq!(
        e.message(),
        "wasm trap: out of bounds memory access, source location: @0031"
    );
}

#[test]
fn defined_start_function_can_trap() {
    let mut store = default_store();

    let mut module = Module::new(Some(String::from("starter")));
    let sig = module.declare_signature(FuncType::new(Vec::new(), Vec::new()));
    let boot = module.define_func(sig, Some(String::from("boot")));
    module.declare_start(boot);
    let body = body_artifact(
        0x40,
        vec![Checkpoint { offset: 0x23, op: BodyOp::Fault }],
        vec![TrapRecord { offset: 0x23, source_loc: 0x23, code: TrapCode::Unreachable }],
    );
    let compiled = compile(module, vec![body], 0x10000);
    let module_id = store.register_module(compiled);
    let err = Instance::new(&mut store, module_id, &Vec::new()).err().unwrap();
    match err {
        wasmtime::errors::InstantiationError::StartTrap(t) => {
            assert!(t.message().contains("unreachable"));
            assert_eq!(t.trace().len(), 1);
        }
        other => panic!("expected a start trap, got {:?}", other),
    }
    // The instance was destroyed; the store remains usable.
    assert_eq!(store.instances.len(), 0);
}
