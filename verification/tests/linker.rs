use wasmtime::compiler::{CompilationStrategy, Compiler, FunctionArtifact, ModuleTranslation};
use wasmtime::config::{Config, Engine};
use wasmtime::func::Func;
use wasmtime::instance::Extern;
use wasmtime::instantiate::{CompilationArtifacts, CompiledModule};
use wasmtime::linker::Linker;
use wasmtime::module::Module;
use wasmtime::store::{HostBehavior, Store};
use wasmtime::types::{FuncType, GlobalType, Limits, MemoryType, Mutability, TableType, ValType};

fn compile(module: Module, artifacts: Vec<FunctionArtifact>, base: u64) -> CompiledModule {
    let compiler = Compiler::new(CompilationStrategy::Auto, Config::new());
    let translation = ModuleTranslation { module, artifacts, data_initializers: Vec::new() };
    let arts = CompilationArtifacts::build(&compiler, translation).expect("compilation failed");
    CompiledModule::from_artifacts(arts, base).expect("loading failed")
}

#[test]
fn link_undefined() {
    let mut store = Store::new(&Engine::new(Config::new()));
    let linker = Linker::new();

    // (module (import "" "" (func)))
    let mut module = Module::new(None);
    let sig = module.declare_signature(FuncType::new(Vec::new(), Vec::new()));
    module.import_func(String::from(""), String::from(""), sig);
    let id = store.register_module(compile(module, Vec::new(), 0x10000));
    assert!(linker.instantiate(&mut store, id).is_err());

    // (module (import "" "" (global i32)))
    let mut module = Module::new(None);
    module.import_global(
        String::from(""),
        String::from(""),
        GlobalType::new(ValType::I32, Mutability::Const),
        wasmtime::values::Val::I32(0),
    );
    let id = store.register_module(compile(module, Vec::new(), 0x20000));
    assert!(linker.instantiate(&mut store, id).is_err());

    // (module (import "" "" (memory 1)))
    let mut module = Module::new(None);
    module.import_memory(
        String::from(""),
        String::from(""),
        MemoryType::new(Limits::new(1, None)),
    );
    let id = store.register_module(compile(module, Vec::new(), 0x30000));
    assert!(linker.instantiate(&mut store, id).is_err());

    // (module (import "" "" (table 1 funcref)))
    let mut module = Module::new(None);
    module.import_table(
        String::from(""),
        String::from(""),
        TableType::new(ValType::FuncRef, Limits::new(1, None)),
    );
    let id = store.register_module(compile(module, Vec::new(), 0x40000));
    assert!(linker.instantiate(&mut store, id).is_err());
}

#[test]
fn linker_resolves_by_name() {
    let mut store = Store::new(&Engine::new(Config::new()));
    let mut linker = Linker::new();

    let ty = FuncType::new(Vec::new(), Vec::new());
    let f = Func::new(&mut store, ty, HostBehavior::Return(Vec::new()));
    assert!(linker.define("host", "nop", Extern::Func(f)).is_ok());
    // The same name again is refused.
    let g = Func::new(
        &mut store,
        FuncType::new(Vec::new(), Vec::new()),
        HostBehavior::Return(Vec::new()),
    );
    let err = linker.define("host", "nop", Extern::Func(g)).unwrap_err();
    assert_eq!(err.message(), "import of `host::nop` defined twice");

    // A module importing the defined name instantiates.
    let mut module = Module::new(None);
    let sig = module.declare_signature(FuncType::new(Vec::new(), Vec::new()));
    module.import_func(String::from("host"), String::from("nop"), sig);
    let id = store.register_module(compile(module, Vec::new(), 0x10000));
    assert!(linker.instantiate(&mut store, id).is_ok());

    // A module importing an unknown name reports it.
    let mut module = Module::new(None);
    let sig = module.declare_signature(FuncType::new(Vec::new(), Vec::new()));
    module.import_func(String::from("host"), String::from("missing"), sig);
    let id = store.register_module(compile(module, Vec::new(), 0x20000));
    let err = linker.instantiate(&mut store, id).err().unwrap();
    match err {
        wasmtime::errors::InstantiationError::Link(m) => {
            assert_eq!(m, "unknown import: `host::missing` has not been defined");
        }
        other => panic!("expected a link error, got {:?}", other),
    }
}
