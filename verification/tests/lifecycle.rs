//! Tests of the build and prepare lifecycle: compile failures, unresolved
//! imports, and per-invocation setup failures.

use wasm_lambda::engine::{Builder, ExecutionContextConfiguration, HostEngine};
use wasm_lambda::error::{BuildError, PrepareError};

fn named_config(id: &str) -> ExecutionContextConfiguration {
    ExecutionContextConfiguration {
        id: id.to_owned(),
        task_directory: ".".to_owned(),
        temp_directory: ".".to_owned(),
        source: "no-such-file.wasm".to_owned(),
        allowed_hosts: None,
        max_concurrent_requests: None,
    }
}

#[test]
fn build_from_missing_file_names_component_and_path() {
    let builder = Builder::new(named_config("thumbnailer")).expect("engine must build");
    match builder.build() {
        Err(BuildError::Compile { id, path, cause }) => {
            assert_eq!(id, "thumbnailer");
            assert_eq!(path, "no-such-file.wasm");
            assert!(!cause.is_empty());
        },
        Err(other) => panic!("expected a compile error, got {other:?}"),
        Ok(_) => panic!("expected a compile error, got a context"),
    }
}

#[test]
fn build_from_garbage_bytes_is_compile_error() {
    let builder = Builder::new(named_config("c")).expect("engine must build");
    let garbage = vec![0u8, 1, 2, 3];
    assert!(matches!(
        builder.build_from_bytes(&garbage),
        Err(BuildError::Compile { .. })
    ));
}

#[test]
fn unresolved_import_fails_preinstantiation() {
    let bytes =
        wat::parse_str(r#"(module (import "no_such_module" "no_such_item" (func)))"#).unwrap();
    let mut builder = Builder::new(named_config("c")).expect("engine must build");
    builder.link_defaults().expect("capabilities must link");
    assert!(matches!(
        builder.build_from_bytes(&bytes),
        Err(BuildError::Preinstantiate(_))
    ));
}

#[test]
fn prepare_fails_when_task_directory_cannot_be_opened() {
    let bytes = wat::parse_str(r#"(module (memory (export "memory") 1))"#).unwrap();
    let config = ExecutionContextConfiguration {
        task_directory: "no-such-directory-anywhere".to_owned(),
        ..named_config("c")
    };
    let mut tuned = wasmtime::Config::new();
    tuned.memory_reservation(1 << 20);
    tuned.memory_guard_size(1 << 16);
    tuned.memory_reservation_for_growth(0);
    let engine = HostEngine::new(tuned).expect("engine must build");
    let mut builder = Builder::with_engine(config, engine).expect("builder");
    builder.link_defaults().expect("capabilities must link");
    let ctx = builder.build_from_bytes(&bytes).expect("module must build");
    assert!(matches!(ctx.prepare(None), Err(PrepareError::DirectoryOpen(_))));
}

#[test]
fn explicitly_shared_engine_builds_contexts() {
    let engine = HostEngine::new(wasmtime::Config::new()).expect("engine must build");
    let _handle = engine.inner();
    let builder = Builder::with_engine(named_config("shared"), engine).expect("builder");
    assert!(matches!(builder.build(), Err(BuildError::Compile { .. })));
}

#[test]
fn fresh_gate_reflects_context_configuration() {
    let bytes = wat::parse_str(r#"(module (memory (export "memory") 1))"#).unwrap();
    let config = ExecutionContextConfiguration {
        allowed_hosts: Some(vec!["a.example".to_owned()]),
        max_concurrent_requests: Some(2),
        ..named_config("gated")
    };
    let mut builder = Builder::new(config).expect("engine must build");
    builder.link_defaults().expect("capabilities must link");
    let ctx = builder.build_from_bytes(&bytes).expect("module must build");
    let mut gate = ctx.fresh_gate();
    assert!(gate.host_allowed(&"a.example".to_owned()));
    assert!(!gate.host_allowed(&"b.example".to_owned()));
    assert!(gate.try_acquire());
    assert!(gate.try_acquire());
    assert!(!gate.try_acquire());
    // A second fresh gate starts over: per-invocation state is never shared.
    let mut second = ctx.fresh_gate();
    assert!(second.try_acquire());
}
