//! Tests of the legacy raw-pointer marshaler against real guest modules.

use wasm_lambda::engine::{Builder, ExecutionContext, ExecutionContextConfiguration, HostEngine};
use wasm_lambda::error::HostFault;
use wasm_lambda::raw_abi::{Marshaler, RawLambda};

fn test_config() -> ExecutionContextConfiguration {
    ExecutionContextConfiguration {
        id: "raw-component".to_owned(),
        task_directory: ".".to_owned(),
        temp_directory: ".".to_owned(),
        source: "inline".to_owned(),
        allowed_hosts: None,
        max_concurrent_requests: None,
    }
}

fn small_memory_config() -> wasmtime::Config {
    // Keep virtual-memory reservations small: guest memories in these tests
    // are one page, and the test environment caps address space.
    let mut config = wasmtime::Config::new();
    config.memory_reservation(1 << 20);
    config.memory_guard_size(1 << 16);
    config.memory_reservation_for_growth(0);
    config
}

fn context_from_wat(wat_text: &str) -> ExecutionContext {
    let bytes = wat::parse_str(wat_text).expect("wat must assemble");
    let engine = HostEngine::new(small_memory_config()).expect("engine must build");
    let mut builder = Builder::with_engine(test_config(), engine).expect("builder");
    builder.link_defaults().expect("capabilities must link");
    builder.build_from_bytes(&bytes).expect("module must build")
}

fn raw_lambda_from_wat(wat_text: &str, entry: &str) -> RawLambda {
    let ctx = context_from_wat(wat_text);
    let (store, instance) = ctx.prepare(None).expect("prepare must succeed");
    RawLambda::new(store, &instance, entry).expect("legacy exports must exist")
}

const RAW_PRELUDE: &str = r#"
  (global $next (mut i32) (i32.const 4096))
  (func (export "alloc") (param i32) (result i32)
    (local $ret i32)
    global.get $next
    local.set $ret
    global.get $next
    local.get 0
    i32.add
    global.set $next
    local.get $ret)
  (func (export "dealloc") (param i32))
"#;

fn raw_echo_guest() -> String {
    format!(
        r#"(module
  (memory (export "memory") 1)
  {RAW_PRELUDE}
  (func (export "run") (param i32 i32) (result i32)
    (i32.store8 (i32.add (local.get 0) (local.get 1)) (i32.const 0))
    (local.get 0)))"#
    )
}

#[test]
fn raw_echo_reads_null_terminated_reply() {
    let mut lambda = raw_lambda_from_wat(&raw_echo_guest(), "run");
    let out = lambda.handler("hi").expect("no host fault");
    assert_eq!(out, "hi");
}

#[test]
fn raw_echo_roundtrips_multibyte_strings() {
    let mut lambda = raw_lambda_from_wat(&raw_echo_guest(), "run");
    for event in ["x", "héllo", "sn\u{2603}w"] {
        let out = lambda.handler(event).expect("no host fault");
        assert_eq!(out, event);
    }
}

#[test]
fn raw_reply_pointer_outside_memory_is_out_of_bounds() {
    let wild = format!(
        r#"(module
  (memory (export "memory") 1)
  {RAW_PRELUDE}
  (func (export "run") (param i32 i32) (result i32)
    (i32.const 65536)))"#
    );
    let mut lambda = raw_lambda_from_wat(&wild, "run");
    let fault = lambda.handler("evt").expect_err("reply lies outside memory");
    assert!(matches!(fault, HostFault::OutOfBounds));
}

#[test]
fn raw_missing_export_is_load_time_error() {
    let incomplete = r#"(module (memory (export "memory") 1))"#;
    let ctx = context_from_wat(incomplete);
    let (store, instance) = ctx.prepare(None).expect("prepare must succeed");
    let err = RawLambda::new(store, &instance, "run");
    assert!(matches!(
        err,
        Err(wasm_lambda::error::BuildError::MissingExport(_))
    ));
}

#[test]
fn raw_reply_in_zeroed_memory_is_the_empty_string() {
    let zeros = format!(
        r#"(module
  (memory (export "memory") 1)
  {RAW_PRELUDE}
  (func (export "run") (param i32 i32) (result i32)
    (i32.const 60000)))"#
    );
    let mut lambda = raw_lambda_from_wat(&zeros, "run");
    let out = lambda.handler("evt").expect("no host fault");
    assert_eq!(out, "");
}

#[test]
fn marshaler_dispatches_to_selected_convention() {
    let mut legacy = Marshaler::Legacy(raw_lambda_from_wat(&raw_echo_guest(), "run"));
    let out = legacy.handler("tagged", None).expect("no host fault");
    assert_eq!(out, Ok("tagged".to_owned()));
}
