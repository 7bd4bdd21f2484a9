//! End-to-end tests of the canonical ABI marshaler against real guest
//! modules assembled from text.

use wasm_lambda::abi::Lambda;
use wasm_lambda::engine::{Builder, ExecutionContext, ExecutionContextConfiguration, HostEngine};
use wasm_lambda::error::{Error, HostFault};

fn test_config() -> ExecutionContextConfiguration {
    ExecutionContextConfiguration {
        id: "test-component".to_owned(),
        task_directory: ".".to_owned(),
        temp_directory: ".".to_owned(),
        source: "inline".to_owned(),
        allowed_hosts: None,
        max_concurrent_requests: None,
    }
}

fn small_memory_config() -> wasmtime::Config {
    // Keep virtual-memory reservations small: guest memories in these tests
    // are one page, and the test environment caps address space.
    let mut config = wasmtime::Config::new();
    config.memory_reservation(1 << 20);
    config.memory_guard_size(1 << 16);
    config.memory_reservation_for_growth(0);
    config
}

fn context_from_wat(wat_text: &str) -> ExecutionContext {
    let bytes = wat::parse_str(wat_text).expect("wat must assemble");
    let engine = HostEngine::new(small_memory_config()).expect("engine must build");
    let mut builder = Builder::with_engine(test_config(), engine).expect("builder");
    builder.link_wasi().expect("wasi must link");
    builder.link_wasi_http().expect("http gate must link");
    builder.build_from_bytes(&bytes).expect("module must build")
}

fn lambda_from_wat(wat_text: &str) -> Lambda {
    let ctx = context_from_wat(wat_text);
    let (store, instance) = ctx.prepare(None).expect("prepare must succeed");
    Lambda::new(store, &instance).expect("canonical exports must exist")
}

const BUMP_ALLOC: &str = r#"
  (global $next (mut i32) (i32.const 4096))
  (func (export "canonical_abi_realloc") (param i32 i32 i32 i32) (result i32)
    (local $ret i32)
    global.get $next
    local.set $ret
    global.get $next
    local.get 3
    i32.add
    global.set $next
    local.get $ret)
  (func (export "canonical_abi_free") (param i32 i32 i32))
"#;

fn echo_guest() -> String {
    format!(
        r#"(module
  (memory (export "memory") 1)
  {BUMP_ALLOC}
  (func (export "handler") (param i32 i32 i32 i32 i32) (result i32)
    (i32.store8 (i32.const 1024) (i32.const 0))
    (i32.store (i32.const 1028) (local.get 0))
    (i32.store (i32.const 1032) (local.get 1))
    (i32.const 1024)))"#
    )
}

fn fail_guest(disc: u32, tag: u32) -> String {
    format!(
        r#"(module
  (memory (export "memory") 1)
  {BUMP_ALLOC}
  (func (export "handler") (param i32 i32 i32 i32 i32) (result i32)
    (i32.store8 (i32.const 1024) (i32.const {disc}))
    (i32.store8 (i32.const 1028) (i32.const {tag}))
    (i32.const 1024)))"#
    )
}

#[test]
fn echo_success_decodes_output() {
    let mut lambda = lambda_from_wat(&echo_guest());
    let result = lambda.handler("ok", None).expect("no host fault");
    assert_eq!(result, Ok("ok".to_owned()));
}

#[test]
fn echo_roundtrips_multibyte_strings() {
    let mut lambda = lambda_from_wat(&echo_guest());
    for event in ["", "a", "héllo wörld", "snow\u{2603}man", "\u{1F600}"] {
        let result = lambda.handler(event, None).expect("no host fault");
        assert_eq!(result, Ok(event.to_owned()));
    }
}

#[test]
fn echo_roundtrips_event_with_context_present() {
    let mut lambda = lambda_from_wat(&echo_guest());
    let result = lambda.handler("payload", Some("context")).expect("no host fault");
    assert_eq!(result, Ok("payload".to_owned()));
}

#[test]
fn lower_string_then_read_back_is_identity() {
    let mut lambda = lambda_from_wat(&echo_guest());
    let text = "boundary-checked \u{00e9}\u{2603}";
    let (ptr, len) = lambda.lower_string(text).expect("lowering must succeed");
    let bytes = lambda
        .read_guest_range(ptr as u32, len as u32)
        .expect("written range must be readable");
    assert_eq!(bytes.as_slice(), text.as_bytes());
}

#[test]
fn failure_tag_zero_is_client_fault() {
    let mut lambda = lambda_from_wat(&fail_guest(1, 0));
    let result = lambda.handler("evt", None).expect("no host fault");
    assert_eq!(result, Err(Error::ClientError));
}

#[test]
fn failure_tag_one_is_server_fault() {
    let mut lambda = lambda_from_wat(&fail_guest(1, 1));
    let result = lambda.handler("evt", None).expect("no host fault");
    assert_eq!(result, Err(Error::ServerError));
}

#[test]
fn unknown_failure_tag_is_invalid_variant() {
    let mut lambda = lambda_from_wat(&fail_guest(1, 7));
    let fault = lambda.handler("evt", None).expect_err("tag 7 has no meaning");
    assert!(matches!(fault, HostFault::InvalidVariant));
}

#[test]
fn unknown_discriminant_is_invalid_variant() {
    let mut lambda = lambda_from_wat(&fail_guest(9, 0));
    let fault = lambda.handler("evt", None).expect_err("discriminant 9 has no meaning");
    assert!(matches!(fault, HostFault::InvalidVariant));
}

#[test]
fn absent_context_passes_zero_flag_pointer_length() {
    // The guest asserts on its received arguments: success only when the
    // context flag, pointer and length are all zero.
    let probe = format!(
        r#"(module
  (memory (export "memory") 1)
  {BUMP_ALLOC}
  (func (export "handler") (param i32 i32 i32 i32 i32) (result i32)
    (if (i32.and (i32.and (i32.eqz (local.get 2)) (i32.eqz (local.get 3)))
                 (i32.eqz (local.get 4)))
      (then
        (i32.store8 (i32.const 2048) (i32.const 89))
        (i32.store8 (i32.const 1024) (i32.const 0))
        (i32.store (i32.const 1028) (i32.const 2048))
        (i32.store (i32.const 1032) (i32.const 1)))
      (else
        (i32.store8 (i32.const 1024) (i32.const 1))
        (i32.store8 (i32.const 1028) (i32.const 0))))
    (i32.const 1024)))"#
    );
    let mut lambda = lambda_from_wat(&probe);
    let absent = lambda.handler("evt", None).expect("no host fault");
    assert_eq!(absent, Ok("Y".to_owned()));
    let present = lambda.handler("evt", Some("ctx")).expect("no host fault");
    assert_eq!(present, Err(Error::ClientError));
}

#[test]
fn guest_trap_is_reported_as_trap() {
    let trapping = format!(
        r#"(module
  (memory (export "memory") 1)
  {BUMP_ALLOC}
  (func (export "handler") (param i32 i32 i32 i32 i32) (result i32)
    unreachable))"#
    );
    let mut lambda = lambda_from_wat(&trapping);
    let fault = lambda.handler("evt", None).expect_err("guest traps");
    assert!(matches!(fault, HostFault::Trap(_)));
}

#[test]
fn result_pointer_outside_memory_is_out_of_bounds() {
    let wild = format!(
        r#"(module
  (memory (export "memory") 1)
  {BUMP_ALLOC}
  (func (export "handler") (param i32 i32 i32 i32 i32) (result i32)
    (i32.const 70000)))"#
    );
    let mut lambda = lambda_from_wat(&wild);
    let fault = lambda.handler("evt", None).expect_err("record lies outside memory");
    assert!(matches!(fault, HostFault::OutOfBounds));
}

#[test]
fn payload_range_outside_memory_is_out_of_bounds() {
    let wild = format!(
        r#"(module
  (memory (export "memory") 1)
  {BUMP_ALLOC}
  (func (export "handler") (param i32 i32 i32 i32 i32) (result i32)
    (i32.store8 (i32.const 1024) (i32.const 0))
    (i32.store (i32.const 1028) (i32.const 60000))
    (i32.store (i32.const 1032) (i32.const 70000))
    (i32.const 1024)))"#
    );
    let mut lambda = lambda_from_wat(&wild);
    let fault = lambda.handler("evt", None).expect_err("payload lies outside memory");
    assert!(matches!(fault, HostFault::OutOfBounds));
}

#[test]
fn invalid_utf8_payload_is_rejected_not_replaced() {
    let bad_utf8 = format!(
        r#"(module
  (memory (export "memory") 1)
  {BUMP_ALLOC}
  (func (export "handler") (param i32 i32 i32 i32 i32) (result i32)
    (i32.store8 (i32.const 2048) (i32.const 255))
    (i32.store8 (i32.const 2049) (i32.const 254))
    (i32.store8 (i32.const 1024) (i32.const 0))
    (i32.store (i32.const 1028) (i32.const 2048))
    (i32.store (i32.const 1032) (i32.const 2))
    (i32.const 1024)))"#
    );
    let mut lambda = lambda_from_wat(&bad_utf8);
    let fault = lambda.handler("evt", None).expect_err("payload is not UTF-8");
    assert!(matches!(fault, HostFault::InvalidUtf8));
}

#[test]
fn missing_canonical_export_is_load_time_error() {
    let incomplete = r#"(module
  (memory (export "memory") 1)
  (func (export "canonical_abi_free") (param i32 i32 i32)))"#;
    let ctx = context_from_wat(incomplete);
    let (store, instance) = ctx.prepare(None).expect("prepare must succeed");
    let err = Lambda::new(store, &instance);
    assert!(matches!(
        err,
        Err(wasm_lambda::error::BuildError::MissingExport(_))
    ));
}

#[test]
fn marshaler_canonical_reports_guest_signaled_errors() {
    let mut canonical =
        wasm_lambda::raw_abi::Marshaler::Canonical(lambda_from_wat(&fail_guest(1, 1)));
    let result = canonical.handler("evt", None).expect("no host fault");
    assert_eq!(result, Err(Error::ServerError));
}

#[test]
fn sequential_prepares_are_isolated() {
    let ctx = context_from_wat(&echo_guest());
    let (store_a, instance_a) = ctx.prepare(None).expect("first prepare");
    let (store_b, instance_b) = ctx.prepare(None).expect("second prepare");
    let mut lambda_a = Lambda::new(store_a, &instance_a).expect("exports");
    let mut lambda_b = Lambda::new(store_b, &instance_b).expect("exports");
    // Writes into invocation A's guest memory are not visible through
    // invocation B's: each prepared instance has its own store and memory.
    let (ptr, len) = lambda_a.lower_string("AAAA").expect("lowering in A");
    let b_bytes = lambda_b
        .read_guest_range(ptr as u32, len as u32)
        .expect("same range is readable in B");
    assert_eq!(b_bytes, vec![0u8; len as usize]);
    let a_bytes = lambda_a.read_guest_range(ptr as u32, len as u32).expect("range in A");
    assert_eq!(a_bytes.as_slice(), b"AAAA");
    // Both invocations still answer independently.
    assert_eq!(lambda_a.handler("one", None).expect("A"), Ok("one".to_owned()));
    assert_eq!(lambda_b.handler("two", None).expect("B"), Ok("two".to_owned()));
}

#[test]
fn outbound_http_import_is_registered_and_gate_answers() {
    // A guest that imports the outbound-HTTP interface loads, and its `req`
    // call is answered through the per-invocation gate: under the default
    // (no ceiling) the admission succeeds but no transport exists, so the
    // runtime-error code 12 comes back; the guest reports it as its payload.
    let probe = format!(
        r#"(module
  (import "wasi_experimental_http" "req"
    (func $req (param i32 i32 i32 i32 i32 i32 i32 i32 i32 i32) (result i32)))
  (memory (export "memory") 1)
  {BUMP_ALLOC}
  (func (export "handler") (param i32 i32 i32 i32 i32) (result i32)
    (i32.store8 (i32.const 2048)
      (call $req (i32.const 0) (i32.const 0) (i32.const 0) (i32.const 0)
                 (i32.const 0) (i32.const 0) (i32.const 0) (i32.const 0)
                 (i32.const 0) (i32.const 0)))
    (i32.store8 (i32.const 1024) (i32.const 0))
    (i32.store (i32.const 1028) (i32.const 2048))
    (i32.store (i32.const 1032) (i32.const 1))
    (i32.const 1024)))"#
    );
    let mut lambda = lambda_from_wat(&probe);
    let reply = lambda.handler("evt", None).expect("no host fault");
    assert_eq!(reply, Ok("\u{000c}".to_owned()));
}

#[test]
fn outbound_http_ceiling_of_zero_answers_too_many_sessions() {
    // The same guest under a ceiling of zero: admission is denied and the
    // interface's too-many-sessions code 13 comes back.
    let probe = format!(
        r#"(module
  (import "wasi_experimental_http" "req"
    (func $req (param i32 i32 i32 i32 i32 i32 i32 i32 i32 i32) (result i32)))
  (memory (export "memory") 1)
  {BUMP_ALLOC}
  (func (export "handler") (param i32 i32 i32 i32 i32) (result i32)
    (i32.store8 (i32.const 2048)
      (call $req (i32.const 0) (i32.const 0) (i32.const 0) (i32.const 0)
                 (i32.const 0) (i32.const 0) (i32.const 0) (i32.const 0)
                 (i32.const 0) (i32.const 0)))
    (i32.store8 (i32.const 1024) (i32.const 0))
    (i32.store (i32.const 1028) (i32.const 2048))
    (i32.store (i32.const 1032) (i32.const 1))
    (i32.const 1024)))"#
    );
    let bytes = wat::parse_str(&probe).expect("wat must assemble");
    let config = ExecutionContextConfiguration {
        max_concurrent_requests: Some(0),
        ..test_config()
    };
    let engine = HostEngine::new(small_memory_config()).expect("engine must build");
    let mut builder = Builder::with_engine(config, engine).expect("builder");
    builder.link_defaults().expect("capabilities must link");
    let ctx = builder.build_from_bytes(&bytes).expect("module must build");
    let (store, instance) = ctx.prepare(None).expect("prepare must succeed");
    let mut lambda = Lambda::new(store, &instance).expect("exports");
    let reply = lambda.handler("evt", None).expect("no host fault");
    assert_eq!(reply, Ok("\r".to_owned()));
}

#[test]
fn stale_http_handle_is_answered_invalid() {
    // `close` on any handle answers the interface's invalid-handle code 1:
    // no request ever succeeds, so no handle is ever live.
    let probe = format!(
        r#"(module
  (import "wasi_experimental_http" "close" (func $close (param i32) (result i32)))
  (memory (export "memory") 1)
  {BUMP_ALLOC}
  (func (export "handler") (param i32 i32 i32 i32 i32) (result i32)
    (i32.store8 (i32.const 2048) (call $close (i32.const 7)))
    (i32.store8 (i32.const 1024) (i32.const 0))
    (i32.store (i32.const 1028) (i32.const 2048))
    (i32.store (i32.const 1032) (i32.const 1))
    (i32.const 1024)))"#
    );
    let mut lambda = lambda_from_wat(&probe);
    let reply = lambda.handler("evt", None).expect("no host fault");
    assert_eq!(reply, Ok("\u{0001}".to_owned()));
}

#[test]
fn instantiate_through_linker_wraps_canonical_exports() {
    let bytes = wat::parse_str(&echo_guest()).expect("wat must assemble");
    let engine = HostEngine::new(small_memory_config()).expect("engine must build");
    let inner = engine.inner();
    let mut linker = wasmtime::Linker::new(&inner);
    wasm_lambda::abi::Lambda::add_to_linker(&mut linker).expect("no intrinsics needed");
    let module = wasmtime::Module::new(&inner, &bytes).expect("module");
    let wasi = wasmtime_wasi::p2::WasiCtxBuilder::new().build_p1();
    let store = wasmtime::Store::new(
        &inner,
        wasm_lambda::engine::RuntimeContext {
            wasi,
            http: wasm_lambda::gate::HttpGate::new(None, None),
            data: None,
        },
    );
    let (mut lambda, _instance) =
        Lambda::instantiate(store, &module, &linker).expect("instantiate");
    let result = lambda.handler("ok", None).expect("no host fault");
    assert_eq!(result, Ok("ok".to_owned()));
}
