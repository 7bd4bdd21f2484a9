//! The execution-context engine.
//!
//! [`HostEngine`] wraps the process-wide module compiler/executor. [`Builder`]
//! does the one-time, expensive work for a component: it compiles the module,
//! resolves every import against the capability providers in a single link
//! step, and pre-instantiates the result. The product is an immutable
//! [`ExecutionContext`] whose [`ExecutionContext::prepare`] builds, for every
//! single invocation, a brand-new isolated runtime context (fresh filesystem
//! preopens, a fresh outbound-HTTP gate, a fresh data slot) and instantiates
//! the pre-linked template against it.
//!
//! The filesystem capability registers the real WASI imports. The
//! outbound-HTTP capability registers the experimental interface's imports
//! (module `wasi_experimental_http`, as the interface crate of that name
//! declares them) as shims: each answers through the verified admission
//! functions of the `gate` module, so a guest module importing the interface
//! loads, calls reach the per-invocation gate, and a request over the
//! configured ceiling is answered with the interface's too-many-sessions
//! code. No transport is wired — the crate that carried one no longer
//! builds against current engines — so a request under the ceiling is
//! answered with the interface's runtime-error code rather than performed.

use vstd::prelude::*;

use crate::abi::LambdaData;
use crate::error::{BuildError, PrepareError};
use crate::gate::{hosts_view, HttpGate};

verus! {

/// Builder-specific configuration for one component; immutable once a
/// [`Builder`] consumes it.
#[derive(Debug, Default)]
pub struct ExecutionContextConfiguration {
    /// Component identifier, used in error reports.
    pub id: String,
    /// Host directory mapped read-write into the guest at the task path.
    pub task_directory: String,
    /// Host directory mapped read-write into the guest at the temp path.
    pub temp_directory: String,
    /// Path of the compiled module on the host filesystem.
    pub source: String,
    /// Outbound-HTTP host allow-list; `None` denies every host.
    pub allowed_hosts: Option<Vec<String>>,
    /// Ceiling on concurrent outbound requests within one invocation.
    pub max_concurrent_requests: Option<u32>,
}

/// Top-level runtime context handed to a component: the per-invocation bundle
/// of the filesystem capability, the outbound-HTTP gate and the opaque
/// handler-specific data slot. Created fresh by [`ExecutionContext::prepare`]
/// and owned exclusively by that invocation's store.
pub struct RuntimeContext {
    /// The invocation's WASI context with its freshly opened preopens.
    pub wasi: wasmtime_wasi::preview1::WasiP1Ctx,
    /// The invocation's outbound-HTTP admission gate.
    pub http: HttpGate,
    /// Opaque handler-specific data.
    pub data: Option<LambdaData>,
}

/// The engine struct that encapsulates the underlying execution engine;
/// stateless after construction and shared by all modules and invocations.
pub struct HostEngine(wasmtime::Engine);

/// The feature switches of a configuration that the calling convention cares
/// about, in order: multiple linear memories, wide SIMD, detailed trap
/// backtraces, and asynchronous support.
pub uninterp spec fn config_features(config: wasmtime::Config) -> (bool, bool, bool, bool);

/// The same four feature switches, as captured by a built engine.
pub uninterp spec fn engine_features(engine: wasmtime::Engine) -> (bool, bool, bool, bool);

/// The calling convention's mandatory prerequisites: multiple linear
/// memories, wide SIMD and detailed backtraces on, asynchronous support off
/// (every store of such an engine is synchronous, which the instantiation and
/// guest-call paths require).
pub open spec fn abi_prerequisites(engine: wasmtime::Engine) -> bool {
    &&& engine_features(engine).0
    &&& engine_features(engine).1
    &&& engine_features(engine).2
    &&& !engine_features(engine).3
}

/// Relies on `wasmtime::Config::new` for a default configuration.
#[verifier::external_body]
fn config_default() -> wasmtime::Config {
    wasmtime::Config::new()
}

/// Relies on `wasmtime::Config::wasm_backtrace_details` to record detailed
/// backtraces for guest traps; the other feature switches are untouched.
#[verifier::external_body]
fn config_enable_backtrace_details(config: &mut wasmtime::Config)
    ensures
        config_features(*final(config)) == (
            config_features(*old(config)).0,
            config_features(*old(config)).1,
            true,
            config_features(*old(config)).3,
        ),
{
    config.wasm_backtrace_details(wasmtime::WasmBacktraceDetails::Enable);
}

/// Relies on `wasmtime::Config::wasm_multi_memory` to enable multiple linear
/// memories, a prerequisite of the calling convention; the other feature
/// switches are untouched.
#[verifier::external_body]
fn config_enable_multi_memory(config: &mut wasmtime::Config)
    ensures
        config_features(*final(config)) == (
            true,
            config_features(*old(config)).1,
            config_features(*old(config)).2,
            config_features(*old(config)).3,
        ),
{
    config.wasm_multi_memory(true);
}

/// Relies on `wasmtime::Config::wasm_simd` to enable wide SIMD, a
/// prerequisite of guest modules compiled against the calling convention; the
/// other feature switches are untouched.
#[verifier::external_body]
fn config_enable_simd(config: &mut wasmtime::Config)
    ensures
        config_features(*final(config)) == (
            config_features(*old(config)).0,
            true,
            config_features(*old(config)).2,
            config_features(*old(config)).3,
        ),
{
    config.wasm_simd(true);
}

/// Relies on `wasmtime::Config::async_support` to switch asynchronous support
/// off, whatever the caller configured: stores of this engine are synchronous,
/// which instantiation and typed guest calls require; the other feature
/// switches are untouched.
#[verifier::external_body]
fn config_disable_async(config: &mut wasmtime::Config)
    ensures
        config_features(*final(config)) == (
            config_features(*old(config)).0,
            config_features(*old(config)).1,
            config_features(*old(config)).2,
            false,
        ),
{
    config.async_support(false);
}

/// Relies on `wasmtime::Engine::new`: builds the engine, capturing the
/// configuration's feature switches, or reports why the configuration was
/// rejected.
#[verifier::external_body]
fn engine_new(config: &wasmtime::Config) -> (r: Result<wasmtime::Engine, String>)
    ensures
        r matches Ok(engine) ==> engine_features(engine) == config_features(*config),
{
    wasmtime::Engine::new(config).map_err(|e| format!("{e:#}"))
}

/// Relies on `wasmtime::Engine::clone`: an engine value is a cheap
/// reference-counted handle, and a clone is a handle to the same engine, so
/// it denotes the same value.
#[verifier::external_body]
fn engine_clone(engine: &wasmtime::Engine) -> (r: wasmtime::Engine)
    ensures
        r == *engine,
{
    engine.clone()
}

/// Whether the WASI imports stand registered in the link table.
pub uninterp spec fn linker_has_wasi(linker: wasmtime::Linker<RuntimeContext>) -> bool;

/// Whether no definition at all stands in the link table yet.
pub uninterp spec fn linker_fresh(linker: wasmtime::Linker<RuntimeContext>) -> bool;

/// Which of the outbound-HTTP interface's imports stand defined in the link
/// table, in order: `req`, `close`, `body_read`, `header_get`,
/// `headers_get_all`.
pub uninterp spec fn http_defined(linker: wasmtime::Linker<RuntimeContext>) -> (
    bool,
    bool,
    bool,
    bool,
    bool,
);

/// Whether the outbound-HTTP interface's imports all stand registered.
pub open spec fn linker_has_http(linker: wasmtime::Linker<RuntimeContext>) -> bool {
    &&& http_defined(linker).0
    &&& http_defined(linker).1
    &&& http_defined(linker).2
    &&& http_defined(linker).3
    &&& http_defined(linker).4
}

/// Whether none of the outbound-HTTP interface's imports stands defined yet.
pub open spec fn linker_http_undefined(linker: wasmtime::Linker<RuntimeContext>) -> bool {
    &&& !http_defined(linker).0
    &&& !http_defined(linker).1
    &&& !http_defined(linker).2
    &&& !http_defined(linker).3
    &&& !http_defined(linker).4
}

/// The engine a link table was created on.
pub uninterp spec fn linker_engine(linker: wasmtime::Linker<RuntimeContext>) -> wasmtime::Engine;

/// The engine a module was compiled on.
pub uninterp spec fn module_engine(module: wasmtime::Module) -> wasmtime::Engine;

/// The engine a pre-instantiated template was resolved on.
pub uninterp spec fn pre_engine(pre: wasmtime::InstancePre<RuntimeContext>) -> wasmtime::Engine;

/// The engine a store was created on.
pub uninterp spec fn store_engine(store: wasmtime::Store<RuntimeContext>) -> wasmtime::Engine;

/// Whether the store is synchronous (its engine has asynchronous support
/// off), which the instantiation and typed guest-call paths require.
pub uninterp spec fn store_synchronous(store: wasmtime::Store<RuntimeContext>) -> bool;

/// Relies on `wasmtime::Linker::new` for an empty link table on the given
/// engine; nothing is registered in it yet.
#[verifier::external_body]
fn linker_new(engine: &wasmtime::Engine) -> (r: wasmtime::Linker<RuntimeContext>)
    ensures
        linker_fresh(r),
        !linker_has_wasi(r),
        http_defined(r) == (false, false, false, false, false),
        linker_engine(r) == *engine,
{
    wasmtime::Linker::new(engine)
}

/// Relies on `wasmtime_wasi::preview1::add_to_linker_sync` to register every
/// WASI import against the runtime context's WASI field; on success they
/// stand in the link table. Registration fails only on a name already
/// defined, so on a fresh table it succeeds. The outbound-HTTP definitions
/// and the table's engine are untouched.
#[verifier::external_body]
fn linker_add_wasi(linker: &mut wasmtime::Linker<RuntimeContext>) -> (r: Result<(), String>)
    ensures
        linker_fresh(*old(linker)) ==> r is Ok,
        r is Ok ==> linker_has_wasi(*final(linker)),
        http_defined(*final(linker)) == http_defined(*old(linker)),
        linker_engine(*final(linker)) == linker_engine(*old(linker)),
{
    wasmtime_wasi::preview1::add_to_linker_sync(linker, |ctx: &mut RuntimeContext| &mut ctx.wasi)
        .map_err(|e| format!("{e:#}"))
}

/// Registers the outbound-HTTP interface's `req` import (ten parameters,
/// returning a status code, as the interface crate's `raw` module declares
/// it) as a shim whose closure only consults the invocation's verified gate.
/// Relies on `wasmtime::Linker::func_wrap`, which fails exactly when that
/// name is already defined, changing nothing then; the other definitions and
/// the table's engine are untouched.
#[verifier::external_body]
fn linker_define_http_req(linker: &mut wasmtime::Linker<RuntimeContext>) -> (r: Result<(), String>)
    ensures
        r is Ok <==> !http_defined(*old(linker)).0,
        r is Ok ==> http_defined(*final(linker)) == (
            true,
            http_defined(*old(linker)).1,
            http_defined(*old(linker)).2,
            http_defined(*old(linker)).3,
            http_defined(*old(linker)).4,
        ),
        r is Err ==> *final(linker) == *old(linker),
        linker_has_wasi(*final(linker)) == linker_has_wasi(*old(linker)),
        linker_engine(*final(linker)) == linker_engine(*old(linker)),
{
    let shim = |mut caller: wasmtime::Caller<'_, RuntimeContext>,
        _: u32, _: u32, _: u32, _: u32, _: u32, _: u32, _: u32, _: u32, _: u32, _: u32| -> u32
        { caller.data_mut().http.outbound_req_code() };
    linker.func_wrap("wasi_experimental_http", "req", shim).map(|_| ()).map_err(|e| format!("{e:#}"))
}

/// Registers the outbound-HTTP interface's `close` import (one handle
/// parameter) as a shim answering the verified stale-handle code. Relies on
/// `wasmtime::Linker::func_wrap`, failing exactly on a duplicate name and
/// changing nothing then; other definitions and the engine are untouched.
#[verifier::external_body]
fn linker_define_http_close(linker: &mut wasmtime::Linker<RuntimeContext>) -> (r: Result<
    (),
    String,
>)
    ensures
        r is Ok <==> !http_defined(*old(linker)).1,
        r is Ok ==> http_defined(*final(linker)) == (
            http_defined(*old(linker)).0,
            true,
            http_defined(*old(linker)).2,
            http_defined(*old(linker)).3,
            http_defined(*old(linker)).4,
        ),
        r is Err ==> *final(linker) == *old(linker),
        linker_has_wasi(*final(linker)) == linker_has_wasi(*old(linker)),
        linker_engine(*final(linker)) == linker_engine(*old(linker)),
{
    let shim = |_: u32| -> u32 { crate::gate::outbound_invalid_handle_code() };
    linker.func_wrap("wasi_experimental_http", "close", shim).map(|_| ()).map_err(|e| format!("{e:#}"))
}

/// Registers the outbound-HTTP interface's `body_read` import (handle,
/// buffer pointer/length, out-pointer) as a shim answering the verified
/// stale-handle code. Relies on `wasmtime::Linker::func_wrap`, failing
/// exactly on a duplicate name and changing nothing then; other definitions
/// and the engine are untouched.
#[verifier::external_body]
fn linker_define_http_body_read(linker: &mut wasmtime::Linker<RuntimeContext>) -> (r: Result<
    (),
    String,
>)
    ensures
        r is Ok <==> !http_defined(*old(linker)).2,
        r is Ok ==> http_defined(*final(linker)) == (
            http_defined(*old(linker)).0,
            http_defined(*old(linker)).1,
            true,
            http_defined(*old(linker)).3,
            http_defined(*old(linker)).4,
        ),
        r is Err ==> *final(linker) == *old(linker),
        linker_has_wasi(*final(linker)) == linker_has_wasi(*old(linker)),
        linker_engine(*final(linker)) == linker_engine(*old(linker)),
{
    let shim = |_: u32, _: u32, _: u32, _: u32| -> u32 {
        crate::gate::outbound_invalid_handle_code()
    };
    linker.func_wrap("wasi_experimental_http", "body_read", shim).map(|_| ()).map_err(|e| format!("{e:#}"))
}

/// Registers the outbound-HTTP interface's `header_get` import (handle, name
/// pointer/length, buffer pointer/length, out-pointer) as a shim answering
/// the verified stale-handle code. Relies on `wasmtime::Linker::func_wrap`,
/// failing exactly on a duplicate name and changing nothing then; other
/// definitions and the engine are untouched.
#[verifier::external_body]
fn linker_define_http_header_get(linker: &mut wasmtime::Linker<RuntimeContext>) -> (r: Result<
    (),
    String,
>)
    ensures
        r is Ok <==> !http_defined(*old(linker)).3,
        r is Ok ==> http_defined(*final(linker)) == (
            http_defined(*old(linker)).0,
            http_defined(*old(linker)).1,
            http_defined(*old(linker)).2,
            true,
            http_defined(*old(linker)).4,
        ),
        r is Err ==> *final(linker) == *old(linker),
        linker_has_wasi(*final(linker)) == linker_has_wasi(*old(linker)),
        linker_engine(*final(linker)) == linker_engine(*old(linker)),
{
    let shim = |_: u32, _: u32, _: u32, _: u32, _: u32, _: u32| -> u32 {
        crate::gate::outbound_invalid_handle_code()
    };
    linker.func_wrap("wasi_experimental_http", "header_get", shim).map(|_| ()).map_err(|e| format!("{e:#}"))
}

/// Registers the outbound-HTTP interface's `headers_get_all` import (handle,
/// buffer pointer/length, out-pointer) as a shim answering the verified
/// stale-handle code. Relies on `wasmtime::Linker::func_wrap`, failing
/// exactly on a duplicate name and changing nothing then; other definitions
/// and the engine are untouched.
#[verifier::external_body]
fn linker_define_http_headers_all(linker: &mut wasmtime::Linker<RuntimeContext>) -> (r: Result<
    (),
    String,
>)
    ensures
        r is Ok <==> !http_defined(*old(linker)).4,
        r is Ok ==> http_defined(*final(linker)) == (
            http_defined(*old(linker)).0,
            http_defined(*old(linker)).1,
            http_defined(*old(linker)).2,
            http_defined(*old(linker)).3,
            true,
        ),
        r is Err ==> *final(linker) == *old(linker),
        linker_has_wasi(*final(linker)) == linker_has_wasi(*old(linker)),
        linker_engine(*final(linker)) == linker_engine(*old(linker)),
{
    let shim = |_: u32, _: u32, _: u32, _: u32| -> u32 {
        crate::gate::outbound_invalid_handle_code()
    };
    linker.func_wrap("wasi_experimental_http", "headers_get_all", shim).map(|_| ()).map_err(|e| format!("{e:#}"))
}

/// Relies on `wasmtime::Module::from_file`: reads, parses and validates the
/// module at the given path; what comes back depends on the file on disk, so
/// nothing is assumed beyond success or a descriptive message.
#[verifier::external_body]
fn module_from_file(engine: &wasmtime::Engine, path: &String) -> (r: Result<
    wasmtime::Module,
    String,
>)
    ensures
        r matches Ok(module) ==> module_engine(module) == *engine,
{
    wasmtime::Module::from_file(engine, path).map_err(|e| format!("{e:#}"))
}

/// Relies on `wasmtime::Module::new`: parses and validates module bytes
/// already held in memory.
#[verifier::external_body]
fn module_from_bytes(engine: &wasmtime::Engine, bytes: &Vec<u8>) -> (r: Result<
    wasmtime::Module,
    String,
>)
    ensures
        r matches Ok(module) ==> module_engine(module) == *engine,
{
    wasmtime::Module::new(engine, bytes.as_slice()).map_err(|e| format!("{e:#}"))
}

/// Relies on `wasmtime::Linker::instantiate_pre`: resolves every import the
/// module declares against the link table, without running guest code; fails
/// when an import is unresolved.
#[verifier::external_body]
fn linker_instantiate_pre(
    linker: &wasmtime::Linker<RuntimeContext>,
    module: &wasmtime::Module,
) -> (r: Result<wasmtime::InstancePre<RuntimeContext>, String>)
    ensures
        r matches Ok(pre) ==> pre_engine(pre) == linker_engine(*linker),
{
    linker.instantiate_pre(module).map_err(|e| format!("{e:#}"))
}

/// Relies on `wasmtime::Linker::instantiate`: resolves the module's imports
/// against this link table and instantiates within the store, running at
/// most the guest's start section; fails when an import is unresolved or
/// that section traps. The store must be synchronous and share the table's
/// and module's engine — the call's panic conditions, excluded here by
/// `requires`. The instance it returns lives in the store; the registered
/// host functions reach only the context's WASI field and its gate, and the
/// shims leave the admission state as they found it, so the store's named state is
/// unchanged.
#[verifier::external_body]
pub(crate) fn linker_instantiate(
    linker: &wasmtime::Linker<RuntimeContext>,
    store: &mut wasmtime::Store<RuntimeContext>,
    module: &wasmtime::Module,
) -> (r: Result<wasmtime::Instance, String>)
    requires
        store_synchronous(*old(store)),
        store_engine(*old(store)) == linker_engine(*linker),
        module_engine(*module) == linker_engine(*linker),
    ensures
        r matches Ok(instance) ==> instance_in_store(instance, *final(store)),
        store_synchronous(*final(store)) == store_synchronous(*old(store)),
        store_engine(*final(store)) == store_engine(*old(store)),
        store_gate_hosts(*final(store)) == store_gate_hosts(*old(store)),
        store_gate_ceiling(*final(store)) == store_gate_ceiling(*old(store)),
        store_gate_in_flight(*final(store)) == store_gate_in_flight(*old(store)),
        store_has_data(*final(store)) == store_has_data(*old(store)),
        store_preopens(*final(store)) == store_preopens(*old(store)),
        store_inherits(*final(store)) == store_inherits(*old(store)),
{
    linker.instantiate(&mut *store, module).map_err(|e| format!("{e:#}"))
}

/// The preopened directories collected by a WASI context builder, as
/// host-path/guest-path pairs in the order they were added.
pub uninterp spec fn builder_preopens(builder: wasmtime_wasi::p2::WasiCtxBuilder) -> Seq<
    (Seq<char>, Seq<char>),
>;

/// Which of the host's stdio, arguments and environment a WASI context
/// builder hands to the guest, in that order.
pub uninterp spec fn builder_inherits(builder: wasmtime_wasi::p2::WasiCtxBuilder) -> (
    bool,
    bool,
    bool,
);

/// The preopened directories a built WASI context was configured with, as
/// host-path/guest-path pairs in order.
pub uninterp spec fn wasi_preopens(wasi: wasmtime_wasi::preview1::WasiP1Ctx) -> Seq<
    (Seq<char>, Seq<char>),
>;

/// Which of the host's stdio, arguments and environment a built WASI context
/// hands to the guest.
pub uninterp spec fn wasi_inherits(wasi: wasmtime_wasi::preview1::WasiP1Ctx) -> (
    bool,
    bool,
    bool,
);

/// Relies on `wasmtime_wasi::p2::WasiCtxBuilder::new` for an empty WASI
/// context builder: no preopens, nothing inherited.
#[verifier::external_body]
fn wasi_builder_new() -> (r: wasmtime_wasi::p2::WasiCtxBuilder)
    ensures
        builder_preopens(r) == Seq::<(Seq<char>, Seq<char>)>::empty(),
        builder_inherits(r) == (false, false, false),
{
    wasmtime_wasi::p2::WasiCtxBuilder::new()
}

/// Relies on `WasiCtxBuilder::inherit_stdio` to hand the host's stdio to the
/// guest; preopens and the other inherits are untouched.
#[verifier::external_body]
fn wasi_inherit_stdio(builder: &mut wasmtime_wasi::p2::WasiCtxBuilder)
    ensures
        builder_preopens(*final(builder)) == builder_preopens(*old(builder)),
        builder_inherits(*final(builder)) == (
            true,
            builder_inherits(*old(builder)).1,
            builder_inherits(*old(builder)).2,
        ),
{
    builder.inherit_stdio();
}

/// Relies on `WasiCtxBuilder::inherit_args` to hand the host's arguments to
/// the guest; preopens and the other inherits are untouched.
#[verifier::external_body]
fn wasi_inherit_args(builder: &mut wasmtime_wasi::p2::WasiCtxBuilder)
    ensures
        builder_preopens(*final(builder)) == builder_preopens(*old(builder)),
        builder_inherits(*final(builder)) == (
            builder_inherits(*old(builder)).0,
            true,
            builder_inherits(*old(builder)).2,
        ),
{
    builder.inherit_args();
}

/// Relies on `WasiCtxBuilder::inherit_env` to hand the host's environment to
/// the guest; preopens and the other inherits are untouched. It reads the
/// process environment — ambient state no parameter can name — and the
/// underlying std reader refuses a non-Unicode entry by panicking.
#[verifier::external_body]
fn wasi_inherit_env(builder: &mut wasmtime_wasi::p2::WasiCtxBuilder)
    ensures
        builder_preopens(*final(builder)) == builder_preopens(*old(builder)),
        builder_inherits(*final(builder)) == (
            builder_inherits(*old(builder)).0,
            builder_inherits(*old(builder)).1,
            true,
        ),
{
    builder.inherit_env();
}

/// Relies on `WasiCtxBuilder::preopened_dir`: opens `host_path` anew (a fresh
/// descriptor per call, nothing cached) and exposes it read-write to the
/// guest at `guest_path`, appending to the preopens; fails, leaving the
/// builder as it was, exactly when the directory cannot be opened.
#[verifier::external_body]
fn wasi_preopened_dir(
    builder: &mut wasmtime_wasi::p2::WasiCtxBuilder,
    host_path: &String,
    guest_path: &str,
) -> (r: Result<(), String>)
    ensures
        r is Ok ==> builder_preopens(*final(builder)) == builder_preopens(*old(builder)).push(
            (host_path@, guest_path@),
        ),
        r is Ok ==> builder_inherits(*final(builder)) == builder_inherits(*old(builder)),
        r is Err ==> *final(builder) == *old(builder),
{
    builder
        .preopened_dir(host_path, guest_path, wasmtime_wasi::DirPerms::all(), wasmtime_wasi::FilePerms::all())
        .map(|_| ())
        .map_err(|e| format!("{e:#}"))
}

/// Relies on `WasiCtxBuilder::build_p1` to produce the invocation's WASI
/// context, carrying over the builder's preopens and inherits. The builder is
/// consumed: a context is built from it once.
#[verifier::external_body]
fn wasi_build_p1(builder: wasmtime_wasi::p2::WasiCtxBuilder) -> (r:
    wasmtime_wasi::preview1::WasiP1Ctx)
    ensures
        wasi_preopens(r) == builder_preopens(builder),
        wasi_inherits(r) == builder_inherits(builder),
{
    let mut builder = builder;
    builder.build_p1()
}

/// The allow-list of the outbound-HTTP gate held by the store's runtime
/// context.
pub uninterp spec fn store_gate_hosts(store: wasmtime::Store<RuntimeContext>) -> Option<
    Seq<Seq<char>>,
>;

/// The concurrency ceiling of the outbound-HTTP gate held by the store's
/// runtime context.
pub uninterp spec fn store_gate_ceiling(store: wasmtime::Store<RuntimeContext>) -> Option<u32>;

/// The in-flight request count of the outbound-HTTP gate held by the store's
/// runtime context.
pub uninterp spec fn store_gate_in_flight(store: wasmtime::Store<RuntimeContext>) -> u32;

/// Whether the store's runtime context carries handler-specific data.
pub uninterp spec fn store_has_data(store: wasmtime::Store<RuntimeContext>) -> bool;

/// The preopened directories the store's WASI context was configured with;
/// configuration, once built, never changes.
pub uninterp spec fn store_preopens(store: wasmtime::Store<RuntimeContext>) -> Seq<
    (Seq<char>, Seq<char>),
>;

/// Which of the host's stdio, arguments and environment the store's WASI
/// context hands to the guest.
pub uninterp spec fn store_inherits(store: wasmtime::Store<RuntimeContext>) -> (bool, bool, bool);

/// Relies on `wasmtime::Store::new` for a fresh store owning exactly the
/// given runtime context: the store's gate, data slot and WASI contents are
/// the context's.
#[verifier::external_body]
fn store_new(engine: &wasmtime::Engine, ctx: RuntimeContext) -> (r: wasmtime::Store<
    RuntimeContext,
>)
    ensures
        store_gate_hosts(r) == ctx.http.hosts(),
        store_gate_ceiling(r) == ctx.http.ceiling(),
        store_gate_in_flight(r) == ctx.http.in_flight(),
        store_has_data(r) == (ctx.data is Some),
        store_preopens(r) == wasi_preopens(ctx.wasi),
        store_inherits(r) == wasi_inherits(ctx.wasi),
        store_engine(r) == *engine,
        store_synchronous(r) == !engine_features(*engine).3,
{
    wasmtime::Store::new(engine, ctx)
}

/// Holds when the instance was created within the given store, so that its
/// exports may be looked up through that store.
pub uninterp spec fn instance_in_store(
    instance: wasmtime::Instance,
    store: wasmtime::Store<RuntimeContext>,
) -> bool;

/// Relies on `wasmtime::InstancePre::instantiate`: instantiates the
/// pre-linked template within the store, running at most the guest's start
/// section; fails when that traps or a resource limit is hit. The store must
/// be synchronous and come from the template's engine — the call's panic
/// conditions, excluded here by `requires` and discharged in
/// [`ExecutionContext::prepare`]. The instance it returns lives in the given
/// store. The registered host functions reach only the context's WASI field
/// and its gate, and the shims leave the admission state as they found it, so the
/// store's named state is unchanged.
#[verifier::external_body]
fn instance_pre_instantiate(
    pre: &wasmtime::InstancePre<RuntimeContext>,
    store: &mut wasmtime::Store<RuntimeContext>,
) -> (r: Result<wasmtime::Instance, String>)
    requires
        store_synchronous(*old(store)),
        store_engine(*old(store)) == pre_engine(*pre),
    ensures
        r matches Ok(instance) ==> instance_in_store(instance, *final(store)),
        store_synchronous(*final(store)) == store_synchronous(*old(store)),
        store_engine(*final(store)) == store_engine(*old(store)),
        store_gate_hosts(*final(store)) == store_gate_hosts(*old(store)),
        store_gate_ceiling(*final(store)) == store_gate_ceiling(*old(store)),
        store_gate_in_flight(*final(store)) == store_gate_in_flight(*old(store)),
        store_has_data(*final(store)) == store_has_data(*old(store)),
        store_preopens(*final(store)) == store_preopens(*old(store)),
        store_inherits(*final(store)) == store_inherits(*old(store)),
{
    pre.instantiate(&mut *store).map_err(|e| format!("{e:#}"))
}

impl HostEngine {
    #[verifier::type_invariant]
    spec fn wf(self) -> bool {
        abi_prerequisites(self.0)
    }

    /// The underlying engine value.
    pub closed spec fn spec_inner(self) -> wasmtime::Engine {
        self.0
    }

    /// Create a new engine and initialize it with the given config. The
    /// prerequisites of the calling convention — multiple linear memories,
    /// wide SIMD and detailed trap backtraces on, asynchronous support off —
    /// are always forced, whatever the caller configured; they are not
    /// optional tuning knobs. Fails only if the underlying compiler rejects
    /// the configuration, which is fatal and non-recoverable.
    pub fn new(config: wasmtime::Config) -> (r: Result<HostEngine, BuildError>)
        ensures
            r matches Ok(engine) ==> abi_prerequisites(engine.spec_inner()),
            r matches Err(e) ==> e is EngineInit,
    {
        let mut config = config;
        config_enable_backtrace_details(&mut config);
        config_enable_multi_memory(&mut config);
        config_enable_simd(&mut config);
        config_disable_async(&mut config);
        match engine_new(&config) {
            Ok(inner) => Ok(HostEngine(inner)),
            Err(msg) => Err(BuildError::EngineInit(msg)),
        }
    }

    /// Get a clone of the internal engine handle: cheap, reference-counted,
    /// a handle to this same engine, and safe to share across threads.
    pub fn inner(&self) -> (r: wasmtime::Engine)
        ensures
            r == self.spec_inner(),
    {
        engine_clone(&self.0)
    }
}

/// Whether every allow-list entry is usable: an entry must name a host, so an
/// empty entry makes the list invalid.
pub open spec fn allow_list_ok(config: ExecutionContextConfiguration) -> bool {
    match hosts_view(config.allowed_hosts) {
        None => true,
        Some(hs) => forall|i: int| 0 <= i < hs.len() ==> (#[trigger] hs[i]).len() > 0,
    }
}

/// An execution context builder: collects the link table for one component.
pub struct Builder {
    config: ExecutionContextConfiguration,
    linker: wasmtime::Linker<RuntimeContext>,
    engine: HostEngine,
}

impl Builder {
    /// The configuration this builder was created with.
    pub closed spec fn spec_config(self) -> ExecutionContextConfiguration {
        self.config
    }

    /// The engine this builder links against.
    pub closed spec fn spec_engine(self) -> wasmtime::Engine {
        self.engine.spec_inner()
    }

    /// Whether the WASI imports stand registered in this builder's link
    /// table.
    pub closed spec fn spec_wasi_linked(self) -> bool {
        linker_has_wasi(self.linker)
    }

    /// Whether the outbound-HTTP interface's imports stand registered in
    /// this builder's link table.
    pub closed spec fn spec_http_linked(self) -> bool {
        linker_has_http(self.linker)
    }

    /// Whether none of the outbound-HTTP interface's imports stands defined
    /// yet in this builder's link table.
    pub closed spec fn spec_http_undefined(self) -> bool {
        linker_http_undefined(self.linker)
    }

    /// Whether this builder's link table holds no definition at all yet.
    pub closed spec fn spec_linker_fresh(self) -> bool {
        linker_fresh(self.linker)
    }

    /// The engine this builder's link table was created on.
    pub closed spec fn spec_linker_engine(self) -> wasmtime::Engine {
        linker_engine(self.linker)
    }

    /// Creates a new instance of the execution builder on a fresh engine,
    /// which carries the calling convention's mandatory prerequisites, with
    /// an empty link table of that engine.
    pub fn new(config: ExecutionContextConfiguration) -> (r: Result<Builder, BuildError>)
        ensures
            r matches Ok(b) ==> {
                &&& b.spec_config() == config
                &&& abi_prerequisites(b.spec_engine())
                &&& b.spec_linker_engine() == b.spec_engine()
                &&& b.spec_linker_fresh()
                &&& !b.spec_wasi_linked()
                &&& b.spec_http_undefined()
            },
            r matches Err(e) ==> e is EngineInit,
    {
        let engine = match HostEngine::new(config_default()) {
            Ok(e) => e,
            Err(e) => {
                return Err(e);
            },
        };
        Self::with_engine(config, engine)
    }

    /// Creates a new instance of the execution builder on an explicitly
    /// supplied shared engine, with an empty link table.
    pub fn with_engine(config: ExecutionContextConfiguration, engine: HostEngine) -> (r: Result<
        Builder,
        BuildError,
    >)
        ensures
            r matches Ok(b) ==> {
                &&& b.spec_config() == config
                &&& b.spec_engine() == engine.spec_inner()
                &&& b.spec_linker_engine() == engine.spec_inner()
                &&& b.spec_linker_fresh()
                &&& !b.spec_wasi_linked()
                &&& b.spec_http_undefined()
            },
            r is Ok,
    {
        let linker = linker_new(&engine.0);
        Ok(Builder { config, linker, engine })
    }

    /// Configures the WASI filesystem capability's imports for the current
    /// execution context: on success they stand registered in the link
    /// table, and on a fresh table registration always succeeds.
    pub fn link_wasi(&mut self) -> (r: Result<(), BuildError>)
        ensures
            final(self).spec_config() == old(self).spec_config(),
            final(self).spec_engine() == old(self).spec_engine(),
            final(self).spec_linker_engine() == old(self).spec_linker_engine(),
            final(self).spec_http_undefined() == old(self).spec_http_undefined(),
            final(self).spec_http_linked() == old(self).spec_http_linked(),
            old(self).spec_linker_fresh() ==> r is Ok,
            r is Ok ==> final(self).spec_wasi_linked(),
            r matches Err(e) ==> e is CapabilityInit,
    {
        match linker_add_wasi(&mut self.linker) {
            Ok(()) => Ok(()),
            Err(msg) => Err(BuildError::CapabilityInit(msg)),
        }
    }

    /// Configures the outbound-HTTP capability for the current execution
    /// context: validates the allow-list the per-invocation egress gate is
    /// built from, failing exactly when the list holds an empty entry, and
    /// then registers the experimental interface's imports as shims that
    /// answer through the verified gate (see the module documentation). On a
    /// table where none of those imports is defined yet, the whole step
    /// succeeds exactly when the allow-list is valid.
    pub fn link_wasi_http(&mut self) -> (r: Result<(), BuildError>)
        ensures
            final(self).spec_config() == old(self).spec_config(),
            final(self).spec_engine() == old(self).spec_engine(),
            final(self).spec_linker_engine() == old(self).spec_linker_engine(),
            final(self).spec_wasi_linked() == old(self).spec_wasi_linked(),
            !allow_list_ok(old(self).spec_config()) ==> r is Err && *final(self) == *old(self),
            old(self).spec_http_undefined() ==> (r is Ok <==> allow_list_ok(
                old(self).spec_config(),
            )),
            r is Ok ==> final(self).spec_http_linked(),
            r matches Err(e) ==> e is CapabilityInit,
    {
        match &self.config.allowed_hosts {
            None => (),
            Some(hs) => {
                let n = hs.len();
                let mut i: usize = 0;
                loop
                    invariant
                        0 <= i <= n,
                        n == hs@.len(),
                        forall|j: int| 0 <= j < i ==> hs@[j]@.len() > 0,
                    ensures
                        i <= n,
                        i < n ==> hs@[i as int]@.len() == 0,
                        i == n ==> forall|j: int| 0 <= j < n ==> hs@[j]@.len() > 0,
                    decreases n - i,
                {
                    if i >= n {
                        break ;
                    }
                    if hs[i].as_str().is_empty() {
                        break ;
                    }
                    i = i + 1;
                }
                if i < n {
                    proof {
                        assert(hosts_view(self.config.allowed_hosts) matches Some(hs2) && hs2[
                            i as int
                        ].len() == 0);
                    }
                    return Err(
                        BuildError::CapabilityInit(
                            "allowed host entries must be non-empty".to_owned(),
                        ),
                    );
                }
                proof {
                    assert(hosts_view(self.config.allowed_hosts) matches Some(hs2) && forall|
                        j: int,
                    |
                        0 <= j < hs2.len() ==> (#[trigger] hs2[j]).len() > 0);
                }
            },
        }
        match linker_define_http_req(&mut self.linker) {
            Ok(()) => (),
            Err(msg) => {
                return Err(BuildError::CapabilityInit(msg));
            },
        }
        match linker_define_http_close(&mut self.linker) {
            Ok(()) => (),
            Err(msg) => {
                return Err(BuildError::CapabilityInit(msg));
            },
        }
        match linker_define_http_body_read(&mut self.linker) {
            Ok(()) => (),
            Err(msg) => {
                return Err(BuildError::CapabilityInit(msg));
            },
        }
        match linker_define_http_header_get(&mut self.linker) {
            Ok(()) => (),
            Err(msg) => {
                return Err(BuildError::CapabilityInit(msg));
            },
        }
        match linker_define_http_headers_all(&mut self.linker) {
            Ok(()) => (),
            Err(msg) => {
                return Err(BuildError::CapabilityInit(msg));
            },
        }
        Ok(())
    }

    /// Configures the default host interface implementations: the filesystem
    /// capability and the outbound-HTTP capability. On success both stand
    /// registered and the allow-list is valid; on a fresh link table the
    /// step succeeds exactly when the allow-list is valid.
    pub fn link_defaults(&mut self) -> (r: Result<(), BuildError>)
        ensures
            final(self).spec_config() == old(self).spec_config(),
            final(self).spec_engine() == old(self).spec_engine(),
            final(self).spec_linker_engine() == old(self).spec_linker_engine(),
            old(self).spec_linker_fresh() && old(self).spec_http_undefined() ==> (r is Ok
                <==> allow_list_ok(old(self).spec_config())),
            r is Ok ==> final(self).spec_wasi_linked() && final(self).spec_http_linked()
                && allow_list_ok(old(self).spec_config()),
            r matches Err(e) ==> e is CapabilityInit,
    {
        match self.link_wasi() {
            Ok(()) => self.link_wasi_http(),
            Err(e) => Err(e),
        }
    }

    /// Builds a new instance of the execution context: reads and compiles the
    /// module bytes from the configured source path, pre-instantiates them
    /// against the link table, and wraps the result with the shared engine. A
    /// compile failure names the component and the path it was read from.
    /// The link table must belong to the builder's engine; every constructor
    /// of this type couples them.
    pub fn build(self) -> (r: Result<ExecutionContext, BuildError>)
        requires
            self.spec_linker_engine() == self.spec_engine(),
        ensures
            r matches Ok(cx) ==> cx.spec_config() == self.spec_config() && cx.spec_engine()
                == self.spec_engine(),
            r matches Err(BuildError::Compile { id, path, cause }) ==> id@ == self.spec_config().id@
                && path@ == self.spec_config().source@,
            r matches Err(e) ==> (e is Compile || e is Preinstantiate),
    {
        let module = match module_from_file(&self.engine.0, &self.config.source) {
            Ok(m) => m,
            Err(msg) => {
                return Err(
                    BuildError::Compile {
                        id: self.config.id.clone(),
                        path: self.config.source.clone(),
                        cause: msg,
                    },
                );
            },
        };
        let component = match linker_instantiate_pre(&self.linker, &module) {
            Ok(c) => c,
            Err(msg) => {
                return Err(BuildError::Preinstantiate(msg));
            },
        };
        Ok(ExecutionContext { config: self.config, engine: self.engine, component })
    }

    /// Builds a new instance of the execution context from module bytes
    /// already held in memory, for embedders that do not read from a file.
    /// The link table must belong to the builder's engine; every constructor
    /// of this type couples them.
    pub fn build_from_bytes(self, bytes: &Vec<u8>) -> (r: Result<ExecutionContext, BuildError>)
        requires
            self.spec_linker_engine() == self.spec_engine(),
        ensures
            r matches Ok(cx) ==> cx.spec_config() == self.spec_config() && cx.spec_engine()
                == self.spec_engine(),
            r matches Err(BuildError::Compile { id, path, cause }) ==> id@ == self.spec_config().id@
                && path@ == self.spec_config().source@,
            r matches Err(e) ==> (e is Compile || e is Preinstantiate),
    {
        let module = match module_from_bytes(&self.engine.0, bytes) {
            Ok(m) => m,
            Err(msg) => {
                return Err(
                    BuildError::Compile {
                        id: self.config.id.clone(),
                        path: self.config.source.clone(),
                        cause: msg,
                    },
                );
            },
        };
        let component = match linker_instantiate_pre(&self.linker, &module) {
            Ok(c) => c,
            Err(msg) => {
                return Err(BuildError::Preinstantiate(msg));
            },
        };
        Ok(ExecutionContext { config: self.config, engine: self.engine, component })
    }

    /// Builds a new default instance of the execution context: a fresh
    /// engine with the mandatory prerequisites, default capability links,
    /// then the build step.
    pub fn build_default(config: ExecutionContextConfiguration) -> (r: Result<
        ExecutionContext,
        BuildError,
    >)
        ensures
            r matches Ok(cx) ==> cx.spec_config() == config && allow_list_ok(config)
                && abi_prerequisites(cx.spec_engine()),
            r matches Err(BuildError::Compile { id, path, cause }) ==> id@ == config.id@ && path@
                == config.source@,
            allow_list_ok(config) ==> !(r matches Err(e) && e is CapabilityInit),
            r matches Err(e) ==> (e is EngineInit || e is CapabilityInit || e is Compile
                || e is Preinstantiate),
    {
        let mut builder = match Self::new(config) {
            Ok(b) => b,
            Err(e) => {
                return Err(e);
            },
        };
        match builder.link_defaults() {
            Ok(()) => (),
            Err(e) => {
                return Err(e);
            },
        }
        builder.build()
    }
}

/// An execution context for one component: owns the shared engine handle and
/// the pre-linked instantiation template. Immutable and reusable
/// indefinitely; [`ExecutionContext::prepare`] only reads it.
pub struct ExecutionContext {
    config: ExecutionContextConfiguration,
    engine: HostEngine,
    component: wasmtime::InstancePre<RuntimeContext>,
}

impl ExecutionContext {
    #[verifier::type_invariant]
    spec fn wf(self) -> bool {
        pre_engine(self.component) == self.engine.spec_inner()
    }

    /// The configuration the context was built from.
    pub closed spec fn spec_config(self) -> ExecutionContextConfiguration {
        self.config
    }

    /// The engine the context runs on.
    pub closed spec fn spec_engine(self) -> wasmtime::Engine {
        self.engine.spec_inner()
    }

    /// Read access to the configuration the context was built from.
    pub fn config(&self) -> (c: &ExecutionContextConfiguration)
        ensures
            *c == self.spec_config(),
    {
        &self.config
    }

    /// A fresh outbound-HTTP gate for one invocation, configured with the
    /// context's allow-list and concurrency ceiling, with nothing in flight.
    pub fn fresh_gate(&self) -> (g: HttpGate)
        ensures
            g.hosts() == hosts_view(self.spec_config().allowed_hosts),
            g.ceiling() == self.spec_config().max_concurrent_requests,
            g.in_flight() == 0,
    {
        HttpGate::new(
            clone_hosts(&self.config.allowed_hosts),
            self.config.max_concurrent_requests,
        )
    }

    /// Creates a fresh, isolated invocation state: reopens the task and temp
    /// directories (independent descriptors per call, nothing cached), builds
    /// a fresh WASI context inheriting host stdio, arguments and environment
    /// with the task directory at `/var/task` and the temp directory at
    /// `/tmp`, builds a fresh outbound-HTTP gate, assembles them with the
    /// caller-supplied data into a new runtime context, and instantiates the
    /// pre-linked template against a new store owning it. On success the
    /// returned store carries exactly that state: the configured gate with
    /// nothing in flight, the caller's data slot, the two preopens in order,
    /// and all three host inherits. The context itself is not mutated. Fails
    /// if a directory cannot be opened or if instantiation traps.
    pub fn prepare(&self, data: Option<LambdaData>) -> (r: Result<
        (wasmtime::Store<RuntimeContext>, wasmtime::Instance),
        PrepareError,
    >)
        ensures
            r matches Ok(p) ==> {
                &&& instance_in_store(p.1, p.0)
                &&& store_synchronous(p.0)
                &&& store_gate_hosts(p.0) == hosts_view(self.spec_config().allowed_hosts)
                &&& store_gate_ceiling(p.0) == self.spec_config().max_concurrent_requests
                &&& store_gate_in_flight(p.0) == 0
                &&& store_has_data(p.0) == (data is Some)
                &&& store_preopens(p.0) == seq![
                    (self.spec_config().task_directory@, "/var/task"@),
                    (self.spec_config().temp_directory@, "/tmp"@),
                ]
                &&& store_inherits(p.0) == (true, true, true)
            },
            r matches Err(e) ==> (e is DirectoryOpen || e is Instantiate),
    {
        proof {
            use_type_invariant(&*self);
            use_type_invariant(&self.engine);
        }
        let mut builder = wasi_builder_new();
        wasi_inherit_stdio(&mut builder);
        wasi_inherit_args(&mut builder);
        wasi_inherit_env(&mut builder);
        match wasi_preopened_dir(&mut builder, &self.config.task_directory, "/var/task") {
            Ok(()) => (),
            Err(msg) => {
                return Err(PrepareError::DirectoryOpen(msg));
            },
        }
        match wasi_preopened_dir(&mut builder, &self.config.temp_directory, "/tmp") {
            Ok(()) => (),
            Err(msg) => {
                return Err(PrepareError::DirectoryOpen(msg));
            },
        }
        proof {
            assert(builder_preopens(builder) =~= seq![
                (self.spec_config().task_directory@, "/var/task"@),
                (self.spec_config().temp_directory@, "/tmp"@),
            ]);
        }
        let wasi = wasi_build_p1(builder);
        let ctx = RuntimeContext { wasi, http: self.fresh_gate(), data };
        let mut store = store_new(&self.engine.0, ctx);
        match instance_pre_instantiate(&self.component, &mut store) {
            Ok(instance) => Ok((store, instance)),
            Err(msg) => Err(PrepareError::Instantiate(msg)),
        }
    }
}

/// A copy of an optional allow-list whose view is unchanged.
fn clone_hosts(hosts: &Option<Vec<String>>) -> (r: Option<Vec<String>>)
    ensures
        hosts_view(r) == hosts_view(*hosts),
{
    match hosts {
        None => None,
        Some(v) => {
            let n = v.len();
            let mut out: Vec<String> = Vec::new();
            let mut i: usize = 0;
            while i < n
                invariant
                    0 <= i <= n,
                    n == v@.len(),
                    out@.len() == i,
                    forall|j: int| 0 <= j < i ==> #[trigger] out@[j]@ == v@[j]@,
                decreases n - i,
            {
                out.push(v[i].clone());
                i = i + 1;
            }
            proof {
                assert(hosts_view(Some(out)) matches Some(a) && hosts_view(*hosts) matches Some(b)
                    && a =~~= b);
            }
            Some(out)
        },
    }
}

} // verus!
