//! Declarations of the outside types that the runtime works with.
//!
//! The execution engine, its stores, modules and typed guest functions, and the
//! WASI capability context are all opaque to the verifier; declaring them here
//! lets them stand in signatures and fields of the library's own types.

use vstd::prelude::*;

verus! {

#[verifier::external_type_specification]
#[verifier::external_body]
pub struct ExConfig(wasmtime::Config);

#[verifier::external_type_specification]
#[verifier::external_body]
pub struct ExWasmtimeEngine(wasmtime::Engine);

#[verifier::external_type_specification]
#[verifier::external_body]
#[verifier::reject_recursive_types(T)]
pub struct ExStore<T: 'static>(wasmtime::Store<T>);

#[verifier::external_type_specification]
#[verifier::external_body]
#[verifier::reject_recursive_types(T)]
pub struct ExLinker<T>(wasmtime::Linker<T>);

#[verifier::external_type_specification]
#[verifier::external_body]
pub struct ExModule(wasmtime::Module);

#[verifier::external_type_specification]
#[verifier::external_body]
#[verifier::reject_recursive_types(T)]
pub struct ExInstancePre<T>(wasmtime::InstancePre<T>);

#[verifier::external_type_specification]
#[verifier::external_body]
pub struct ExInstance(wasmtime::Instance);

#[verifier::external_type_specification]
#[verifier::external_body]
pub struct ExMemory(wasmtime::Memory);

#[verifier::external_type_specification]
#[verifier::external_body]
#[verifier::reject_recursive_types(Params)]
#[verifier::reject_recursive_types(Results)]
pub struct ExTypedFunc<Params, Results>(wasmtime::TypedFunc<Params, Results>);

#[verifier::external_type_specification]
#[verifier::external_body]
pub struct ExWasiP1Ctx(wasmtime_wasi::preview1::WasiP1Ctx);

#[verifier::external_type_specification]
#[verifier::external_body]
pub struct ExWasiCtxBuilder(wasmtime_wasi::p2::WasiCtxBuilder);

} // verus!
