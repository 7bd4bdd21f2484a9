//! Host-side core of a WebAssembly serverless runtime.
//!
//! A compiled guest module is turned, once, into a reusable [`engine::ExecutionContext`];
//! each incoming event then gets a fresh, isolated instance via
//! [`engine::ExecutionContext::prepare`], and the ABI marshaler ([`abi::Lambda`], or the
//! legacy [`raw_abi::RawLambda`]) lifts the event into guest memory, invokes the guest's
//! exported handler and lowers its tagged result back into host values.

pub mod external;

pub mod error;

pub mod codec;

pub mod gate;

pub mod abi;

pub mod config;

pub mod engine;

pub mod raw_abi;
