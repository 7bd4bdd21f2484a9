//! The canonical ABI marshaler.
//!
//! [`Lambda`] owns one prepared invocation: the store, the guest's linear
//! memory and its three canonical exports (a realloc-shaped allocator, a
//! free-shaped deallocator and the five-argument `handler`). Its
//! [`Lambda::handler`] lifts the event and the optional context into guest
//! memory, invokes the guest export, and lowers the tagged result record back
//! into host values, returning ownership of the guest's payload buffer through
//! the deallocator. Every access to guest memory is bounds-checked; a record
//! that points outside memory is a decode fault, never undefined behavior.

use vstd::prelude::*;
use vstd::string::StringSliceAdditionalSpecFns;
use vstd::utf8::{decode_utf8, valid_utf8};

use crate::codec::{
    decode_failure_tag, le32, le_u32_at, lemma_overwrite_then_read, overwritten,
    spec_decode_record, string_from_utf8,
};
use crate::engine::{
    instance_in_store, linker_engine, linker_instantiate, module_engine, store_engine,
    store_synchronous, RuntimeContext,
};
use crate::error::{BuildError, Error, HostFault};

verus! {

/// Auxiliary per-invocation data associated with the wasm exports; stored in
/// the invocation's runtime context so a handler can carry host-side state.
#[derive(Default)]
pub struct LambdaData {}

/// One prepared invocation of a guest handler under the canonical calling
/// convention: the invocation's store together with the guest's linear memory
/// and its canonical exports. Used by exactly one invocation at a time.
#[verifier::external_body]
pub struct Lambda {
    store: wasmtime::Store<RuntimeContext>,
    memory: wasmtime::Memory,
    canonical_abi_realloc: wasmtime::TypedFunc<(i32, i32, i32, i32), i32>,
    canonical_abi_free: wasmtime::TypedFunc<(i32, i32, i32), ()>,
    handler: wasmtime::TypedFunc<(i32, i32, i32, i32, i32), (i32,)>,
}

/// The current contents of the guest's linear memory inside a [`Lambda`].
pub uninterp spec fn guest_mem(lambda: Lambda) -> Seq<u8>;

/// The pointer/length pairs the host has handed to the guest's deallocator
/// through this marshaler, in call order.
pub uninterp spec fn free_calls(lambda: Lambda) -> Seq<(int, int)>;

/// Whether the instance exports a realloc-shaped function
/// `(i32, i32, i32, i32) -> i32` under the given name.
pub uninterp spec fn has_realloc_export(instance: wasmtime::Instance, name: Seq<char>) -> bool;

/// Whether the instance exports a free-shaped function
/// `(i32, i32, i32) -> ()` under the given name.
pub uninterp spec fn has_free_export(instance: wasmtime::Instance, name: Seq<char>) -> bool;

/// Whether the instance exports a five-argument handler
/// `(i32, i32, i32, i32, i32) -> i32` under the given name.
pub uninterp spec fn has_handler_export(instance: wasmtime::Instance, name: Seq<char>) -> bool;

/// Whether the instance exports a linear memory under the given name.
pub uninterp spec fn has_memory_export(instance: wasmtime::Instance, name: Seq<char>) -> bool;

/// Relies on `Instance::get_typed_func` for the realloc-shaped allocator
/// export: succeeds exactly when the instance exports it under that name with
/// that type, and fails naming the export otherwise. Nothing of the guest
/// runs.
#[verifier::external_body]
fn get_typed_realloc(
    store: &mut wasmtime::Store<RuntimeContext>,
    instance: &wasmtime::Instance,
    name: &str,
) -> (r: Result<wasmtime::TypedFunc<(i32, i32, i32, i32), i32>, BuildError>)
    requires
        instance_in_store(*instance, *old(store)),
    ensures
        instance_in_store(*instance, *final(store)),
        store_synchronous(*final(store)) == store_synchronous(*old(store)),
        r is Ok <==> has_realloc_export(*instance, name@),
        r matches Err(e) ==> e is MissingExport,
{
    instance
        .get_typed_func::<(i32, i32, i32, i32), i32>(&mut *store, name)
        .map_err(|e| BuildError::MissingExport(format!("{e:#}")))
}

/// Relies on `Instance::get_typed_func` for the free-shaped deallocator
/// export: succeeds exactly when the instance exports it under that name with
/// that type, and fails naming the export otherwise.
#[verifier::external_body]
fn get_typed_free(
    store: &mut wasmtime::Store<RuntimeContext>,
    instance: &wasmtime::Instance,
    name: &str,
) -> (r: Result<wasmtime::TypedFunc<(i32, i32, i32), ()>, BuildError>)
    requires
        instance_in_store(*instance, *old(store)),
    ensures
        instance_in_store(*instance, *final(store)),
        store_synchronous(*final(store)) == store_synchronous(*old(store)),
        r is Ok <==> has_free_export(*instance, name@),
        r matches Err(e) ==> e is MissingExport,
{
    instance
        .get_typed_func::<(i32, i32, i32), ()>(&mut *store, name)
        .map_err(|e| BuildError::MissingExport(format!("{e:#}")))
}

/// Relies on `Instance::get_typed_func` for the five-argument handler
/// export: succeeds exactly when the instance exports it under that name with
/// that type, and fails naming the export otherwise.
#[verifier::external_body]
fn get_typed_handler(
    store: &mut wasmtime::Store<RuntimeContext>,
    instance: &wasmtime::Instance,
    name: &str,
) -> (r: Result<wasmtime::TypedFunc<(i32, i32, i32, i32, i32), (i32,)>, BuildError>)
    requires
        instance_in_store(*instance, *old(store)),
    ensures
        instance_in_store(*instance, *final(store)),
        store_synchronous(*final(store)) == store_synchronous(*old(store)),
        r is Ok <==> has_handler_export(*instance, name@),
        r matches Err(e) ==> e is MissingExport,
{
    instance
        .get_typed_func::<(i32, i32, i32, i32, i32), (i32,)>(&mut *store, name)
        .map_err(|e| BuildError::MissingExport(format!("{e:#}")))
}

/// Relies on `Instance::get_memory`: succeeds exactly when the instance
/// exports a linear memory under the given name; anything else is a
/// missing-export error.
#[verifier::external_body]
pub(crate) fn get_export_memory(
    store: &mut wasmtime::Store<RuntimeContext>,
    instance: &wasmtime::Instance,
    name: &str,
) -> (r: Result<wasmtime::Memory, BuildError>)
    requires
        instance_in_store(*instance, *old(store)),
    ensures
        instance_in_store(*instance, *final(store)),
        store_synchronous(*final(store)) == store_synchronous(*old(store)),
        r is Ok <==> has_memory_export(*instance, name@),
        r matches Err(e) ==> e is MissingExport,
{
    match instance.get_memory(&mut *store, name) {
        Some(m) => Ok(m),
        None => Err(BuildError::MissingExport(format!("`{name}` export not a memory"))),
    }
}

/// Bundles one invocation's store, its memory and its canonical exports into
/// the opaque marshaler value; no outside call is made, so no deallocator
/// call is on record yet. The store must be synchronous, so that the typed
/// guest calls made through this value never hit the engine's asynchrony
/// assertions.
#[verifier::external_body]
fn assemble_lambda(
    store: wasmtime::Store<RuntimeContext>,
    memory: wasmtime::Memory,
    canonical_abi_realloc: wasmtime::TypedFunc<(i32, i32, i32, i32), i32>,
    canonical_abi_free: wasmtime::TypedFunc<(i32, i32, i32), ()>,
    handler: wasmtime::TypedFunc<(i32, i32, i32, i32, i32), (i32,)>,
) -> (r: Lambda)
    requires
        store_synchronous(store),
    ensures
        free_calls(r) == Seq::<(int, int)>::empty(),
{
    Lambda { store, memory, canonical_abi_realloc, canonical_abi_free, handler }
}

impl Lambda {
    /// Adds any intrinsics needed for these exports to the linker; the
    /// canonical convention needs none, so it always succeeds and the link
    /// table is left unchanged.
    pub fn add_to_linker(_linker: &mut wasmtime::Linker<RuntimeContext>) -> (r: Result<
        (),
        BuildError,
    >)
        ensures
            r is Ok,
            *final(_linker) == *old(_linker),
    {
        Ok(())
    }

    /// Instantiate `module` through `linker` within the given synchronous
    /// store — all three of one engine — and wrap up the canonical exports,
    /// returning the marshaler together with the instance. Instantiation
    /// failures (an unresolved import, a trapping start section) are
    /// pre-instantiation errors; a missing canonical export is named.
    pub fn instantiate(
        store: wasmtime::Store<RuntimeContext>,
        module: &wasmtime::Module,
        linker: &wasmtime::Linker<RuntimeContext>,
    ) -> (r: Result<(Lambda, wasmtime::Instance), BuildError>)
        requires
            store_synchronous(store),
            store_engine(store) == linker_engine(*linker),
            module_engine(*module) == linker_engine(*linker),
        ensures
            r matches Err(e) ==> (e is Preinstantiate || e is MissingExport),
    {
        let mut store = store;
        let instance = match linker_instantiate(linker, &mut store, module) {
            Ok(i) => i,
            Err(msg) => {
                return Err(BuildError::Preinstantiate(msg));
            },
        };
        match Lambda::new(store, &instance) {
            Ok(lambda) => Ok((lambda, instance)),
            Err(e) => Err(e),
        }
    }

    /// Wrap up the canonical exports of `instance`, which must live in the
    /// given synchronous `store` (as [`crate::engine::ExecutionContext::prepare`]
    /// returns them), taking ownership of the store for the invocation.
    /// Succeeds exactly when the instance exports the canonical triple and a
    /// linear memory under their conventional names; missing any of them is a
    /// fatal instantiation-time error naming the export, not a per-call
    /// error.
    pub fn new(store: wasmtime::Store<RuntimeContext>, instance: &wasmtime::Instance) -> (r:
        Result<Lambda, BuildError>)
        requires
            instance_in_store(*instance, store),
            store_synchronous(store),
        ensures
            r is Ok <==> {
                &&& has_realloc_export(*instance, "canonical_abi_realloc"@)
                &&& has_free_export(*instance, "canonical_abi_free"@)
                &&& has_handler_export(*instance, "handler"@)
                &&& has_memory_export(*instance, "memory"@)
            },
            r matches Ok(lambda) ==> free_calls(lambda) == Seq::<(int, int)>::empty(),
            r matches Err(e) ==> e is MissingExport,
    {
        let mut store = store;
        let realloc = match get_typed_realloc(&mut store, instance, "canonical_abi_realloc") {
            Ok(f) => f,
            Err(e) => {
                return Err(e);
            },
        };
        let free = match get_typed_free(&mut store, instance, "canonical_abi_free") {
            Ok(f) => f,
            Err(e) => {
                return Err(e);
            },
        };
        let handler = match get_typed_handler(&mut store, instance, "handler") {
            Ok(f) => f,
            Err(e) => {
                return Err(e);
            },
        };
        let memory = match get_export_memory(&mut store, instance, "memory") {
            Ok(m) => m,
            Err(e) => {
                return Err(e);
            },
        };
        Ok(assemble_lambda(store, memory, realloc, free, handler))
    }

    /// Relies on `Memory::read`: succeeds exactly when the range lies within
    /// the current memory size, returning a copy of those bytes; on failure
    /// nothing is read. Reading does not change the memory.
    #[verifier::external_body]
    fn mem_read(&self, offset: usize, len: usize) -> (r: Result<Vec<u8>, HostFault>)
        ensures
            r is Ok <==> offset + len <= guest_mem(*self).len(),
            r matches Ok(v) ==> v@ == guest_mem(*self).subrange(
                offset as int,
                offset as int + len as int,
            ),
            r matches Err(f) ==> f is OutOfBounds,
    {
        let mut buf = vec![0u8; len];
        match self.memory.read(&self.store, offset, &mut buf) {
            Ok(()) => Ok(buf),
            Err(_) => Err(HostFault::OutOfBounds),
        }
    }

    /// Relies on `Memory::write`: succeeds exactly when the range lies within
    /// the current memory size, overwriting those bytes and nothing else; on
    /// failure the memory is untouched.
    #[verifier::external_body]
    fn mem_write(&mut self, offset: usize, data: &[u8]) -> (r: Result<(), HostFault>)
        ensures
            r is Ok <==> offset + data@.len() <= guest_mem(*old(self)).len(),
            r matches Ok(v) ==> guest_mem(*final(self)) == overwritten(
                guest_mem(*old(self)),
                offset as int,
                data@,
            ),
            r matches Err(f) ==> f is OutOfBounds && guest_mem(*final(self)) == guest_mem(
                *old(self),
            ),
            free_calls(*final(self)) == free_calls(*old(self)),
    {
        match self.memory.write(&mut self.store, offset, data) {
            Ok(()) => Ok(()),
            Err(_) => Err(HostFault::OutOfBounds),
        }
    }

    /// Relies on `Memory::data_size` for the current size of the guest's
    /// linear memory in bytes.
    #[verifier::external_body]
    fn mem_size(&self) -> (n: usize)
        ensures
            n == guest_mem(*self).len(),
    {
        self.memory.data_size(&self.store)
    }

    /// Relies on `TypedFunc::call` of the guest's realloc-shaped allocator
    /// export; the call is synchronous by construction (see
    /// [`crate::engine::HostEngine::new`]). The guest is untrusted, so
    /// nothing is assumed of the returned pointer, and running guest code may
    /// change the memory arbitrarily; the deallocator is not invoked; a trap
    /// is reported with its message.
    #[verifier::external_body]
    fn call_realloc(&mut self, old_ptr: i32, old_size: i32, align: i32, new_size: i32) -> (r:
        Result<i32, HostFault>)
        ensures
            free_calls(*final(self)) == free_calls(*old(self)),
            r matches Err(f) ==> f is Trap,
    {
        self.canonical_abi_realloc
            .call(&mut self.store, (old_ptr, old_size, align, new_size))
            .map_err(|e| HostFault::Trap(format!("{e:#}")))
    }

    /// Relies on `TypedFunc::call` of the guest's free-shaped deallocator
    /// export, handing ownership of the guest buffer at the given
    /// pointer/length back for reclamation and recording the call; the call
    /// is synchronous by construction. Nothing is assumed of the guest's
    /// behavior; a trap is reported with its message.
    #[verifier::external_body]
    fn call_free(&mut self, ptr: u32, len: u32, align: u32) -> (r: Result<(), HostFault>)
        ensures
            free_calls(*final(self)) == free_calls(*old(self)).push((ptr as int, len as int)),
            r matches Err(f) ==> f is Trap,
    {
        self.canonical_abi_free
            .call(&mut self.store, (ptr as i32, len as i32, align as i32))
            .map_err(|e| HostFault::Trap(format!("{e:#}")))
    }

    /// Relies on `TypedFunc::call` of the guest's `handler` export under the
    /// five-argument calling convention; returns the guest pointer of the
    /// result record; the call is synchronous by construction. The guest is
    /// untrusted, so nothing is assumed of the pointer or of the memory
    /// afterwards; the deallocator is not invoked; a trap is reported with
    /// its message.
    #[verifier::external_body]
    fn call_handler_export(
        &mut self,
        event_ptr: i32,
        event_len: i32,
        context_flag: i32,
        context_ptr: i32,
        context_len: i32,
    ) -> (r: Result<i32, HostFault>)
        ensures
            free_calls(*final(self)) == free_calls(*old(self)),
            r matches Err(f) ==> f is Trap,
    {
        self.handler
            .call(
                &mut self.store,
                (event_ptr, event_len, context_flag, context_ptr, context_len),
            )
            .map(|t| t.0)
            .map_err(|e| HostFault::Trap(format!("{e:#}")))
    }

    /// Read `len` bytes of guest memory at `ptr`. Succeeds exactly when the
    /// range lies within the current memory size.
    pub fn read_guest_range(&self, ptr: u32, len: u32) -> (r: Result<Vec<u8>, HostFault>)
        ensures
            r is Ok <==> ptr + len <= guest_mem(*self).len(),
            r matches Ok(v) ==> v@ == guest_mem(*self).subrange(
                ptr as int,
                ptr as int + len as int,
            ),
            r matches Err(f) ==> f is OutOfBounds,
    {
        self.mem_read(ptr as usize, len as usize)
    }

    /// Lower one string into guest memory: request a guest buffer of exactly
    /// its byte length from the allocator and copy the UTF-8 bytes there. On
    /// success the returned pointer is non-negative, the returned length is
    /// the byte length, and guest memory holds the string's bytes at exactly
    /// that range.
    pub fn lower_string(&mut self, s: &str) -> (r: Result<(i32, i32), HostFault>)
        requires
            s.spec_bytes().len() <= i32::MAX,
        ensures
            r matches Ok(pl) ==> {
                &&& pl.0 >= 0
                &&& pl.1 == s.spec_bytes().len()
                &&& pl.0 + pl.1 <= guest_mem(*final(self)).len()
                &&& guest_mem(*final(self)).subrange(pl.0 as int, pl.0 + pl.1) == s.spec_bytes()
            },
            r matches Err(f) ==> (f is Trap || f is OutOfBounds),
    {
        let bytes = s.as_bytes();
        let n = bytes.len();
        let ptr = match self.call_realloc(0, 0, 1, n as i32) {
            Ok(p) => p,
            Err(f) => {
                return Err(f);
            },
        };
        if ptr < 0 {
            return Err(HostFault::OutOfBounds);
        }
        let ghost pre_write = *self;
        match self.mem_write(ptr as usize, bytes) {
            Ok(()) => (),
            Err(f) => {
                return Err(f);
            },
        }
        proof {
            lemma_overwrite_then_read(guest_mem(pre_write), ptr as int, bytes@);
        }
        Ok((ptr, n as i32))
    }

    /// Lower the optional context. When the context is absent, no guest call
    /// is made and the triple handed to the guest is flag 0, pointer 0,
    /// length 0; when present, the flag is 1 and guest memory holds the
    /// context's bytes at the returned range.
    pub fn lower_context(&mut self, context: Option<&str>) -> (r: Result<
        (i32, i32, i32),
        HostFault,
    >)
        requires
            context matches Some(c) ==> c.spec_bytes().len() <= i32::MAX,
        ensures
            context is None ==> r == Ok::<(i32, i32, i32), HostFault>((0i32, 0i32, 0i32))
                && *final(self) == *old(self),
            context matches Some(c) ==> (r matches Ok(t) ==> {
                &&& t.0 == 1
                &&& t.1 >= 0
                &&& t.2 == c.spec_bytes().len()
                &&& t.1 + t.2 <= guest_mem(*final(self)).len()
                &&& guest_mem(*final(self)).subrange(t.1 as int, t.1 + t.2) == c.spec_bytes()
            }),
            r matches Err(f) ==> (f is Trap || f is OutOfBounds),
    {
        match context {
            None => Ok((0, 0, 0)),
            Some(c) => {
                let (ptr, len) = match self.lower_string(c) {
                    Ok(pl) => pl,
                    Err(f) => {
                        return Err(f);
                    },
                };
                Ok((1, ptr, len))
            },
        }
    }

    /// Decode the guest's tagged result record at `result_ptr`, as
    /// [`spec_decode_record`] states it: on a success record the payload
    /// bytes are copied out of guest memory, the guest buffer is handed back
    /// to the deallocator, and the bytes are validated as UTF-8 (invalid
    /// UTF-8 is a fault, never silently replaced); on a failure record the
    /// error tag is mapped to the guest-signaled error; out-of-range fields
    /// and unknown discriminants or tags are faults. The deallocator is
    /// handed the record's pointer/length pair exactly once, after the copy,
    /// on the in-bounds success path, and never on any other path; it may
    /// trap, which is the one departure a trap fault may introduce.
    pub fn decode_result(&mut self, result_ptr: i32) -> (r: Result<Result<String, Error>, HostFault>)
        ensures
            ({
                let m = guest_mem(*old(self));
                let d = spec_decode_record(m, result_ptr as int);
                &&& (d matches Err(f) ==> r == Err::<Result<String, Error>, HostFault>(f)
                    && free_calls(*final(self)) == free_calls(*old(self)))
                &&& (d matches Ok(Err(e)) ==> r == Ok::<Result<String, Error>, HostFault>(Err(e))
                    && free_calls(*final(self)) == free_calls(*old(self)))
                &&& (d matches Ok(Ok(payload)) ==> {
                    &&& free_calls(*final(self)) == free_calls(*old(self)).push(
                        (
                            le32(m.subrange(result_ptr + 4, result_ptr + 8)),
                            le32(m.subrange(result_ptr + 8, result_ptr + 12)),
                        ),
                    )
                    &&& (valid_utf8(payload) ==> ((r matches Ok(Ok(s)) && s@ == decode_utf8(
                        payload,
                    )) || (r matches Err(f) && f is Trap)))
                    &&& (!valid_utf8(payload) ==> (r matches Err(f) && (f is InvalidUtf8
                        || f is Trap)))
                })
            }),
    {
        if result_ptr < 0 {
            return Err(HostFault::OutOfBounds);
        }
        let at = result_ptr as usize;
        let msize = self.mem_size();
        let disc_bytes = match self.mem_read(at, 1) {
            Ok(v) => v,
            Err(f) => {
                return Err(f);
            },
        };
        let disc = disc_bytes[0];
        if disc == 0 {
            if msize < 12 || at > msize - 12 {
                return Err(HostFault::OutOfBounds);
            }
            let hdr = match self.mem_read(at + 4, 8) {
                Ok(v) => v,
                Err(f) => {
                    return Err(f);
                },
            };
            let p = le_u32_at(&hdr, 0);
            let l = le_u32_at(&hdr, 4);
            proof {
                assert(hdr@.subrange(0, 4) =~= guest_mem(*self).subrange(
                    at + 4,
                    at + 8,
                ));
                assert(hdr@.subrange(4, 8) =~= guest_mem(*self).subrange(
                    at + 8,
                    at + 12,
                ));
            }
            let pu = p as usize;
            let lu = l as usize;
            if lu > msize || pu > msize - lu {
                return Err(HostFault::OutOfBounds);
            }
            let payload = match self.mem_read(pu, lu) {
                Ok(v) => v,
                Err(f) => {
                    return Err(f);
                },
            };
            match self.call_free(p, l, 1) {
                Ok(()) => (),
                Err(f) => {
                    return Err(f);
                },
            }
            match string_from_utf8(payload) {
                Ok(s) => Ok(Ok(s)),
                Err(f) => Err(f),
            }
        } else if disc == 1 {
            if msize < 5 || at > msize - 5 {
                return Err(HostFault::OutOfBounds);
            }
            let tag_bytes = match self.mem_read(at + 4, 1) {
                Ok(v) => v,
                Err(f) => {
                    return Err(f);
                },
            };
            match decode_failure_tag(tag_bytes[0]) {
                Ok(e) => Ok(Err(e)),
                Err(f) => Err(f),
            }
        } else {
            Err(HostFault::InvalidVariant)
        }
    }

    /// Invoke the guest's exported handler on one event and optional context:
    /// lower both into guest memory, call the export, and decode the tagged
    /// result record it returns. A success output is always the UTF-8 decode
    /// of payload bytes the guest produced; a guest-signaled failure comes
    /// back as the ordinary result, and traps and malformed records as
    /// faults.
    pub fn handler(&mut self, event: &str, context: Option<&str>) -> (r: Result<
        Result<String, Error>,
        HostFault,
    >)
        requires
            event.spec_bytes().len() <= i32::MAX,
            context matches Some(c) ==> c.spec_bytes().len() <= i32::MAX,
        ensures
            r matches Ok(Ok(out)) ==> exists|payload: Seq<u8>|
                valid_utf8(payload) && out@ == decode_utf8(payload),
    {
        let (event_ptr, event_len) = match self.lower_string(event) {
            Ok(pl) => pl,
            Err(f) => {
                return Err(f);
            },
        };
        let (context_flag, context_ptr, context_len) = match self.lower_context(context) {
            Ok(t) => t,
            Err(f) => {
                return Err(f);
            },
        };
        let result_ptr = match self.call_handler_export(
            event_ptr,
            event_len,
            context_flag,
            context_ptr,
            context_len,
        ) {
            Ok(p) => p,
            Err(f) => {
                return Err(f);
            },
        };
        self.decode_result(result_ptr)
    }
}

} // verus!
