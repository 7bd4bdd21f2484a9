//! The legacy raw-pointer ABI marshaler.
//!
//! Some guest modules predate the canonical tagged-union convention: they
//! export `alloc(size)`, `dealloc(ptr)` and an entry point that takes a raw
//! pointer/length pair for the event payload alone. The host copies the event
//! into guest memory via `alloc`, invokes the entry point, and reads the
//! returned pointer as a null-terminated byte string. This convention has
//! weaker guarantees: there is no explicit length, no structured context and
//! no structured error channel — a guest failure is indistinguishable from
//! success unless the guest encodes its own error convention inside the
//! string.

use vstd::prelude::*;
use vstd::string::StringSliceAdditionalSpecFns;
use vstd::utf8::{decode_utf8, valid_utf8};

use crate::abi::{has_memory_export, Lambda};
use crate::codec::{lemma_overwrite_then_read, overwritten, string_from_utf8};
use crate::engine::{instance_in_store, store_synchronous, RuntimeContext};
use crate::error::{BuildError, Error, HostFault};

verus! {

/// One prepared invocation of a guest under the legacy raw convention.
#[verifier::external_body]
pub struct RawLambda {
    store: wasmtime::Store<RuntimeContext>,
    memory: wasmtime::Memory,
    alloc: wasmtime::TypedFunc<(i32,), i32>,
    dealloc: wasmtime::TypedFunc<(i32,), ()>,
    entry: wasmtime::TypedFunc<(i32, i32), (i32,)>,
}

/// The current contents of the guest's linear memory inside a [`RawLambda`].
pub uninterp spec fn raw_guest_mem(lambda: RawLambda) -> Seq<u8>;

/// `v` is exactly the null-terminated byte string at `at` in `m`: its bytes
/// stand there unchanged, none of them is NUL, and a NUL follows them.
pub open spec fn cstr_at(m: Seq<u8>, at: int, v: Seq<u8>) -> bool {
    &&& 0 <= at
    &&& at + v.len() < m.len()
    &&& forall|i: int| 0 <= i < v.len() ==> m[at + i] == v[i] && #[trigger] v[i] != 0
    &&& m[at + v.len()] == 0
}

/// Whether any NUL byte stands at or after `at` in `m`.
pub open spec fn has_nul_from(m: Seq<u8>, at: int) -> bool {
    exists|j: int| at <= j < m.len() && m[j] == 0
}

/// The null-terminated byte string at a position is unique: two strings that
/// both satisfy [`cstr_at`] there are the same.
pub proof fn lemma_cstr_unique(m: Seq<u8>, at: int, v1: Seq<u8>, v2: Seq<u8>)
    requires
        cstr_at(m, at, v1),
        cstr_at(m, at, v2),
    ensures
        v1 == v2,
{
    if v1.len() < v2.len() {
        assert(v2[v1.len() as int] != 0);
        assert(m[at + v1.len()] == v2[v1.len() as int]);
        assert(m[at + v1.len()] == 0);
    } else if v2.len() < v1.len() {
        assert(v1[v2.len() as int] != 0);
        assert(m[at + v2.len()] == v1[v2.len() as int]);
        assert(m[at + v2.len()] == 0);
    } else {
        assert forall|i: int| 0 <= i < v1.len() implies v1[i] == v2[i] by {
            assert(m[at + i] == v1[i]);
            assert(m[at + i] == v2[i]);
        }
        assert(v1 =~= v2);
    }
}

/// Whether the instance exports an alloc-shaped function `(i32) -> i32`
/// under the given name.
pub uninterp spec fn has_alloc_export(instance: wasmtime::Instance, name: Seq<char>) -> bool;

/// Whether the instance exports a dealloc-shaped function `(i32) -> ()`
/// under the given name.
pub uninterp spec fn has_dealloc_export(instance: wasmtime::Instance, name: Seq<char>) -> bool;

/// Whether the instance exports a raw entry point `(i32, i32) -> i32` under
/// the given name.
pub uninterp spec fn has_entry_export(instance: wasmtime::Instance, name: Seq<char>) -> bool;

/// Relies on `Instance::get_typed_func` for the legacy `alloc` export:
/// succeeds exactly when the instance exports it under that name with that
/// type, and fails naming the export otherwise. Nothing of the guest runs.
#[verifier::external_body]
fn get_typed_alloc(
    store: &mut wasmtime::Store<RuntimeContext>,
    instance: &wasmtime::Instance,
    name: &str,
) -> (r: Result<wasmtime::TypedFunc<(i32,), i32>, BuildError>)
    requires
        instance_in_store(*instance, *old(store)),
    ensures
        instance_in_store(*instance, *final(store)),
        store_synchronous(*final(store)) == store_synchronous(*old(store)),
        r is Ok <==> has_alloc_export(*instance, name@),
        r matches Err(e) ==> e is MissingExport,
{
    instance
        .get_typed_func::<(i32,), i32>(&mut *store, name)
        .map_err(|e| BuildError::MissingExport(format!("{e:#}")))
}

/// Relies on `Instance::get_typed_func` for the legacy `dealloc` export:
/// succeeds exactly when the instance exports it under that name with that
/// type, and fails naming the export otherwise.
#[verifier::external_body]
fn get_typed_dealloc(
    store: &mut wasmtime::Store<RuntimeContext>,
    instance: &wasmtime::Instance,
    name: &str,
) -> (r: Result<wasmtime::TypedFunc<(i32,), ()>, BuildError>)
    requires
        instance_in_store(*instance, *old(store)),
    ensures
        instance_in_store(*instance, *final(store)),
        store_synchronous(*final(store)) == store_synchronous(*old(store)),
        r is Ok <==> has_dealloc_export(*instance, name@),
        r matches Err(e) ==> e is MissingExport,
{
    instance
        .get_typed_func::<(i32,), ()>(&mut *store, name)
        .map_err(|e| BuildError::MissingExport(format!("{e:#}")))
}

/// Relies on `Instance::get_typed_func` for the legacy raw entry point:
/// succeeds exactly when the instance exports it under that name with that
/// type, and fails naming the export otherwise.
#[verifier::external_body]
fn get_typed_entry(
    store: &mut wasmtime::Store<RuntimeContext>,
    instance: &wasmtime::Instance,
    name: &str,
) -> (r: Result<wasmtime::TypedFunc<(i32, i32), (i32,)>, BuildError>)
    requires
        instance_in_store(*instance, *old(store)),
    ensures
        instance_in_store(*instance, *final(store)),
        store_synchronous(*final(store)) == store_synchronous(*old(store)),
        r is Ok <==> has_entry_export(*instance, name@),
        r matches Err(e) ==> e is MissingExport,
{
    instance
        .get_typed_func::<(i32, i32), (i32,)>(&mut *store, name)
        .map_err(|e| BuildError::MissingExport(format!("{e:#}")))
}

/// Bundles one invocation's store, its memory and its legacy exports into the
/// opaque marshaler value; no outside call is made. The store must be
/// synchronous, so that the typed guest calls made through this value never
/// hit the engine's asynchrony assertions.
#[verifier::external_body]
fn assemble_raw_lambda(
    store: wasmtime::Store<RuntimeContext>,
    memory: wasmtime::Memory,
    alloc: wasmtime::TypedFunc<(i32,), i32>,
    dealloc: wasmtime::TypedFunc<(i32,), ()>,
    entry: wasmtime::TypedFunc<(i32, i32), (i32,)>,
) -> RawLambda
    requires
        store_synchronous(store),
{
    RawLambda { store, memory, alloc, dealloc, entry }
}

impl RawLambda {
    /// Wrap up the legacy exports (`alloc`, `dealloc` and the entry point
    /// named `entry_name`) of `instance`, which must live in the given
    /// synchronous `store` (as [`crate::engine::ExecutionContext::prepare`]
    /// returns them), taking ownership of the store for the invocation.
    /// Succeeds exactly when the instance exports the legacy triple and a
    /// linear memory; missing any of them is a fatal load-time error naming
    /// the export.
    pub fn new(
        store: wasmtime::Store<RuntimeContext>,
        instance: &wasmtime::Instance,
        entry_name: &str,
    ) -> (r: Result<RawLambda, BuildError>)
        requires
            instance_in_store(*instance, store),
            store_synchronous(store),
        ensures
            r is Ok <==> {
                &&& has_alloc_export(*instance, "alloc"@)
                &&& has_dealloc_export(*instance, "dealloc"@)
                &&& has_entry_export(*instance, entry_name@)
                &&& has_memory_export(*instance, "memory"@)
            },
            r matches Err(e) ==> e is MissingExport,
    {
        let mut store = store;
        let alloc = match get_typed_alloc(&mut store, instance, "alloc") {
            Ok(f) => f,
            Err(e) => {
                return Err(e);
            },
        };
        let dealloc = match get_typed_dealloc(&mut store, instance, "dealloc") {
            Ok(f) => f,
            Err(e) => {
                return Err(e);
            },
        };
        let entry = match get_typed_entry(&mut store, instance, entry_name) {
            Ok(f) => f,
            Err(e) => {
                return Err(e);
            },
        };
        let memory = match crate::abi::get_export_memory(&mut store, instance, "memory") {
            Ok(m) => m,
            Err(e) => {
                return Err(e);
            },
        };
        Ok(assemble_raw_lambda(store, memory, alloc, dealloc, entry))
    }

    /// Relies on `Memory::read`: succeeds exactly when the range lies within
    /// the current memory size, returning a copy of those bytes.
    #[verifier::external_body]
    fn mem_read(&self, offset: usize, len: usize) -> (r: Result<Vec<u8>, HostFault>)
        ensures
            r is Ok <==> offset + len <= raw_guest_mem(*self).len(),
            r matches Ok(v) ==> v@ == raw_guest_mem(*self).subrange(
                offset as int,
                offset as int + len as int,
            ),
            r matches Err(f) ==> f is OutOfBounds,
    {
        let mut buf = vec![0u8; len];
        match self.memory.read(&self.store, offset, &mut buf) {
            Ok(()) => Ok(buf),
            Err(_) => Err(HostFault::OutOfBounds),
        }
    }

    /// Relies on `Memory::write`: succeeds exactly when the range lies within
    /// the current memory size, overwriting those bytes and nothing else.
    #[verifier::external_body]
    fn mem_write(&mut self, offset: usize, data: &[u8]) -> (r: Result<(), HostFault>)
        ensures
            r is Ok <==> offset + data@.len() <= raw_guest_mem(*old(self)).len(),
            r matches Ok(v) ==> raw_guest_mem(*final(self)) == overwritten(
                raw_guest_mem(*old(self)),
                offset as int,
                data@,
            ),
            r matches Err(f) ==> f is OutOfBounds && raw_guest_mem(*final(self)) == raw_guest_mem(
                *old(self),
            ),
    {
        match self.memory.write(&mut self.store, offset, data) {
            Ok(()) => Ok(()),
            Err(_) => Err(HostFault::OutOfBounds),
        }
    }

    /// Relies on `Memory::data_size` for the current size of the guest's
    /// linear memory in bytes.
    #[verifier::external_body]
    fn mem_size(&self) -> (n: usize)
        ensures
            n == raw_guest_mem(*self).len(),
    {
        self.memory.data_size(&self.store)
    }

    /// Relies on `TypedFunc::call` of the guest's `alloc` export; the call is
    /// synchronous by construction (see [`crate::engine::HostEngine::new`]).
    /// Nothing is assumed of the returned pointer or of the memory
    /// afterwards.
    #[verifier::external_body]
    fn call_alloc(&mut self, size: i32) -> (r: Result<i32, HostFault>)
        ensures
            r matches Err(f) ==> f is Trap,
    {
        self.alloc.call(&mut self.store, (size,)).map_err(|e| HostFault::Trap(format!("{e:#}")))
    }

    /// Relies on `TypedFunc::call` of the guest's `dealloc` export, handing a
    /// guest buffer back for reclamation; the call is synchronous by
    /// construction.
    #[verifier::external_body]
    fn call_dealloc(&mut self, ptr: i32) -> (r: Result<(), HostFault>)
        ensures
            r matches Err(f) ==> f is Trap,
    {
        self.dealloc.call(&mut self.store, (ptr,)).map_err(|e| HostFault::Trap(format!("{e:#}")))
    }

    /// Relies on `TypedFunc::call` of the guest's entry point on a raw
    /// pointer/length pair; returns the guest pointer of the reply string;
    /// the call is synchronous by construction. Nothing is assumed of the
    /// pointer or of the memory afterwards.
    #[verifier::external_body]
    fn call_entry(&mut self, ptr: i32, len: i32) -> (r: Result<i32, HostFault>)
        ensures
            r matches Err(f) ==> f is Trap,
    {
        self.entry
            .call(&mut self.store, (ptr, len))
            .map(|t| t.0)
            .map_err(|e| HostFault::Trap(format!("{e:#}")))
    }

    /// Lower one string into guest memory through the legacy `alloc` export.
    /// On success the returned pointer is non-negative and guest memory holds
    /// the string's bytes at exactly that range.
    pub fn lower_string(&mut self, s: &str) -> (r: Result<(i32, i32), HostFault>)
        requires
            s.spec_bytes().len() <= i32::MAX,
        ensures
            r matches Ok(pl) ==> {
                &&& pl.0 >= 0
                &&& pl.1 == s.spec_bytes().len()
                &&& pl.0 + pl.1 <= raw_guest_mem(*final(self)).len()
                &&& raw_guest_mem(*final(self)).subrange(pl.0 as int, pl.0 + pl.1)
                    == s.spec_bytes()
            },
            r matches Err(f) ==> (f is Trap || f is OutOfBounds),
    {
        let bytes = s.as_bytes();
        let n = bytes.len();
        let ptr = match self.call_alloc(n as i32) {
            Ok(p) => p,
            Err(f) => {
                return Err(f);
            },
        };
        if ptr < 0 {
            return Err(HostFault::OutOfBounds);
        }
        let ghost pre_write = *self;
        match self.mem_write(ptr as usize, bytes) {
            Ok(()) => (),
            Err(f) => {
                return Err(f);
            },
        }
        proof {
            lemma_overwrite_then_read(raw_guest_mem(pre_write), ptr as int, bytes@);
        }
        Ok((ptr, n as i32))
    }

    /// Read the null-terminated byte string at `at` in guest memory: the
    /// bytes before the first NUL, exactly as they stand there. Fails as an
    /// out-of-bounds fault when no NUL exists before the end of memory.
    pub fn read_cstr(&self, at: u32) -> (r: Result<Vec<u8>, HostFault>)
        ensures
            r matches Ok(v) ==> cstr_at(raw_guest_mem(*self), at as int, v@),
            r matches Err(f) ==> f is OutOfBounds && !has_nul_from(raw_guest_mem(*self), at as int),
    {
        let msize = self.mem_size();
        let mut out: Vec<u8> = Vec::new();
        let mut pos: usize = at as usize;
        loop
            invariant
                msize == raw_guest_mem(*self).len(),
                at as int <= pos as int,
                out@.len() == pos - at,
                forall|k: int|
                    0 <= k < out@.len() ==> raw_guest_mem(*self)[at as int + k] == out@[k]
                        && #[trigger] out@[k] != 0,
            decreases msize - pos,
        {
            let byte = match self.mem_read(pos, 1) {
                Ok(v) => v,
                Err(_) => {
                    proof {
                        assert forall|j: int|
                            at as int <= j < raw_guest_mem(*self).len() implies raw_guest_mem(
                            *self,
                        )[j] != 0 by {
                            assert(out@[j - at] != 0);
                            assert(raw_guest_mem(*self)[at as int + (j - at)] == out@[j - at]);
                        }
                    }
                    return Err(HostFault::OutOfBounds);
                },
            };
            let b = byte[0];
            if b == 0 {
                proof {
                    assert(raw_guest_mem(*self)[pos as int] == 0);
                }
                return Ok(out);
            }
            out.push(b);
            pos = pos + 1;
        }
    }

    /// Decode the legacy reply: read the null-terminated string at
    /// `result_ptr`, hand the guest buffer back to `dealloc`, and validate
    /// the bytes as UTF-8. A missing terminator or an out-of-range pointer is
    /// an out-of-bounds fault; invalid UTF-8 is a fault, never silently
    /// replaced.
    pub fn decode_raw_result(&mut self, result_ptr: i32) -> (r: Result<String, HostFault>)
        ensures
            ({
                let m = raw_guest_mem(*old(self));
                &&& (result_ptr < 0 ==> r == Err::<String, HostFault>(HostFault::OutOfBounds))
                &&& (result_ptr >= 0 && !has_nul_from(m, result_ptr as int) ==> r == Err::<
                    String,
                    HostFault,
                >(HostFault::OutOfBounds))
                &&& (result_ptr >= 0 && has_nul_from(m, result_ptr as int) ==> !(r matches Err(f)
                    && f is OutOfBounds))
                &&& (r matches Ok(s) ==> exists|v: Seq<u8>|
                    cstr_at(m, result_ptr as int, v) && valid_utf8(v) && s@ == decode_utf8(v))
                &&& (forall|v: Seq<u8>| #[trigger] cstr_at(m, result_ptr as int, v) ==> {
                    &&& (valid_utf8(v) ==> ((r matches Ok(s) && s@ == decode_utf8(v)) || (
                    r matches Err(f) && f is Trap)))
                    &&& (!valid_utf8(v) ==> (r matches Err(f) && (f is InvalidUtf8 || f is Trap)))
                })
            }),
    {
        if result_ptr < 0 {
            return Err(HostFault::OutOfBounds);
        }
        let bytes = match self.read_cstr(result_ptr as u32) {
            Ok(v) => v,
            Err(f) => {
                return Err(f);
            },
        };
        proof {
            let m = raw_guest_mem(*self);
            assert(m[result_ptr + bytes@.len()] == 0);
            assert(has_nul_from(m, result_ptr as int));
            assert forall|v: Seq<u8>| #[trigger] cstr_at(m, result_ptr as int, v) implies v
                == bytes@ by {
                lemma_cstr_unique(m, result_ptr as int, v, bytes@);
            }
        }
        match self.call_dealloc(result_ptr) {
            Ok(()) => (),
            Err(f) => {
                return Err(f);
            },
        }
        match string_from_utf8(bytes) {
            Ok(s) => Ok(s),
            Err(f) => Err(f),
        }
    }

    /// Invoke the guest's legacy entry point on one event: copy the event in
    /// through `alloc`, call the entry point, and read its reply as a
    /// null-terminated string. There is no structured context and no
    /// structured error channel. A success output is always the UTF-8 decode
    /// of a null-terminated byte string the guest produced.
    pub fn handler(&mut self, event: &str) -> (r: Result<String, HostFault>)
        requires
            event.spec_bytes().len() <= i32::MAX,
        ensures
            r matches Ok(out) ==> exists|payload: Seq<u8>|
                valid_utf8(payload) && out@ == decode_utf8(payload),
    {
        let (event_ptr, event_len) = match self.lower_string(event) {
            Ok(pl) => pl,
            Err(f) => {
                return Err(f);
            },
        };
        let result_ptr = match self.call_entry(event_ptr, event_len) {
            Ok(p) => p,
            Err(f) => {
                return Err(f);
            },
        };
        self.decode_raw_result(result_ptr)
    }
}

/// The two coexisting calling conventions, as a tagged choice of codec: the
/// embedder selects one per execution context when it wraps a prepared
/// invocation.
pub enum Marshaler {
    /// The canonical, length-prefixed convention with a tagged result record.
    Canonical(Lambda),
    /// The legacy raw-pointer, null-terminated convention.
    Legacy(RawLambda),
}

impl Marshaler {
    /// Invoke the guest handler through whichever convention was selected.
    /// The legacy convention carries no context and no guest-signaled error
    /// tag, so there a reply is always a success output.
    pub fn handler(&mut self, event: &str, context: Option<&str>) -> (r: Result<
        Result<String, Error>,
        HostFault,
    >)
        requires
            event.spec_bytes().len() <= i32::MAX,
            context matches Some(c) ==> c.spec_bytes().len() <= i32::MAX,
        ensures
            r matches Ok(Ok(out)) ==> exists|payload: Seq<u8>|
                valid_utf8(payload) && out@ == decode_utf8(payload),
    {
        match self {
            Marshaler::Canonical(lambda) => lambda.handler(event, context),
            Marshaler::Legacy(lambda) => match lambda.handler(event) {
                Ok(s) => Ok(Ok(s)),
                Err(f) => Err(f),
            },
        }
    }
}

} // verus!
