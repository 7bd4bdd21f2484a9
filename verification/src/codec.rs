//! Byte-level codec of the calling convention.
//!
//! The wire layout of the guest's tagged result record: the first byte is a
//! discriminant (0 success, 1 failure). On success, bytes 4..8 hold a guest
//! pointer and bytes 8..12 a byte length locating the UTF-8 output buffer; on
//! failure, byte 4 holds the error tag (0 client-fault, 1 server-fault). All
//! integers are 4-byte little-endian, matching the guest's 32-bit pointer
//! width. Any other discriminant or tag is invalid and is rejected, never
//! coerced; a pointer/length pair is checked against the memory's size before
//! any access.

use vstd::prelude::*;
use vstd::utf8::{
    decode_utf8, encode_utf8, encode_utf8_decode_utf8, encode_utf8_valid_utf8, valid_utf8,
};

use crate::error::{Error, HostFault};

verus! {

/// The value of four little-endian bytes.
pub open spec fn le32(b: Seq<u8>) -> int
    recommends
        b.len() == 4,
{
    b[0] + 256 * b[1] + 65536 * b[2] + 16777216 * b[3]
}

/// `m` with the range starting at `at` overwritten by `data`.
pub open spec fn overwritten(m: Seq<u8>, at: int, data: Seq<u8>) -> Seq<u8>
    recommends
        0 <= at,
        at + data.len() <= m.len(),
{
    m.subrange(0, at) + data + m.subrange(at + data.len(), m.len() as int)
}

/// Overwriting a range does not change the memory's size, and reading the
/// same range back yields exactly the bytes written.
pub proof fn lemma_overwrite_then_read(m: Seq<u8>, at: int, data: Seq<u8>)
    requires
        0 <= at,
        at + data.len() <= m.len(),
    ensures
        overwritten(m, at, data).len() == m.len(),
        overwritten(m, at, data).subrange(at, at + data.len()) == data,
{
    assert(overwritten(m, at, data).subrange(at, at + data.len()) =~= data);
}

/// Law: lowering a string into memory and reading back the same range yields
/// the string unchanged, for every string — the empty one and strings with
/// multi-byte code points included. Writing the string's UTF-8 encoding at
/// `at` leaves the memory's size unchanged, the written range reads back as
/// exactly those bytes, and those bytes decode to the original characters.
pub proof fn lemma_lower_roundtrip(m: Seq<u8>, at: int, s: Seq<char>)
    requires
        0 <= at,
        at + encode_utf8(s).len() <= m.len(),
    ensures
        overwritten(m, at, encode_utf8(s)).len() == m.len(),
        overwritten(m, at, encode_utf8(s)).subrange(at, at + encode_utf8(s).len()) == encode_utf8(
            s,
        ),
        valid_utf8(encode_utf8(s)),
        decode_utf8(encode_utf8(s)) == s,
{
    lemma_overwrite_then_read(m, at, encode_utf8(s));
    encode_utf8_valid_utf8(s);
    encode_utf8_decode_utf8(s);
}

/// The decode of a tagged result record at `at` in memory `m`: on success the
/// located payload bytes, on failure the guest-signaled error; a record that
/// reaches outside the memory is an out-of-bounds fault and an unknown
/// discriminant or tag an invalid-variant fault.
pub open spec fn spec_decode_record(m: Seq<u8>, at: int) -> Result<
    Result<Seq<u8>, Error>,
    HostFault,
> {
    if !(0 <= at && at + 1 <= m.len()) {
        Err(HostFault::OutOfBounds)
    } else if m[at] == 0 {
        if at + 12 <= m.len() {
            let p = le32(m.subrange(at + 4, at + 8));
            let l = le32(m.subrange(at + 8, at + 12));
            if p + l <= m.len() {
                Ok(Ok(m.subrange(p, p + l)))
            } else {
                Err(HostFault::OutOfBounds)
            }
        } else {
            Err(HostFault::OutOfBounds)
        }
    } else if m[at] == 1 {
        if at + 5 <= m.len() {
            if m[at + 4] == 0 {
                Ok(Err(Error::ClientError))
            } else if m[at + 4] == 1 {
                Ok(Err(Error::ServerError))
            } else {
                Err(HostFault::InvalidVariant)
            }
        } else {
            Err(HostFault::OutOfBounds)
        }
    } else {
        Err(HostFault::InvalidVariant)
    }
}

/// The u32 value of the four little-endian bytes of `b` starting at `off`.
pub fn le_u32_at(b: &Vec<u8>, off: usize) -> (x: u32)
    requires
        off + 4 <= b@.len(),
    ensures
        x == le32(b@.subrange(off as int, off as int + 4)),
{
    let n = b.len();
    let b0 = b[off] as u32;
    let b1 = b[off + 1] as u32;
    let b2 = b[off + 2] as u32;
    let b3 = b[off + 3] as u32;
    b0 + b1 * 256 + b2 * 65536 + b3 * 16777216
}

/// Relies on `String::from_utf8`: succeeds exactly on valid UTF-8 and returns
/// the string those bytes encode; invalid bytes are rejected, never replaced.
#[verifier::external_body]
pub fn string_from_utf8(bytes: Vec<u8>) -> (r: Result<String, HostFault>)
    ensures
        r is Ok <==> valid_utf8(bytes@),
        r matches Ok(s) ==> s@ == decode_utf8(bytes@),
        r matches Err(f) ==> f is InvalidUtf8,
{
    String::from_utf8(bytes).map_err(|_| HostFault::InvalidUtf8)
}

/// Map a raw failure tag to the guest-signaled error it stands for: 0 is a
/// client fault, 1 a server fault, anything else an invalid variant.
pub fn decode_failure_tag(tag: u8) -> (r: Result<Error, HostFault>)
    ensures
        tag == 0 ==> r == Ok::<Error, HostFault>(Error::ClientError),
        tag == 1 ==> r == Ok::<Error, HostFault>(Error::ServerError),
        tag != 0 && tag != 1 ==> r == Err::<Error, HostFault>(HostFault::InvalidVariant),
{
    if tag == 0 {
        Ok(Error::ClientError)
    } else if tag == 1 {
        Ok(Error::ServerError)
    } else {
        Err(HostFault::InvalidVariant)
    }
}

} // verus!
