//! Guest linear memory as the host bindings see it: ranges given by the guest
//! are checked against the memory's current size before anything is read or
//! written.

use vstd::prelude::*;
use vstd::utf8::{decode_utf8, valid_utf8};
use crate::trap::Trap;

verus! {

/// Whether `len` bytes starting at `ptr` lie inside a memory of `size` bytes.
pub open spec fn in_bounds(size: nat, ptr: u32, len: u32) -> bool {
    ptr as nat + len as nat <= size
}

/// The bytes of `memory` that the guest's pair `(ptr, len)` refers to.
pub open spec fn guest_range(memory: Seq<u8>, ptr: u32, len: u32) -> Seq<u8>
    recommends
        in_bounds(memory.len(), ptr, len),
{
    memory.subrange(ptr as int, ptr as int + len as int)
}

/// What a guest's string argument reads as: the text, or the trap it causes.
pub open spec fn guest_str(memory: Seq<u8>, ptr: u32, len: u32) -> Result<Seq<char>, Trap> {
    if !in_bounds(memory.len(), ptr, len) {
        Err(Trap::OutOfBounds)
    } else if !valid_utf8(guest_range(memory, ptr, len)) {
        Err(Trap::InvalidUtf8)
    } else {
        Ok(decode_utf8(guest_range(memory, ptr, len)))
    }
}

/// Checks a guest range against the memory's size and gives its two ends.
pub fn check_range(size: usize, ptr: u32, len: u32) -> (ends: Result<(usize, usize), Trap>)
    ensures
        in_bounds(size as nat, ptr, len) ==> ends == Ok::<(usize, usize), Trap>(
            (ptr as usize, (ptr + len) as usize),
        ),
        !in_bounds(size as nat, ptr, len) ==> ends == Err::<(usize, usize), Trap>(
            Trap::OutOfBounds,
        ),
{
    let end: u64 = ptr as u64 + len as u64;
    if end <= size as u64 {
        Ok((ptr as usize, end as usize))
    } else {
        Err(Trap::OutOfBounds)
    }
}

/// The bytes of a guest range, or the trap for a range outside the memory.
pub fn get_bytes<'a>(memory: &'a [u8], ptr: u32, len: u32) -> (bytes: Result<&'a [u8], Trap>)
    ensures
        in_bounds(memory@.len(), ptr, len) ==> bytes is Ok && bytes->Ok_0@ == guest_range(
            memory@,
            ptr,
            len,
        ),
        !in_bounds(memory@.len(), ptr, len) ==> bytes == Err::<&[u8], Trap>(Trap::OutOfBounds),
{
    match check_range(memory.len(), ptr, len) {
        Ok((start, end)) => Ok(vstd::slice::slice_subrange(memory, start, end)),
        Err(trap) => Err(trap),
    }
}

/// Decodes bytes as UTF-8 text.
///
/// Calls `String::from_utf8` of the standard library, which accepts exactly
/// the well-formed UTF-8 byte strings and then holds the text they encode.
#[verifier::external_body]
fn decode_text(bytes: Vec<u8>) -> (text: Option<String>)
    ensures
        text is Some <==> valid_utf8(bytes@),
        text matches Some(s) ==> s@ == decode_utf8(bytes@),
{
    String::from_utf8(bytes).ok()
}

/// Reads a guest string: `len` bytes at `ptr`, which must lie inside the
/// memory and be well-formed UTF-8.
pub fn read_str(memory: &[u8], ptr: u32, len: u32) -> (text: Result<String, Trap>)
    ensures
        text is Ok <==> guest_str(memory@, ptr, len) is Ok,
        text matches Ok(s) ==> guest_str(memory@, ptr, len) == Ok::<Seq<char>, Trap>(s@),
        text matches Err(trap) ==> guest_str(memory@, ptr, len) == Err::<Seq<char>, Trap>(trap),
{
    let bytes = get_bytes(memory, ptr, len)?;
    match decode_text(vstd::slice::slice_to_vec(bytes)) {
        Some(s) => Ok(s),
        None => Err(Trap::InvalidUtf8),
    }
}

} // verus!
