//! The `vol-download` command: holes are written out in bounded pieces of zeroes.
use vstd::prelude::*;

verus! {

/// The most zeroes written at once for a hole.
pub const HOLE_CHUNK_MAX: usize = 8192;

/// How many zeroes to write next when `written` of a hole of `length` are done.
pub fn hole_chunk_len(length: usize, written: usize) -> (r: usize)
    requires
        written < length,
    ensures
        r == if length - written > HOLE_CHUNK_MAX {
            HOLE_CHUNK_MAX as int
        } else {
            length - written
        },
        0 < r <= HOLE_CHUNK_MAX,
{
    if length - written > HOLE_CHUNK_MAX {
        HOLE_CHUNK_MAX
    } else {
        length - written
    }
}

} // verus!
