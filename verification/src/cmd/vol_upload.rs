//! The `vol-upload` command: how a file is cut into data pieces and holes.
use vstd::prelude::*;

verus! {

/// The largest piece of data sent in one stream message.
pub const MESSAGE_LEGACY_PAYLOAD_MAX: usize = 262120;

/// Whether a range of a sparse file holds data or is a hole.
#[derive(Clone, Copy, Debug, PartialEq, Eq, Structural)]
pub enum SparseType {
    Data,
    Hole,
}

/// How many bytes to read and send next when `remain` are left.
pub fn upload_chunk_len(remain: usize) -> (r: usize)
    ensures
        r == if remain > MESSAGE_LEGACY_PAYLOAD_MAX {
            MESSAGE_LEGACY_PAYLOAD_MAX as int
        } else {
            remain as int
        },
{
    if remain > MESSAGE_LEGACY_PAYLOAD_MAX {
        MESSAGE_LEGACY_PAYLOAD_MAX
    } else {
        remain
    }
}

/// How much of the file to send: all of it when no length was asked for.
pub fn upload_length(length: u64, file_len: u64) -> (r: u64)
    ensures
        r == if length == 0 {
            file_len
        } else {
            length
        },
{
    if length == 0 {
        file_len
    } else {
        length
    }
}

/// The next range of a sparse file at offset `current`, with `remain` bytes
/// still to send: data up to the next hole, or a hole up to the next data
/// (or to the end of what is to be sent when no data follows); never more
/// than `remain`.
pub fn sparse_range(current: usize, remain: usize, next_hole: usize, next_data: Option<usize>) -> (r: (
    SparseType,
    usize,
))
    requires
        next_hole >= current,
        next_hole == current ==> (next_data matches Some(d) ==> d >= current),
    ensures
        r.1 <= remain,
        next_hole > current ==> r == (SparseType::Data, if next_hole - current > remain {
            remain
        } else {
            (next_hole - current) as usize
        }),
        next_hole == current ==> match next_data {
            Some(d) => r == (SparseType::Hole, if d - current > remain {
                remain
            } else {
                (d - current) as usize
            }),
            None => r == (SparseType::Hole, remain),
        },
{
    let n = next_hole - current;
    if n == 0 {
        match next_data {
            Some(d) => {
                let hole = d - current;
                let hole = if hole > remain {
                    remain
                } else {
                    hole
                };
                (SparseType::Hole, hole)
            },
            None => (SparseType::Hole, remain),
        }
    } else {
        let data = if n > remain {
            remain
        } else {
            n
        };
        (SparseType::Data, data)
    }
}

} // verus!
