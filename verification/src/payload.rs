//! The unit of data that a tailer hands downstream: one chunk of bytes read
//! from a file, with the file's identity and the offset at which the chunk
//! begins.

use crate::trusted::{bytes_as_slice, bytes_of};
use bytes::Bytes;
use vstd::prelude::*;
use vstd::slice::slice_subrange;

verus! {

/// One chunk read from a file.
#[derive(Debug)]
pub struct TailerPayload {
    pub inode: u64,
    pub offset: u64,
    pub raw_data: Bytes,
    pub size: usize,
}

impl TailerPayload {
    /// The size recorded with the chunk is the number of its bytes.
    pub open spec fn wf(&self) -> bool {
        self.size == bytes_of(self.raw_data).len()
    }

    /// Number of bytes in the chunk.
    pub fn payload_data_size(&self) -> (n: usize)
        ensures
            n == bytes_of(self.raw_data).len(),
    {
        self.raw_data.len()
    }

    /// Whether the chunk holds no byte.
    pub fn payload_data_empty(&self) -> (e: bool)
        ensures
            e == (bytes_of(self.raw_data).len() == 0),
    {
        self.raw_data.is_empty()
    }

    /// The bytes of the chunk.
    pub fn data(&self) -> (s: &[u8])
        ensures
            s@ == bytes_of(self.raw_data),
    {
        bytes_as_slice(&self.raw_data)
    }
}

/// Builds the payload for a chunk that was read from a file at an offset.
pub fn build_payload(inode: u64, offset: u64, data: &[u8]) -> (p: TailerPayload)
    ensures
        p.wf(),
        p.inode == inode,
        p.offset == offset,
        bytes_of(p.raw_data) == data@,
{
    let raw_data = Bytes::copy_from_slice(data);
    let size = raw_data.len();
    TailerPayload { inode, offset, raw_data, size }
}

/// Turns the outcome of one read into a chunk: the first `n` bytes of the
/// read buffer, or nothing where the read brought no bytes.
pub fn read_data_chunk(buffer: &[u8], n: usize) -> (chunk: Option<Bytes>)
    requires
        n <= buffer@.len(),
    ensures
        chunk.is_some() <==> n > 0,
        chunk.is_some() ==> bytes_of(chunk.unwrap()) == buffer@.subrange(0, n as int),
{
    if n == 0 {
        None
    } else {
        Some(Bytes::copy_from_slice(slice_subrange(buffer, 0, n)))
    }
}

} // verus!
