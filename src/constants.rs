use vstd::prelude::*;

verus! {

pub const KILOBYTE: u64 = 1024;

pub const MEGABYTE: u64 = 1024 * KILOBYTE;

/// The unit of streamed file data: one encrypted frame carries at most this many bytes.
pub const CHUNK_SIZE: u64 = 128 * MEGABYTE;

} // verus!
