//! Byte layout of the header at the start of a shared region.
//!
//! Every participant addresses the header by these offsets, never by the
//! layout of a native struct, so builds of different pointer widths agree.
use vstd::prelude::*;

verus! {

/// Offset of the 32-bit lock word.
pub const LOCK_WORD_OFFSET: usize = 0;

/// Size in bytes of the lock word.
pub const LOCK_WORD_SIZE: usize = 4;

/// Offset of the 64-bit signed payload; a multiple of its own size.
pub const PAYLOAD_OFFSET: usize = 8;

/// Size in bytes of the payload.
pub const PAYLOAD_SIZE: usize = 8;

/// Bytes a region needs to hold the whole header.
pub const HEADER_SIZE: usize = 16;

/// The end, exclusive, of a field of `len` bytes at offset `start`.
pub open spec fn field_end(start: usize, len: usize) -> int {
    start + len
}

/// Whether a region of `len` bytes holds every field of the header.
pub open spec fn spec_header_fits(len: int) -> bool {
    field_end(LOCK_WORD_OFFSET, LOCK_WORD_SIZE) <= len && field_end(PAYLOAD_OFFSET, PAYLOAD_SIZE)
        <= len
}

/// The fields lie inside the header, do not overlap, and each starts at a
/// multiple of its own size, so a page-aligned region aligns them.
pub proof fn lemma_header_layout()
    ensures
        field_end(LOCK_WORD_OFFSET, LOCK_WORD_SIZE) <= PAYLOAD_OFFSET,
        field_end(PAYLOAD_OFFSET, PAYLOAD_SIZE) == HEADER_SIZE,
        LOCK_WORD_OFFSET % LOCK_WORD_SIZE == 0,
        PAYLOAD_OFFSET % PAYLOAD_SIZE == 0,
        spec_header_fits(HEADER_SIZE as int),
        forall|len: int| spec_header_fits(len) <==> HEADER_SIZE <= len,
{
}

/// Checks, before any field is touched, that a mapped region of
/// `region_len` bytes is large enough for the header.
pub fn header_fits(region_len: usize) -> (r: bool)
    ensures
        r == spec_header_fits(region_len as int),
{
    region_len >= HEADER_SIZE
}

} // verus!
