//! Locating the end of the program area in a table of contents.
//!
//! The buffer is a read-TOC response: a two-byte big-endian data length,
//! two header bytes, then eight-byte track descriptors. The last descriptor
//! is the lead-out (track number 0xAA); its last four bytes are the
//! big-endian address of the sector where the program ends.
use vstd::prelude::*;

verus! {

/// Bytes per track descriptor.
pub const TOC_DESCRIPTOR_SIZE: usize = 8;

/// Track number of the lead-out descriptor.
pub const LEAD_OUT_TRACK: u8 = 0xaa;

/// Why a table of contents was refused.
#[derive(Debug, Clone, Copy, PartialEq, Eq)]
pub enum TocError {
    /// Fewer than the two bytes of the length field.
    TooShort,
    /// The length field does not match the size of the buffer.
    LengthMismatch,
    /// No track descriptor.
    NoTracks,
    /// The descriptors do not fill the buffer exactly.
    TrailingBytes,
    /// The last descriptor is not the lead-out.
    NotLeadOut,
    /// The lead-out address does not fit a `usize`.
    AddressTooLarge,
}

/// Big-endian value of the two bytes at `at`.
pub open spec fn be16(b: Seq<u8>, at: int) -> int {
    b[at] * 256 + b[at + 1]
}

/// Big-endian value of the four bytes at `at`.
pub open spec fn be32(b: Seq<u8>, at: int) -> int {
    ((b[at] * 256 + b[at + 1]) * 256 + b[at + 2]) * 256 + b[at + 3]
}

/// Number of track descriptors that the length field announces.
pub open spec fn track_count(toc: Seq<u8>) -> int {
    (be16(toc, 0) - 2) / 8
}

/// Offset of the lead-out descriptor: the last one.
pub open spec fn lead_out_offset(toc: Seq<u8>) -> int {
    4 + (track_count(toc) - 1) * 8
}

/// The program end that a table of contents gives, or why it is refused.
pub open spec fn end_lba_of(toc: Seq<u8>) -> Result<usize, TocError> {
    if toc.len() < 2 {
        Err(TocError::TooShort)
    } else if be16(toc, 0) + 2 != toc.len() {
        Err(TocError::LengthMismatch)
    } else if be16(toc, 0) < 2 || track_count(toc) == 0 {
        Err(TocError::NoTracks)
    } else if track_count(toc) * 8 + 4 != toc.len() {
        Err(TocError::TrailingBytes)
    } else if toc[lead_out_offset(toc) + 2] != 0xaa {
        Err(TocError::NotLeadOut)
    } else if be32(toc, lead_out_offset(toc) + 4) > usize::MAX {
        Err(TocError::AddressTooLarge)
    } else {
        Ok(be32(toc, lead_out_offset(toc) + 4) as usize)
    }
}

/// Reads the absolute sector address where the program area ends.
pub fn parse_end_lba(toc: &[u8]) -> (r: Result<usize, TocError>)
    ensures
        r == end_lba_of(toc@),
{
    let len = toc.len();
    if len < 2 {
        return Err(TocError::TooShort);
    }
    let data_length: usize = (toc[0] as usize) * 256 + (toc[1] as usize);
    if data_length + 2 != len {
        return Err(TocError::LengthMismatch);
    }
    if data_length < 2 {
        return Err(TocError::NoTracks);
    }
    let track_count = (data_length - 2) / TOC_DESCRIPTOR_SIZE;
    if track_count == 0 {
        return Err(TocError::NoTracks);
    }
    if track_count * TOC_DESCRIPTOR_SIZE + 4 != len {
        return Err(TocError::TrailingBytes);
    }
    let first_descriptor_offset: usize = 4;
    let track_aa_offset = first_descriptor_offset + (track_count - 1) * TOC_DESCRIPTOR_SIZE;
    if toc[track_aa_offset + 2] != LEAD_OUT_TRACK {
        return Err(TocError::NotLeadOut);
    }
    let at = track_aa_offset + 4;
    let address: u64 = (((toc[at] as u64) * 256 + (toc[at + 1] as u64)) * 256 + (
    toc[at + 2] as u64)) * 256 + (toc[at + 3] as u64);
    if address > usize::MAX as u64 {
        return Err(TocError::AddressTooLarge);
    }
    Ok(address as usize)
}

} // verus!
