//! Addressing sectors in a raw capture, and the anomalies a run reports.
use vstd::prelude::*;
use vstd::slice::slice_subrange;

use crate::layout::{LEADIN_SKIP_SECTORS, RW_MASK, SECTOR_SIZE, SECTOR_SPREAD};

verus! {

/// Why a capture was refused.
#[derive(Debug, Clone, Copy, PartialEq, Eq)]
pub enum CaptureError {
    /// Its length is not a whole number of sectors.
    Misaligned,
    /// It holds fewer sectors than the two whose end is audited.
    TooShort,
}

/// Something out of the ordinary found in a capture. Sectors are absolute
/// indices into the capture; packs are 0 to 3 within their sector.
#[derive(Debug, Clone, Copy, PartialEq, Eq, Structural)]
pub enum Anomaly {
    /// One of the first two sectors holds a non-zero byte.
    LeadInSector { sector: usize },
    /// A pack outside the program area carries a mode, fails Q, or is
    /// beyond P's repair.
    PackOutsideProgram { sector: usize, pack: usize },
    /// A program pack that P could not correct.
    PUncorrected { sector: usize, pack: usize },
    /// A program pack that fails Q; `head` is its first four bytes, big-endian.
    QError { sector: usize, pack: usize, head: u32 },
    /// One of the last two sectors carries R-W payload bits.
    TailSector { sector: usize },
}

/// The number of sectors in a capture of `len` bytes, or why it is refused.
pub open spec fn sectors_of(len: int) -> Result<usize, CaptureError> {
    if len % 96 != 0 {
        Err(CaptureError::Misaligned)
    } else if len < 192 {
        Err(CaptureError::TooShort)
    } else {
        Ok((len / 96) as usize)
    }
}

/// The raw bytes of sector `s`.
pub open spec fn sector_bytes(capture: Seq<u8>, s: int) -> Seq<u8> {
    capture.subrange(s * 96, s * 96 + 96)
}

/// The three-sector window that ends with sector `s`.
pub open spec fn window_of(capture: Seq<u8>, s: int) -> Seq<u8> {
    capture.subrange((s - 2) * 96, (s + 1) * 96)
}

/// Every raw byte of sector `s` is zero.
pub open spec fn zero_sector(capture: Seq<u8>, s: int) -> bool {
    forall|k: int| 0 <= k < 96 ==> #[trigger] capture[s * 96 + k] == 0
}

/// Some byte of sector `s` has an R-W payload bit set.
pub open spec fn rw_payload(capture: Seq<u8>, s: int) -> bool {
    exists|k: int| 0 <= k < 96 && #[trigger] capture[s * 96 + k] & 0x3f != 0
}

/// Counts the sectors of a capture of `len` bytes.
pub fn sector_count(len: usize) -> (r: Result<usize, CaptureError>)
    ensures
        r == sectors_of(len as int),
{
    if len % SECTOR_SIZE != 0 {
        Err(CaptureError::Misaligned)
    } else if len < SECTOR_SPREAD * SECTOR_SIZE {
        Err(CaptureError::TooShort)
    } else {
        Ok(len / SECTOR_SIZE)
    }
}

/// The window of sector `sector`: it and the two sectors before it.
pub fn window(capture: &[u8], sector: usize) -> (w: &[u8])
    requires
        SECTOR_SPREAD <= sector,
        (sector + 1) * 96 <= capture@.len(),
    ensures
        w@ == window_of(capture@, sector as int),
        w@.len() == 288,
{
    let _len = capture.len();
    slice_subrange(capture, (sector - SECTOR_SPREAD) * SECTOR_SIZE, (sector + 1) * SECTOR_SIZE)
}

/// Whether every raw byte of sector `sector` is zero.
pub fn is_zero_sector(capture: &[u8], sector: usize) -> (r: bool)
    requires
        (sector + 1) * 96 <= capture@.len(),
    ensures
        r == zero_sector(capture@, sector as int),
{
    let _len = capture.len();
    let base = sector * SECTOR_SIZE;
    let mut k: usize = 0;
    while k < SECTOR_SIZE
        invariant
            k <= SECTOR_SIZE,
            base == sector * 96,
            (sector + 1) * 96 <= capture@.len() <= usize::MAX,
            forall|j: int| 0 <= j < k ==> #[trigger] capture@[sector * 96 + j] == 0,
        decreases SECTOR_SIZE - k,
    {
        if capture[base + k] != 0 {
            return false;
        }
        k += 1;
    }
    true
}

/// Whether some byte of sector `sector` has an R-W payload bit set.
pub fn has_rw_payload(capture: &[u8], sector: usize) -> (r: bool)
    requires
        (sector + 1) * 96 <= capture@.len(),
    ensures
        r == rw_payload(capture@, sector as int),
{
    let _len = capture.len();
    let base = sector * SECTOR_SIZE;
    let mut k: usize = 0;
    while k < SECTOR_SIZE
        invariant
            k <= SECTOR_SIZE,
            base == sector * 96,
            (sector + 1) * 96 <= capture@.len() <= usize::MAX,
            forall|j: int| 0 <= j < k ==> #[trigger] capture@[sector * 96 + j] & 0x3f == 0,
        decreases SECTOR_SIZE - k,
    {
        if capture[base + k] & RW_MASK != 0 {
            return true;
        }
        k += 1;
    }
    false
}

/// The program-relative index of an absolute sector; negative in the lead-in.
pub fn relative_sector(sector: usize) -> (r: i128)
    ensures
        r == sector - LEADIN_SKIP_SECTORS,
{
    sector as i128 - LEADIN_SKIP_SECTORS as i128
}

} // verus!
