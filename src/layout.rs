//! Fixed geometry of the R-W subchannel capture.
use vstd::prelude::*;

verus! {

/// Bytes of raw subcode per sector.
pub const SECTOR_SIZE: usize = 96;

/// Bytes per logical pack.
pub const PACK_SIZE: usize = 24;

/// Packs per sector.
pub const PACKS_PER_SECTOR: usize = 4;

/// How many earlier sectors a sector's symbols may be spread over.
pub const SECTOR_SPREAD: usize = 2;

/// Bytes in a deinterleave window: the sector and the `SECTOR_SPREAD`
/// sectors before it.
pub const WINDOW_SIZE: usize = 288;

/// Sectors per second of disc time.
pub const SECTORS_PER_SECOND: usize = 75;

/// Sectors before the program area: 10 minutes 2 seconds.
pub const LEADIN_SKIP_SECTORS: usize = (10 * 60 + 2) * 75;

/// The six payload bits of an R-W byte.
pub const RW_MASK: u8 = 0x3f;

} // verus!
