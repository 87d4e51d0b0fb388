//! Recovery of R-W subchannel packs from raw CD subcode captures.
//!
//! The library undoes the cross-sector interleave of the R-W channel,
//! applies the P and Q parity checks through a caller-supplied block code,
//! locates the program area from a table of contents, audits the lead-in
//! and lead-out, and accumulates per-category statistics.
use vstd::prelude::*;

pub mod layout;
pub mod deinterleave;
pub mod toc;
pub mod codec;
pub mod stats;
pub mod timecode;
pub mod capture;
pub mod audit;
pub mod pipeline;
