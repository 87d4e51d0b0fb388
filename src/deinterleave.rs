//! Undoing the cross-sector interleave of the R-W channel.
use vstd::prelude::*;

use crate::layout::{PACK_SIZE, RW_MASK, SECTOR_SIZE, WINDOW_SIZE};

verus! {

/// Columns that are transmitted in each other's place: 1 and 18, 2 and 5,
/// 3 and 23.
pub open spec fn swapped_column(col: int) -> int {
    if col == 1 {
        18
    } else if col == 18 {
        1
    } else if col == 2 {
        5
    } else if col == 5 {
        2
    } else if col == 3 {
        23
    } else if col == 23 {
        3
    } else {
        col
    }
}

/// Offset inside a three-sector window of the byte that lands at output
/// position `i` of a sector.
pub open spec fn source_offset(i: int) -> int {
    let col = swapped_column(i % 24);
    (i / 24 + col % 8) * 24 + col
}

/// The whole offset table, one entry per output byte of a sector.
pub open spec fn deinterleave_table() -> Seq<usize> {
    Seq::new(96, |i: int| source_offset(i) as usize)
}

/// The 96 masked bytes of a sector, read out of its three-sector window.
pub open spec fn deinterleaved(window: Seq<u8>) -> Seq<u8> {
    Seq::new(96, |i: int| window[source_offset(i)] & 0x3f)
}

proof fn lemma_source_offset_bounds(i: int)
    requires
        0 <= i < 96,
    ensures
        0 <= source_offset(i) < 288,
        source_offset(i) % 24 == swapped_column(i % 24),
{
    let col = swapped_column(i % 24);
    assert(0 <= col < 24);
    assert(0 <= i / 24 < 4);
}

/// The window offset for output position `i`.
pub fn source_offset_of(i: usize) -> (r: usize)
    requires
        i < SECTOR_SIZE,
    ensures
        r == source_offset(i as int),
        r < WINDOW_SIZE,
{
    proof {
        lemma_source_offset_bounds(i as int);
    }
    let col = i % PACK_SIZE;
    let col: usize = match col {
        1 => 18,
        18 => 1,
        2 => 5,
        5 => 2,
        3 => 23,
        23 => 3,
        _ => col,
    };
    let lookahead = col % 8;
    (i / PACK_SIZE + lookahead) * PACK_SIZE + col
}

/// Builds the table of window offsets, once for a whole capture.
pub fn compute_deinterleave() -> (offsets: Vec<usize>)
    ensures
        offsets@ == deinterleave_table(),
{
    let mut offsets: Vec<usize> = Vec::with_capacity(SECTOR_SIZE);
    let mut i: usize = 0;
    while i < SECTOR_SIZE
        invariant
            i <= SECTOR_SIZE,
            offsets@.len() == i,
            forall|j: int| 0 <= j < i ==> offsets@[j] == source_offset(j),
        decreases SECTOR_SIZE - i,
    {
        offsets.push(source_offset_of(i));
        i += 1;
    }
    assert(offsets@ =~= deinterleave_table());
    offsets
}

/// Reads one sector's 96 payload bytes out of its window, the sector and
/// the two before it, through the table that `compute_deinterleave` built.
pub fn deinterleave_and_mask(table: &Vec<usize>, window: &[u8]) -> (out: Vec<u8>)
    requires
        table@ == deinterleave_table(),
        window@.len() == WINDOW_SIZE,
    ensures
        out@ == deinterleaved(window@),
{
    let mut out: Vec<u8> = Vec::with_capacity(SECTOR_SIZE);
    let mut i: usize = 0;
    while i < SECTOR_SIZE
        invariant
            i <= SECTOR_SIZE,
            table@ == deinterleave_table(),
            window@.len() == WINDOW_SIZE,
            out@.len() == i,
            forall|j: int| 0 <= j < i ==> out@[j] == deinterleaved(window@)[j],
        decreases SECTOR_SIZE - i,
    {
        proof {
            lemma_source_offset_bounds(i as int);
        }
        let b = window[table[i]];
        out.push(b & RW_MASK);
        i += 1;
    }
    assert(out@ =~= deinterleaved(window@));
    out
}

/// Pack `k` (0 to 3) of a sector's deinterleaved bytes.
pub fn pack_of(sector: &Vec<u8>, k: usize) -> (pack: Vec<u8>)
    requires
        sector@.len() == SECTOR_SIZE,
        k < 4,
    ensures
        pack@ == sector@.subrange(24 * k, 24 * k + 24),
{
    let base = k * PACK_SIZE;
    let mut pack: Vec<u8> = Vec::with_capacity(PACK_SIZE);
    let mut j: usize = 0;
    while j < PACK_SIZE
        invariant
            j <= PACK_SIZE,
            base == 24 * k,
            k < 4,
            sector@.len() == SECTOR_SIZE,
            pack@ == sector@.subrange(24 * k, 24 * k + j),
        decreases PACK_SIZE - j,
    {
        pack.push(sector[base + j]);
        j += 1;
        assert(pack@ =~= sector@.subrange(24 * k, 24 * k + j));
    }
    pack
}

/// A window that holds only zero bytes deinterleaves to 96 zero bytes.
pub proof fn lemma_zero_window_deinterleaves_to_zero(window: Seq<u8>)
    requires
        window.len() == 288,
        forall|k: int| 0 <= k < window.len() ==> window[k] == 0,
    ensures
        deinterleaved(window) == Seq::new(96, |i: int| 0u8),
{
    assert forall|i: int| 0 <= i < 96 implies deinterleaved(window)[i] == 0u8 by {
        lemma_source_offset_bounds(i);
        let b = window[source_offset(i)];
        assert(b & 0x3f == 0u8) by (bit_vector)
            requires
                b == 0u8,
        ;
    }
    assert(deinterleaved(window) =~= Seq::new(96, |i: int| 0u8));
}

} // verus!
