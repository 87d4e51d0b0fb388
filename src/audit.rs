//! Checks on the sectors outside the program area.
//!
//! The lead-in and lead-out should carry nothing. What they do carry is
//! reported as an anomaly; it never stops a run and never reaches the
//! output.
use vstd::prelude::*;

use crate::capture::{
    has_rw_payload, is_zero_sector, rw_payload, window, window_of, zero_sector, Anomaly,
};
use crate::codec::{correct_pack, corrected_pack, pack_outcome, BlockCode, CorrectResult};
use crate::deinterleave::{deinterleave_and_mask, deinterleave_table, deinterleaved, pack_of};
use crate::layout::{PACKS_PER_SECTOR, SECTOR_SPREAD};

verus! {

/// The report on sector `s`, one of the first two: it is flagged when a
/// raw byte of it is not zero.
pub open spec fn lead_in_report(capture: Seq<u8>, s: usize) -> Seq<Anomaly> {
    if zero_sector(capture, s as int) {
        seq![]
    } else {
        seq![Anomaly::LeadInSector { sector: s }]
    }
}

/// The report on sector `s`, one of the last two: it is flagged when it
/// carries R-W payload bits.
pub open spec fn tail_report(capture: Seq<u8>, s: usize) -> Seq<Anomaly> {
    if rw_payload(capture, s as int) {
        seq![Anomaly::TailSector { sector: s }]
    } else {
        seq![]
    }
}

/// The reports on the last two of `n` sectors, in order.
pub open spec fn tail_reports(capture: Seq<u8>, n: usize) -> Seq<Anomaly> {
    tail_report(capture, (n - 2) as usize) + tail_report(capture, (n - 1) as usize)
}

/// Pack `k` of sector `s` as deinterleaved from its window.
pub open spec fn sector_pack(capture: Seq<u8>, s: int, k: int) -> Seq<u8> {
    deinterleaved(window_of(capture, s)).subrange(24 * k, 24 * k + 24)
}

/// Whether a pack outside the program area, with outcome `r` and first
/// byte `byte0` after P, is out of place: it fails Q, is beyond P's
/// repair, or carries a mode.
pub open spec fn outside_flag_of(r: CorrectResult, byte0: u8) -> bool {
    r.q_error || r.p_uncorrected || byte0 >> 3u8 != 0
}

/// The report on pack `k` of sector `s`, outside the program area.
pub open spec fn outside_report<P: BlockCode, Q: BlockCode>(
    p: P,
    q: Q,
    capture: Seq<u8>,
    s: usize,
    k: usize,
) -> Seq<Anomaly> {
    let pack = sector_pack(capture, s as int, k as int);
    if outside_flag_of(pack_outcome(p, q, pack), corrected_pack(p, pack)[0]) {
        seq![Anomaly::PackOutsideProgram { sector: s, pack: k }]
    } else {
        seq![]
    }
}

/// The reports on packs 0 up to `k` of sector `s`, outside the program area.
pub open spec fn outside_reports<P: BlockCode, Q: BlockCode>(
    p: P,
    q: Q,
    capture: Seq<u8>,
    s: usize,
    k: usize,
) -> Seq<Anomaly>
    decreases k,
{
    if k == 0 {
        seq![]
    } else {
        outside_reports(p, q, capture, s, (k - 1) as usize) + outside_report(
            p,
            q,
            capture,
            s,
            (k - 1) as usize,
        )
    }
}

/// Tells whether a pack outside the program area is out of place.
pub fn outside_flag(r: CorrectResult, byte0: u8) -> (f: bool)
    ensures
        f == outside_flag_of(r, byte0),
{
    r.q_error || r.p_uncorrected || (byte0 >> 3 != 0)
}

/// Audits one sector outside the program area. The first two sectors,
/// which have no earlier sectors to deinterleave with, must be all zero;
/// any other sector is deinterleaved and checked, and each pack that fails
/// Q, is beyond P's repair or carries a mode is flagged.
pub fn audit_sector<P: BlockCode, Q: BlockCode>(
    table: &Vec<usize>,
    capture: &[u8],
    sector: usize,
    p: &P,
    q: &Q,
    anomalies: &mut Vec<Anomaly>,
)
    requires
        table@ == deinterleave_table(),
        (sector + 1) * 96 <= capture@.len(),
    ensures
        sector < 2 ==> final(anomalies)@ == old(anomalies)@ + lead_in_report(capture@, sector),
        sector >= 2 ==> final(anomalies)@ == old(anomalies)@ + outside_reports(
            *p,
            *q,
            capture@,
            sector,
            4,
        ),
{
    if sector < SECTOR_SPREAD {
        if !is_zero_sector(capture, sector) {
            anomalies.push(Anomaly::LeadInSector { sector });
        }
        assert(final(anomalies)@ =~= old(anomalies)@ + lead_in_report(capture@, sector));
        return;
    }
    let bytes = deinterleave_and_mask(table, window(capture, sector));
    let mut k: usize = 0;
    while k < PACKS_PER_SECTOR
        invariant
            k <= PACKS_PER_SECTOR,
            sector >= 2,
            bytes@ == deinterleaved(window_of(capture@, sector as int)),
            anomalies@ == old(anomalies)@ + outside_reports(*p, *q, capture@, sector, k),
        decreases PACKS_PER_SECTOR - k,
    {
        let mut pack = pack_of(&bytes, k);
        let result = correct_pack(&mut pack, p, q);
        if outside_flag(result, pack[0]) {
            anomalies.push(Anomaly::PackOutsideProgram { sector, pack: k });
        }
        assert(anomalies@ =~= old(anomalies)@ + outside_reports(*p, *q, capture@, sector, (k + 1) as usize));
        k += 1;
    }
}

/// Flags each of the last two sectors that carries R-W payload bits.
pub fn check_tail(capture: &[u8], sectors: usize, anomalies: &mut Vec<Anomaly>)
    requires
        capture@.len() == sectors * 96,
        sectors >= 2,
    ensures
        final(anomalies)@ == old(anomalies)@ + tail_reports(capture@, sectors),
{
    let mut sector = sectors - 2;
    if has_rw_payload(capture, sector) {
        anomalies.push(Anomaly::TailSector { sector });
    }
    sector = sectors - 1;
    if has_rw_payload(capture, sector) {
        anomalies.push(Anomaly::TailSector { sector });
    }
    assert(final(anomalies)@ =~= old(anomalies)@ + tail_reports(capture@, sectors));
}

} // verus!
