//! The decode pass over a whole capture.
//!
//! Sectors before the program area and from its end on are audited;
//! sectors inside it are deinterleaved, checked pack by pack, counted and
//! written out in order. The last two sectors of the capture are audited
//! once more at the end.
use vstd::prelude::*;

use crate::audit::{
    audit_sector, check_tail, lead_in_report, outside_reports, sector_pack, tail_reports,
};
use crate::capture::{
    sector_count, sectors_of, window, window_of, zero_sector, Anomaly, CaptureError,
};
use crate::codec::{correct_pack, corrected_pack, pack_outcome, BlockCode, CorrectResult};
use crate::deinterleave::{
    compute_deinterleave, deinterleave_and_mask, deinterleave_table, deinterleaved, pack_of,
};
use crate::layout::{LEADIN_SKIP_SECTORS, PACKS_PER_SECTOR};
use crate::stats::{
    categorize, category_of, lemma_tally_concat, tally, tally_events, PackCategory, Statistics,
};
use crate::toc::be32;

verus! {

/// What a pass over a capture produced.
pub struct Decoded {
    /// The program packs, 24 bytes each, in capture order.
    pub packs: Vec<u8>,
    /// Counters per pack category.
    pub stats: Statistics,
    /// Everything out of the ordinary, in the order it was found.
    pub anomalies: Vec<Anomaly>,
}

impl Decoded {
    /// Whether anything out of the ordinary was found.
    pub fn oddity(&self) -> (r: bool)
        ensures
            r == (self.anomalies@.len() > 0),
    {
        self.anomalies.len() > 0
    }
}

/// Absolute sector where the program area ends: the lead-in plus the end
/// that the table of contents gives, or plus the capture's own length where
/// there is none. Saturates at `usize::MAX`.
pub open spec fn program_end_of(sectors: usize, end_lba: Option<usize>) -> usize {
    let e = match end_lba {
        Some(e) => e,
        None => sectors,
    };
    if e + LEADIN_SKIP_SECTORS > usize::MAX {
        usize::MAX
    } else {
        (e + LEADIN_SKIP_SECTORS) as usize
    }
}

/// Number of program sectors among the sectors before `upto`, for a
/// program area that ends at `end`.
pub open spec fn program_sectors(upto: int, end: int) -> int {
    let top = if upto < end {
        upto
    } else {
        end
    };
    if top > LEADIN_SKIP_SECTORS {
        top - LEADIN_SKIP_SECTORS
    } else {
        0
    }
}

/// Whether absolute sector `s` lies in a program area that ends at `end`.
pub open spec fn in_program(s: int, end: int) -> bool {
    LEADIN_SKIP_SECTORS <= s < end
}

/// The first two sectors' reports, in order.
pub open spec fn lead_in_reports(capture: Seq<u8>) -> Seq<Anomaly> {
    lead_in_report(capture, 0) + lead_in_report(capture, 1)
}

/// Pack `k` of program sector `s` as written out: after P.
pub open spec fn output_pack<P: BlockCode>(p: P, capture: Seq<u8>, s: usize, k: usize) -> Seq<u8> {
    corrected_pack(p, sector_pack(capture, s as int, k as int))
}

/// The outcome of checking pack `k` of program sector `s`.
pub open spec fn pack_result<P: BlockCode, Q: BlockCode>(
    p: P,
    q: Q,
    capture: Seq<u8>,
    s: usize,
    k: usize,
) -> CorrectResult {
    pack_outcome(p, q, sector_pack(capture, s as int, k as int))
}

/// Packs 0 up to `k` of program sector `s` as written out.
pub open spec fn sector_output<P: BlockCode>(p: P, capture: Seq<u8>, s: usize, k: usize) -> Seq<u8>
    decreases k,
{
    if k == 0 {
        seq![]
    } else {
        sector_output(p, capture, s, (k - 1) as usize) + output_pack(p, capture, s, (k - 1) as usize)
    }
}

/// Category and outcome of packs 0 up to `k` of program sector `s`.
pub open spec fn sector_events<P: BlockCode, Q: BlockCode>(
    p: P,
    q: Q,
    capture: Seq<u8>,
    s: usize,
    k: usize,
) -> Seq<(PackCategory, CorrectResult)>
    decreases k,
{
    if k == 0 {
        seq![]
    } else {
        let j = (k - 1) as usize;
        let r = pack_result(p, q, capture, s, j);
        sector_events(p, q, capture, s, j).push(
            (category_of(output_pack(p, capture, s, j)[0], r.q_error), r),
        )
    }
}

/// The reports on pack `k` of program sector `s`: P could not correct it,
/// then it fails Q.
pub open spec fn program_report<P: BlockCode, Q: BlockCode>(
    p: P,
    q: Q,
    capture: Seq<u8>,
    s: usize,
    k: usize,
) -> Seq<Anomaly> {
    let r = pack_result(p, q, capture, s, k);
    let out = output_pack(p, capture, s, k);
    (if r.p_uncorrected {
        seq![Anomaly::PUncorrected { sector: s, pack: k }]
    } else {
        seq![]
    }) + (if r.q_error {
        seq![Anomaly::QError { sector: s, pack: k, head: be32(out, 0) as u32 }]
    } else {
        seq![]
    })
}

/// The reports on packs 0 up to `k` of program sector `s`.
pub open spec fn program_reports<P: BlockCode, Q: BlockCode>(
    p: P,
    q: Q,
    capture: Seq<u8>,
    s: usize,
    k: usize,
) -> Seq<Anomaly>
    decreases k,
{
    if k == 0 {
        seq![]
    } else {
        program_reports(p, q, capture, s, (k - 1) as usize) + program_report(
            p,
            q,
            capture,
            s,
            (k - 1) as usize,
        )
    }
}

/// The absolute sector where the program area ends.
pub fn program_end(sectors: usize, end_lba: Option<usize>) -> (r: usize)
    ensures
        r == program_end_of(sectors, end_lba),
{
    let e = match end_lba {
        Some(e) => e,
        None => sectors,
    };
    if e > usize::MAX - LEADIN_SKIP_SECTORS {
        usize::MAX
    } else {
        e + LEADIN_SKIP_SECTORS
    }
}

/// Decodes one program sector: deinterleaves it, checks and corrects each
/// of its packs, counts each under its category, appends each to `packs`
/// and flags those that P could not correct or that fail Q.
pub fn decode_sector<P: BlockCode, Q: BlockCode>(
    table: &Vec<usize>,
    capture: &[u8],
    sector: usize,
    p: &P,
    q: &Q,
    stats: &mut Statistics,
    packs: &mut Vec<u8>,
    anomalies: &mut Vec<Anomaly>,
)
    requires
        table@ == deinterleave_table(),
        2 <= sector,
        (sector + 1) * 96 <= capture@.len(),
        old(stats).wf(),
        old(stats).all.total + 4 <= usize::MAX,
    ensures
        final(stats).wf(),
        final(stats).all.total == old(stats).all.total + 4,
        old(stats).counted_all(*final(stats), sector_events(*p, *q, capture@, sector, 4)),
        final(packs)@ == old(packs)@ + sector_output(*p, capture@, sector, 4),
        final(anomalies)@ == old(anomalies)@ + program_reports(*p, *q, capture@, sector, 4),
{
    let bytes = deinterleave_and_mask(table, window(capture, sector));
    let mut k: usize = 0;
    while k < PACKS_PER_SECTOR
        invariant
            k <= PACKS_PER_SECTOR,
            2 <= sector,
            (sector + 1) * 96 <= capture@.len(),
            bytes@ == deinterleaved(window_of(capture@, sector as int)),
            stats.wf(),
            stats.all.total == old(stats).all.total + k,
            old(stats).all.total + 4 <= usize::MAX,
            old(stats).counted_all(*stats, sector_events(*p, *q, capture@, sector, k)),
            packs@ == old(packs)@ + sector_output(*p, capture@, sector, k),
            anomalies@ == old(anomalies)@ + program_reports(*p, *q, capture@, sector, k),
        decreases PACKS_PER_SECTOR - k,
    {
        let mut pack = pack_of(&bytes, k);
        assert(pack@ == sector_pack(capture@, sector as int, k as int));
        let result = correct_pack(&mut pack, p, q);
        let ghost events = sector_events(*p, *q, capture@, sector, k);
        let ghost before_stats = *stats;
        if result.p_uncorrected {
            anomalies.push(Anomaly::PUncorrected { sector, pack: k });
        }
        if result.q_error {
            let head: u32 = (((pack[0] as u32) * 256 + (pack[1] as u32)) * 256 + (pack[2] as u32))
                * 256 + (pack[3] as u32);
            anomalies.push(Anomaly::QError { sector, pack: k, head });
        }
        let category = categorize(pack[0], result.q_error);
        stats.record(category, result);
        packs.append(&mut pack);
        proof {
            let next = sector_events(*p, *q, capture@, sector, (k + 1) as usize);
            assert(next.drop_last() =~= events);
            assert(next.last() == (category, result));
            assert forall|d: PackCategory| #[trigger]
                tally(stats.of(d)) == tally_events(tally(old(stats).of(d)), next, Some(d)) by {
                if d == category {
                    assert(before_stats.of(d).counted(stats.of(d), result));
                } else {
                    assert(stats.of(d) == before_stats.of(d));
                }
            }
            assert(packs@ =~= old(packs)@ + sector_output(*p, capture@, sector, (k + 1) as usize));
            assert(anomalies@ =~= old(anomalies)@ + program_reports(
                *p,
                *q,
                capture@,
                sector,
                (k + 1) as usize,
            ));
        }
        k += 1;
    }
}

/// The packs written out for the sectors before `upto`, for a program
/// area that ends at `end`.
pub open spec fn capture_output<P: BlockCode>(p: P, capture: Seq<u8>, end: int, upto: int) -> Seq<
    u8,
>
    decreases upto,
{
    if upto <= 0 {
        seq![]
    } else if in_program(upto - 1, end) {
        capture_output(p, capture, end, upto - 1) + sector_output(p, capture, (upto - 1) as usize, 4)
    } else {
        capture_output(p, capture, end, upto - 1)
    }
}

/// Category and outcome of the program packs among the sectors before
/// `upto`, for a program area that ends at `end`.
pub open spec fn capture_events<P: BlockCode, Q: BlockCode>(
    p: P,
    q: Q,
    capture: Seq<u8>,
    end: int,
    upto: int,
) -> Seq<(PackCategory, CorrectResult)>
    decreases upto,
{
    if upto <= 0 {
        seq![]
    } else if in_program(upto - 1, end) {
        capture_events(p, q, capture, end, upto - 1) + sector_events(
            p,
            q,
            capture,
            (upto - 1) as usize,
            4,
        )
    } else {
        capture_events(p, q, capture, end, upto - 1)
    }
}

/// The reports on the packs of sectors 2 up to `upto`: program sectors
/// are reported as decoded, the others as audited.
pub open spec fn middle_reports<P: BlockCode, Q: BlockCode>(
    p: P,
    q: Q,
    capture: Seq<u8>,
    end: int,
    upto: int,
) -> Seq<Anomaly>
    decreases upto,
{
    if upto <= 2 {
        seq![]
    } else if in_program(upto - 1, end) {
        middle_reports(p, q, capture, end, upto - 1) + program_reports(
            p,
            q,
            capture,
            (upto - 1) as usize,
            4,
        )
    } else {
        middle_reports(p, q, capture, end, upto - 1) + outside_reports(
            p,
            q,
            capture,
            (upto - 1) as usize,
            4,
        )
    }
}

/// Decodes a whole capture. `end_lba` is the program end that the table of
/// contents gives, if there is one; without it the program area runs to
/// the end of the capture.
///
/// The capture is refused when it is not a whole number of sectors or
/// holds fewer than two. Otherwise each program sector yields its four
/// packs after P, in capture order, each counted under its category; the
/// report holds the lead-in sectors' reports, then each later sector's
/// pack reports in order, then the tail sectors' reports.
pub fn decode_capture<P: BlockCode, Q: BlockCode>(
    capture: &[u8],
    end_lba: Option<usize>,
    p: &P,
    q: &Q,
) -> (r: Result<Decoded, CaptureError>)
    ensures
        r is Err <==> sectors_of(capture@.len() as int) is Err,
        r is Err ==> r->Err_0 == sectors_of(capture@.len() as int)->Err_0,
        r is Ok ==> {
            let d = r->Ok_0;
            let n = capture@.len() / 96;
            let end = program_end_of(n as usize, end_lba) as int;
            let events = capture_events(*p, *q, capture@, end, n as int);
            &&& d.stats.wf()
            &&& d.stats.all.total == 4 * program_sectors(n as int, end)
            &&& d.packs@ == capture_output(*p, capture@, end, n as int)
            &&& d.anomalies@ == lead_in_reports(capture@) + middle_reports(
                *p,
                *q,
                capture@,
                end,
                n as int,
            ) + tail_reports(capture@, n as usize)
            &&& tally(d.stats.all) == tally_events((0, 0, 0, 0), events, None)
            &&& forall|c: PackCategory| #[trigger]
                tally(d.stats.of(c)) == tally_events((0, 0, 0, 0), events, Some(c))
            &&& (!zero_sector(capture@, 0) || !zero_sector(capture@, 1)) ==> d.anomalies@.len() > 0
        },
{
    let n = match sector_count(capture.len()) {
        Ok(n) => n,
        Err(e) => {
            return Err(e);
        },
    };
    let end = program_end(n, end_lba);
    let _len = capture.len();
    let table = compute_deinterleave();
    let mut stats = Statistics::new();
    let mut packs: Vec<u8> = Vec::new();
    let mut anomalies: Vec<Anomaly> = Vec::new();

    audit_sector(&table, capture, 0, p, q, &mut anomalies);
    audit_sector(&table, capture, 1, p, q, &mut anomalies);
    assert(anomalies@ =~= lead_in_reports(capture@));
    let ghost lead = lead_in_reports(capture@);
    proof {
        assert(!in_program(0, end as int) && !in_program(1, end as int));
        assert(capture_output(*p, capture@, end as int, 0) =~= seq![]);
        assert(capture_output(*p, capture@, end as int, 1) =~= seq![]);
        assert(capture_output(*p, capture@, end as int, 2) =~= packs@);
        assert(capture_events(*p, *q, capture@, end as int, 1) =~= capture_events(
            *p,
            *q,
            capture@,
            end as int,
            0,
        ));
        assert(capture_events(*p, *q, capture@, end as int, 2) =~= Seq::<
            (PackCategory, CorrectResult),
        >::empty());
        assert(anomalies@ =~= lead + middle_reports(*p, *q, capture@, end as int, 2));
    }

    let mut sector: usize = 2;
    while sector < n
        invariant
            2 <= sector <= n,
            capture@.len() == n * 96,
            capture@.len() <= usize::MAX,
            table@ == deinterleave_table(),
            stats.wf(),
            stats.all.total == 4 * program_sectors(sector as int, end as int),
            packs@ == capture_output(*p, capture@, end as int, sector as int),
            lead == lead_in_reports(capture@),
            anomalies@ == lead + middle_reports(*p, *q, capture@, end as int, sector as int),
            tally(stats.all) == tally_events(
                (0, 0, 0, 0),
                capture_events(*p, *q, capture@, end as int, sector as int),
                None,
            ),
            forall|c: PackCategory| #[trigger]
                tally(stats.of(c)) == tally_events(
                    (0, 0, 0, 0),
                    capture_events(*p, *q, capture@, end as int, sector as int),
                    Some(c),
                ),
        decreases n - sector,
    {
        let ghost events = capture_events(*p, *q, capture@, end as int, sector as int);
        if sector < LEADIN_SKIP_SECTORS || sector >= end {
            audit_sector(&table, capture, sector, p, q, &mut anomalies);
            assert(anomalies@ =~= lead + middle_reports(
                *p,
                *q,
                capture@,
                end as int,
                sector + 1,
            ));
        } else {
            let ghost before = stats;
            decode_sector(&table, capture, sector, p, q, &mut stats, &mut packs, &mut anomalies);
            proof {
                let sev = sector_events(*p, *q, capture@, sector, 4);
                lemma_tally_concat((0, 0, 0, 0), events, sev, None);
                assert forall|c: PackCategory| #[trigger]
                    tally(stats.of(c)) == tally_events(
                        (0, 0, 0, 0),
                        capture_events(*p, *q, capture@, end as int, sector + 1),
                        Some(c),
                    ) by {
                    lemma_tally_concat((0, 0, 0, 0), events, sev, Some(c));
                    assert(tally(stats.of(c)) == tally_events(tally(before.of(c)), sev, Some(c)));
                }
                assert(anomalies@ =~= lead + middle_reports(
                    *p,
                    *q,
                    capture@,
                    end as int,
                    sector + 1,
                ));
            }
        }
        sector += 1;
    }
    check_tail(capture, n, &mut anomalies);
    Ok(Decoded { packs, stats, anomalies })
}

} // verus!
