//! Pack categories and the counters kept for each of them.
use vstd::prelude::*;

use crate::codec::CorrectResult;

verus! {

/// What a pack carries, judged from its first byte once it was checked.
#[derive(Debug, Clone, Copy, PartialEq, Eq, Structural)]
pub enum PackCategory {
    Zero,
    LineGraphics,
    CdG,
    CdEg,
    OtherGraphics,
    Other,
}

/// The category of a pack whose first byte is `byte0`. A pack that failed
/// Q is `Other` whatever it holds; otherwise the mode (top five bits)
/// decides, and for graphics mode 1 the item (low three bits).
pub open spec fn category_of(byte0: u8, q_error: bool) -> PackCategory {
    if q_error {
        PackCategory::Other
    } else if byte0 >> 3u8 == 0 {
        PackCategory::Zero
    } else if byte0 >> 3u8 == 1 {
        if byte0 & 7 == 0 {
            PackCategory::LineGraphics
        } else if byte0 & 7 == 1 {
            PackCategory::CdG
        } else if byte0 & 7 == 2 {
            PackCategory::CdEg
        } else {
            PackCategory::OtherGraphics
        }
    } else {
        PackCategory::Other
    }
}

/// Assigns a checked pack to its category.
pub fn categorize(byte0: u8, q_error: bool) -> (c: PackCategory)
    ensures
        c == category_of(byte0, q_error),
{
    if q_error {
        return PackCategory::Other;
    }
    match byte0 >> 3 {
        0 => PackCategory::Zero,
        1 => match byte0 & 0b111 {
            0 => PackCategory::LineGraphics,
            1 => PackCategory::CdG,
            2 => PackCategory::CdEg,
            _ => PackCategory::OtherGraphics,
        },
        _ => PackCategory::Other,
    }
}

/// Counters for one category of packs.
pub struct PackCount {
    pub total: usize,
    pub p_corrected: usize,
    pub p_uncorrected: usize,
    pub q_error: usize,
    pub name: String,
}

/// 1 where `b` holds, else 0.
pub open spec fn flag(b: bool) -> int {
    if b {
        1
    } else {
        0
    }
}

/// The four counters of `c`: total, P-corrected, P-uncorrected, Q errors.
pub open spec fn tally(c: PackCount) -> (int, int, int, int) {
    (c.total as int, c.p_corrected as int, c.p_uncorrected as int, c.q_error as int)
}

/// Counters `t` with one more pack of outcome `r`.
pub open spec fn bump(t: (int, int, int, int), r: CorrectResult) -> (int, int, int, int) {
    (t.0 + 1, t.1 + flag(r.p_corrected), t.2 + flag(r.p_uncorrected), t.3 + flag(r.q_error))
}

/// Counters `t` after the packs of `events` (category and outcome, in
/// order) are counted; where `only` names a category, the other
/// categories' packs are passed over.
pub open spec fn tally_events(
    t: (int, int, int, int),
    events: Seq<(PackCategory, CorrectResult)>,
    only: Option<PackCategory>,
) -> (int, int, int, int)
    decreases events.len(),
{
    if events.len() == 0 {
        t
    } else {
        let prev = tally_events(t, events.drop_last(), only);
        let e = events.last();
        if only is None || only == Some(e.0) {
            bump(prev, e.1)
        } else {
            prev
        }
    }
}

/// Counting `a` then `b` is counting `a + b`.
pub proof fn lemma_tally_concat(
    t: (int, int, int, int),
    a: Seq<(PackCategory, CorrectResult)>,
    b: Seq<(PackCategory, CorrectResult)>,
    only: Option<PackCategory>,
)
    ensures
        tally_events(t, a + b, only) == tally_events(tally_events(t, a, only), b, only),
    decreases b.len(),
{
    if b.len() > 0 {
        assert((a + b).drop_last() =~= a + b.drop_last());
        lemma_tally_concat(t, a, b.drop_last(), only);
    } else {
        assert(a + b =~= a);
    }
}

impl PackCount {
    /// No counter exceeds the number of packs counted.
    pub open spec fn wf(&self) -> bool {
        &&& self.p_corrected <= self.total
        &&& self.p_uncorrected <= self.total
        &&& self.q_error <= self.total
    }

    /// `after` is `self` with one more pack of outcome `r` counted.
    pub open spec fn counted(&self, after: PackCount, r: CorrectResult) -> bool {
        &&& after.total == self.total + 1
        &&& after.p_corrected == self.p_corrected + flag(r.p_corrected)
        &&& after.p_uncorrected == self.p_uncorrected + flag(r.p_uncorrected)
        &&& after.q_error == self.q_error + flag(r.q_error)
        &&& after.name@ == self.name@
    }

    /// Counters at zero under the given name.
    pub fn new(name: &str) -> (r: Self)
        ensures
            r.total == 0,
            r.p_corrected == 0,
            r.p_uncorrected == 0,
            r.q_error == 0,
            r.name@ == name@,
            r.wf(),
    {
        PackCount {
            total: 0,
            p_corrected: 0,
            p_uncorrected: 0,
            q_error: 0,
            name: String::from_str(name),
        }
    }

    /// Counts one more pack with outcome `r`.
    pub fn record(&mut self, r: CorrectResult)
        requires
            old(self).wf(),
            old(self).total < usize::MAX,
        ensures
            old(self).counted(*final(self), r),
            final(self).wf(),
    {
        self.total = self.total + 1;
        if r.p_corrected {
            self.p_corrected = self.p_corrected + 1;
        }
        if r.p_uncorrected {
            self.p_uncorrected = self.p_uncorrected + 1;
        }
        if r.q_error {
            self.q_error = self.q_error + 1;
        }
    }

    /// Whether any pack was counted, that is whether it is worth reporting.
    pub fn is_empty(&self) -> (r: bool)
        ensures
            r == (self.total == 0),
    {
        self.total == 0
    }
}

/// Counters for all packs and for each category.
pub struct Statistics {
    pub all: PackCount,
    pub zero: PackCount,
    pub line_graphics: PackCount,
    pub cdg: PackCount,
    pub cdeg: PackCount,
    pub other_graphics: PackCount,
    pub other: PackCount,
}

impl Statistics {
    /// The counters of category `c`.
    pub open spec fn of(&self, c: PackCategory) -> PackCount {
        match c {
            PackCategory::Zero => self.zero,
            PackCategory::LineGraphics => self.line_graphics,
            PackCategory::CdG => self.cdg,
            PackCategory::CdEg => self.cdeg,
            PackCategory::OtherGraphics => self.other_graphics,
            PackCategory::Other => self.other,
        }
    }

    /// Each counter of `all` is the sum of that counter over the categories.
    pub open spec fn wf(&self) -> bool {
        &&& self.all.wf()
        &&& self.zero.wf()
        &&& self.line_graphics.wf()
        &&& self.cdg.wf()
        &&& self.cdeg.wf()
        &&& self.other_graphics.wf()
        &&& self.other.wf()
        &&& self.all.total == self.zero.total + self.line_graphics.total + self.cdg.total
            + self.cdeg.total + self.other_graphics.total + self.other.total
        &&& self.all.p_corrected == self.zero.p_corrected + self.line_graphics.p_corrected
            + self.cdg.p_corrected + self.cdeg.p_corrected + self.other_graphics.p_corrected
            + self.other.p_corrected
        &&& self.all.p_uncorrected == self.zero.p_uncorrected + self.line_graphics.p_uncorrected
            + self.cdg.p_uncorrected + self.cdeg.p_uncorrected
            + self.other_graphics.p_uncorrected + self.other.p_uncorrected
        &&& self.all.q_error == self.zero.q_error + self.line_graphics.q_error + self.cdg.q_error
            + self.cdeg.q_error + self.other_graphics.q_error + self.other.q_error
    }

    /// Nothing counted yet.
    pub open spec fn is_zero(&self) -> bool {
        &&& self.all.total == 0
        &&& self.all.p_corrected == 0
        &&& self.all.p_uncorrected == 0
        &&& self.all.q_error == 0
    }

    /// `after` is `self` with one more pack of category `c` and outcome `r`.
    pub open spec fn counted(&self, after: Statistics, c: PackCategory, r: CorrectResult) -> bool {
        &&& self.all.counted(after.all, r)
        &&& forall|d: PackCategory|
            #![trigger after.of(d)]
            if d == c {
                self.of(d).counted(after.of(d), r)
            } else {
                after.of(d) == self.of(d)
            }
    }

    /// `after` is `self` with the packs of `events` counted, in all and each
    /// under its category.
    pub open spec fn counted_all(&self, after: Statistics, events: Seq<(PackCategory, CorrectResult)>) -> bool {
        &&& tally(after.all) == tally_events(tally(self.all), events, None)
        &&& forall|d: PackCategory|
            #![trigger after.of(d)]
            tally(after.of(d)) == tally_events(tally(self.of(d)), events, Some(d))
    }

    /// All counters at zero.
    pub fn new() -> (r: Self)
        ensures
            r.wf(),
            r.is_zero(),
            tally(r.all) == (0int, 0int, 0int, 0int),
            forall|d: PackCategory| #[trigger] tally(r.of(d)) == (0int, 0int, 0int, 0int),
    {
        Statistics {
            all: PackCount::new("All"),
            zero: PackCount::new("zero"),
            line_graphics: PackCount::new("line graphics"),
            cdg: PackCount::new("CD+G"),
            cdeg: PackCount::new("CD+EG"),
            other_graphics: PackCount::new("other graphics"),
            other: PackCount::new("other"),
        }
    }

    /// The counters of category `c`.
    pub fn count(&self, c: PackCategory) -> (r: &PackCount)
        ensures
            *r == self.of(c),
    {
        match c {
            PackCategory::Zero => &self.zero,
            PackCategory::LineGraphics => &self.line_graphics,
            PackCategory::CdG => &self.cdg,
            PackCategory::CdEg => &self.cdeg,
            PackCategory::OtherGraphics => &self.other_graphics,
            PackCategory::Other => &self.other,
        }
    }

    /// Counts one more pack of category `c` with outcome `r`.
    pub fn record(&mut self, c: PackCategory, r: CorrectResult)
        requires
            old(self).wf(),
            old(self).all.total < usize::MAX,
        ensures
            old(self).counted(*final(self), c, r),
            final(self).wf(),
    {
        self.all.record(r);
        match c {
            PackCategory::Zero => self.zero.record(r),
            PackCategory::LineGraphics => self.line_graphics.record(r),
            PackCategory::CdG => self.cdg.record(r),
            PackCategory::CdEg => self.cdeg.record(r),
            PackCategory::OtherGraphics => self.other_graphics.record(r),
            PackCategory::Other => self.other.record(r),
        }
    }
}

} // verus!
