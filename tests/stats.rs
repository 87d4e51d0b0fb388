use subcode::codec::CorrectResult;
use subcode::stats::{categorize, PackCategory, PackCount, Statistics};

fn outcome(p_corrected: bool, p_uncorrected: bool, q_error: bool) -> CorrectResult {
    CorrectResult { p_corrected, p_uncorrected, q_error }
}

#[test]
fn categories_by_mode_and_item() {
    assert_eq!(categorize(0x00, false), PackCategory::Zero);
    assert_eq!(categorize(0x07, false), PackCategory::Zero);
    assert_eq!(categorize(0x08, false), PackCategory::LineGraphics);
    assert_eq!(categorize(0x09, false), PackCategory::CdG);
    assert_eq!(categorize(0x0a, false), PackCategory::CdEg);
    assert_eq!(categorize(0x0b, false), PackCategory::OtherGraphics);
    assert_eq!(categorize(0x0f, false), PackCategory::OtherGraphics);
    assert_eq!(categorize(0x10, false), PackCategory::Other);
    assert_eq!(categorize(0x3f, false), PackCategory::Other);
}

#[test]
fn q_error_makes_a_pack_other() {
    assert_eq!(categorize(0x00, true), PackCategory::Other);
    assert_eq!(categorize(0x09, true), PackCategory::Other);
}

#[test]
fn new_count_is_empty_and_named() {
    let c = PackCount::new("CD+G");
    assert_eq!(c.name, "CD+G");
    assert_eq!((c.total, c.p_corrected, c.p_uncorrected, c.q_error), (0, 0, 0, 0));
    assert!(c.is_empty());
}

#[test]
fn count_records_each_flag() {
    let mut c = PackCount::new("x");
    c.record(outcome(true, false, false));
    c.record(outcome(false, true, true));
    c.record(outcome(false, false, false));
    assert_eq!((c.total, c.p_corrected, c.p_uncorrected, c.q_error), (3, 1, 1, 1));
    assert!(!c.is_empty());
}

#[test]
fn statistics_count_all_and_one_category() {
    let mut s = Statistics::new();
    s.record(PackCategory::CdG, outcome(true, false, false));
    s.record(PackCategory::Zero, outcome(false, false, false));
    s.record(PackCategory::Other, outcome(false, true, true));
    assert_eq!(s.all.total, 3);
    assert_eq!(s.all.p_corrected, 1);
    assert_eq!(s.all.p_uncorrected, 1);
    assert_eq!(s.all.q_error, 1);
    assert_eq!(s.count(PackCategory::CdG).total, 1);
    assert_eq!(s.count(PackCategory::CdG).p_corrected, 1);
    assert_eq!(s.count(PackCategory::Zero).total, 1);
    assert_eq!(s.count(PackCategory::Other).q_error, 1);
    assert_eq!(s.count(PackCategory::LineGraphics).total, 0);
    assert_eq!(s.count(PackCategory::CdEg).total, 0);
    assert_eq!(s.count(PackCategory::OtherGraphics).total, 0);
    assert_eq!(s.all.name, "All");
    assert_eq!(s.other_graphics.name, "other graphics");
}
