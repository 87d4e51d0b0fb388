use subcode::audit::outside_flag;
use subcode::capture::{has_rw_payload, is_zero_sector, relative_sector, sector_count, Anomaly, CaptureError};
use subcode::codec::{BlockCode, CorrectResult, Unrecoverable};
use subcode::deinterleave::compute_deinterleave;
use subcode::layout::LEADIN_SKIP_SECTORS;
use subcode::pipeline::{decode_capture, program_end};

/// Stand-in code: a block is a codeword when its symbols XOR to zero.
struct XorCode;

impl BlockCode for XorCode {
    fn accepts(&self, block: &[u8]) -> bool {
        block.iter().fold(0, |a, b| a ^ b) == 0
    }

    fn repair(&self, _block: &[u8]) -> Option<Vec<u8>> {
        None
    }

    fn is_correct(&self, block: &[u8]) -> bool {
        self.accepts(block)
    }

    fn correct_errors(&self, _block: &[u8]) -> Result<Vec<u8>, Unrecoverable> {
        Err(Unrecoverable)
    }
}

/// Writes `pack` as pack `k` of program sector `sector`, spread over the
/// raw bytes that the interleave reads it from.
fn place_pack(capture: &mut [u8], sector: usize, k: usize, pack: &[u8]) {
    let table = compute_deinterleave();
    for j in 0..24 {
        capture[(sector - 2) * 96 + table[k * 24 + j]] = pack[j];
    }
}

#[test]
fn capture_must_be_whole_sectors() {
    let capture = vec![0u8; 96 * 3 + 1];
    assert_eq!(decode_capture(&capture, None, &XorCode, &XorCode).err(), Some(CaptureError::Misaligned));
    assert_eq!(sector_count(95), Err(CaptureError::Misaligned));
    assert_eq!(sector_count(192), Ok(2));
}

#[test]
fn capture_needs_two_sectors() {
    let capture = vec![0u8; 96];
    assert_eq!(decode_capture(&capture, None, &XorCode, &XorCode).err(), Some(CaptureError::TooShort));
    assert_eq!(sector_count(0), Err(CaptureError::TooShort));
}

#[test]
fn program_end_adds_the_lead_in() {
    assert_eq!(program_end(10, Some(1000)), LEADIN_SKIP_SECTORS + 1000);
    assert_eq!(program_end(10, None), LEADIN_SKIP_SECTORS + 10);
    assert_eq!(program_end(10, Some(usize::MAX)), usize::MAX);
    assert_eq!(LEADIN_SKIP_SECTORS, 45150);
}

#[test]
fn relative_sectors_count_from_the_program_start() {
    assert_eq!(relative_sector(LEADIN_SKIP_SECTORS + 7), 7);
    assert_eq!(relative_sector(0), -45150);
}

#[test]
fn one_cdg_pack_in_ten_program_sectors() {
    let n = LEADIN_SKIP_SECTORS + 10;
    let mut capture = vec![0u8; n * 96];
    let mut pack = vec![0u8; 24];
    pack[0] = 0x09;
    pack[3] = 0x09;
    place_pack(&mut capture, LEADIN_SKIP_SECTORS + 4, 2, &pack);
    let d = decode_capture(&capture, None, &XorCode, &XorCode).unwrap();
    assert_eq!(d.stats.all.total, 40);
    assert_eq!(d.stats.cdg.total, 1);
    assert_eq!(d.stats.zero.total, 39);
    assert_eq!(d.stats.other.total, 0);
    assert!(d.anomalies.is_empty());
    assert!(!d.oddity());
    assert_eq!(d.packs.len(), 40 * 24);
    let at = (4 * 4 + 2) * 24;
    assert_eq!(&d.packs[at..at + 24], &pack[..]);
    assert!(d.packs[..at].iter().all(|b| *b == 0));
    assert!(d.packs[at + 24..].iter().all(|b| *b == 0));
}

#[test]
fn table_of_contents_bounds_the_program() {
    let n = LEADIN_SKIP_SECTORS + 10;
    let capture = vec![0u8; n * 96];
    let d = decode_capture(&capture, Some(6), &XorCode, &XorCode).unwrap();
    assert_eq!(d.stats.all.total, 24);
    assert_eq!(d.packs.len(), 24 * 24);
    assert!(!d.oddity());
}

#[test]
fn short_capture_has_no_program() {
    let capture = vec![0u8; 5 * 96];
    let d = decode_capture(&capture, None, &XorCode, &XorCode).unwrap();
    assert_eq!(d.stats.all.total, 0);
    assert!(d.packs.is_empty());
    assert!(!d.oddity());
}

#[test]
fn non_zero_lead_in_is_reported_and_run_goes_on() {
    let mut capture = vec![0u8; 6 * 96];
    for b in capture[0..192].iter_mut() {
        *b = 0x40;
    }
    let d = decode_capture(&capture, None, &XorCode, &XorCode).unwrap();
    assert!(d.oddity());
    assert_eq!(d.anomalies[0], Anomaly::LeadInSector { sector: 0 });
    assert_eq!(d.anomalies[1], Anomaly::LeadInSector { sector: 1 });
    // the channel bits alone carry no mode, so no pack is flagged
    assert_eq!(d.anomalies.len(), 2);
}

#[test]
fn payload_near_lead_in_flags_packs() {
    let mut capture = vec![0u8; 6 * 96];
    capture[0] = 0x08;
    let d = decode_capture(&capture, None, &XorCode, &XorCode).unwrap();
    assert_eq!(d.anomalies[0], Anomaly::LeadInSector { sector: 0 });
    // raw byte 0 is pack 0, column 0 of sector 2: mode 1 and a failed Q
    assert_eq!(d.anomalies[1], Anomaly::PackOutsideProgram { sector: 2, pack: 0 });
    assert_eq!(d.anomalies.len(), 2);
}

#[test]
fn payload_in_last_sectors_is_reported() {
    let mut capture = vec![0u8; 6 * 96];
    capture[5 * 96 + 10] = 0xc1;
    capture[4 * 96 + 95] = 0xc0;
    let d = decode_capture(&capture, None, &XorCode, &XorCode).unwrap();
    assert_eq!(d.anomalies.last(), Some(&Anomaly::TailSector { sector: 5 }));
    assert!(!d.anomalies.contains(&Anomaly::TailSector { sector: 4 }));
    assert!(has_rw_payload(&capture, 5));
    assert!(!has_rw_payload(&capture, 4));
    assert!(!is_zero_sector(&capture, 4));
}

#[test]
fn bad_program_pack_is_flagged_and_counted_as_other() {
    let n = LEADIN_SKIP_SECTORS + 3;
    let mut capture = vec![0u8; n * 96];
    let mut pack = vec![0u8; 24];
    pack[0] = 0x09;
    place_pack(&mut capture, LEADIN_SKIP_SECTORS + 1, 0, &pack);
    let d = decode_capture(&capture, None, &XorCode, &XorCode).unwrap();
    let sector = LEADIN_SKIP_SECTORS + 1;
    assert_eq!(d.anomalies[0], Anomaly::PUncorrected { sector, pack: 0 });
    assert_eq!(d.anomalies[1], Anomaly::QError { sector, pack: 0, head: 0x0900_0000 });
    assert_eq!(d.anomalies.len(), 2);
    assert_eq!(d.stats.all.total, 12);
    assert_eq!(d.stats.other.total, 1);
    assert_eq!(d.stats.other.p_uncorrected, 1);
    assert_eq!(d.stats.other.q_error, 1);
    assert_eq!(d.stats.all.q_error, 1);
    assert_eq!(d.stats.zero.total, 11);
}

#[test]
fn outside_flag_marks_q_p_and_mode() {
    let clean = CorrectResult { p_corrected: false, p_uncorrected: false, q_error: false };
    assert!(!outside_flag(clean, 0x07));
    assert!(outside_flag(clean, 0x08));
    assert!(!outside_flag(CorrectResult { p_corrected: true, ..clean }, 0x00));
    assert!(outside_flag(CorrectResult { p_uncorrected: true, ..clean }, 0x00));
    assert!(outside_flag(CorrectResult { q_error: true, ..clean }, 0x00));
}
