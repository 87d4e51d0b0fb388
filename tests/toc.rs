use subcode::toc::{parse_end_lba, TocError};

fn toc_with_tracks(tracks: &[(u8, u32)]) -> Vec<u8> {
    let data_length = 2 + 8 * tracks.len();
    let mut toc = vec![(data_length >> 8) as u8, data_length as u8, 1, 1];
    for (number, address) in tracks {
        toc.extend_from_slice(&[0, 0x14, *number, 0]);
        toc.extend_from_slice(&address.to_be_bytes());
    }
    toc
}

#[test]
fn single_lead_out_gives_its_address() {
    let toc = toc_with_tracks(&[(0xaa, 1000)]);
    assert_eq!(toc.len(), 12);
    assert_eq!(parse_end_lba(&toc), Ok(1000));
}

#[test]
fn lead_out_is_the_last_descriptor() {
    let toc = toc_with_tracks(&[(1, 0), (2, 15000), (0xaa, 0x0102_0304)]);
    assert_eq!(parse_end_lba(&toc), Ok(0x0102_0304));
}

#[test]
fn length_field_mismatch_is_refused() {
    let mut toc = toc_with_tracks(&[(0xaa, 1000)]);
    toc[1] = 11;
    assert_eq!(parse_end_lba(&toc), Err(TocError::LengthMismatch));
    let mut longer = toc_with_tracks(&[(0xaa, 1000)]);
    longer.push(0);
    assert_eq!(parse_end_lba(&longer), Err(TocError::LengthMismatch));
}

#[test]
fn short_buffers_are_refused() {
    assert_eq!(parse_end_lba(&[]), Err(TocError::TooShort));
    assert_eq!(parse_end_lba(&[0]), Err(TocError::TooShort));
    assert_eq!(parse_end_lba(&[0, 0]), Err(TocError::NoTracks));
    assert_eq!(parse_end_lba(&[0, 2, 1, 1]), Err(TocError::NoTracks));
}

#[test]
fn partial_descriptor_is_refused() {
    let mut toc = toc_with_tracks(&[(0xaa, 1000)]);
    toc.push(0);
    toc[1] = 11;
    assert_eq!(parse_end_lba(&toc), Err(TocError::TrailingBytes));
}

#[test]
fn last_descriptor_must_be_lead_out() {
    let toc = toc_with_tracks(&[(0xaa, 1000), (3, 2000)]);
    assert_eq!(parse_end_lba(&toc), Err(TocError::NotLeadOut));
}
