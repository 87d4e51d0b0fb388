use subcode::deinterleave::{compute_deinterleave, deinterleave_and_mask, pack_of, source_offset_of};

#[test]
fn table_has_one_offset_per_output_byte() {
    let table = compute_deinterleave();
    assert_eq!(table.len(), 96);
    for (i, off) in table.iter().enumerate() {
        assert_eq!(*off, source_offset_of(i));
        assert!(*off < 288);
    }
}

#[test]
fn table_applies_swaps_and_lookahead() {
    let table = compute_deinterleave();
    // column 0 of pack 0 is read in place
    assert_eq!(table[0], 0);
    // column 1 is read from column 18, delayed by 18 % 8 = 2 packs
    assert_eq!(table[1], (0 + 2) * 24 + 18);
    // column 18 is read from column 1, delayed by 1 pack
    assert_eq!(table[18], (0 + 1) * 24 + 1);
    // column 2 <-> 5, column 3 <-> 23
    assert_eq!(table[2], (0 + 5) * 24 + 5);
    assert_eq!(table[5], (0 + 2) * 24 + 2);
    assert_eq!(table[3], (0 + 7) * 24 + 23);
    assert_eq!(table[23], (0 + 3) * 24 + 3);
    // an unswapped column keeps its own delay
    assert_eq!(table[7], (0 + 7) * 24 + 7);
    // later packs start one pack further on
    assert_eq!(table[24], 24);
    assert_eq!(table[95], (3 + 3) * 24 + 3);
}

#[test]
fn table_is_injective() {
    let table = compute_deinterleave();
    let mut seen = vec![false; 288];
    for off in table {
        assert!(!seen[off]);
        seen[off] = true;
    }
}

#[test]
fn zero_window_gives_zero_sector() {
    let table = compute_deinterleave();
    let window = vec![0u8; 288];
    let out = deinterleave_and_mask(&table, &window);
    assert_eq!(out, vec![0u8; 96]);
}

#[test]
fn channel_bits_are_masked() {
    let table = compute_deinterleave();
    let window = vec![0xffu8; 288];
    let out = deinterleave_and_mask(&table, &window);
    assert_eq!(out, vec![0x3fu8; 96]);
}

#[test]
fn each_output_byte_comes_from_its_offset() {
    let table = compute_deinterleave();
    let window: Vec<u8> = (0..288).map(|k| (k % 251) as u8).collect();
    let out = deinterleave_and_mask(&table, &window);
    for i in 0..96 {
        assert_eq!(out[i], window[table[i]] & 0x3f);
    }
}

#[test]
fn pack_of_splits_a_sector() {
    let sector: Vec<u8> = (0..96).map(|k| k as u8).collect();
    assert_eq!(pack_of(&sector, 0), (0..24).map(|k| k as u8).collect::<Vec<u8>>());
    assert_eq!(pack_of(&sector, 3), (72..96).map(|k| k as u8).collect::<Vec<u8>>());
}
