use molcv::settings::{encode_settings, SettingsRecord};

#[test]
fn record_is_three_integers_followed_by_the_cutoffs() {
    let bytes = encode_settings(35, 3, 1, &[10.0f32.to_bits(), 2.5f32.to_bits()]);
    let mut expected = Vec::new();
    expected.extend_from_slice(&35u32.to_le_bytes());
    expected.extend_from_slice(&3u32.to_le_bytes());
    expected.extend_from_slice(&1u32.to_le_bytes());
    expected.extend_from_slice(&10.0f32.to_le_bytes());
    expected.extend_from_slice(&2.5f32.to_le_bytes());
    assert_eq!(bytes, expected);
    assert_eq!(bytes.len(), 20);
}

#[test]
fn record_bytes_are_exact() {
    let record = SettingsRecord {
        atom_count: 0x0102_0304,
        target_residue_count: 2,
        target_residue_start: 0xffff_ffff,
        cutoffs: vec![0x4120_0000],
    };
    assert_eq!(
        record.encode(),
        vec![4, 3, 2, 1, 2, 0, 0, 0, 255, 255, 255, 255, 0, 0, 0x20, 0x41]
    );
}

#[test]
fn record_without_cutoffs_is_twelve_bytes() {
    assert_eq!(encode_settings(1, 2, 3, &[]), vec![1, 0, 0, 0, 2, 0, 0, 0, 3, 0, 0, 0]);
}
