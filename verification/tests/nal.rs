use prtsc::access_unit::AccessUnit;
use prtsc::nal::{split_annex_b_nal, NAL_TYPE_PPS, NAL_TYPE_SPS};

fn unit_of(nals: &[&[u8]]) -> AccessUnit {
    let mut unit = AccessUnit::new();
    for nal in nals {
        unit.push_nal(nal);
    }
    unit
}

#[test]
fn splits_after_either_start_code() {
    assert_eq!(split_annex_b_nal(&[0, 0, 0, 1, 0x67, 9, 8]), Some((7, &[0x67u8, 9, 8][..])));
    assert_eq!(split_annex_b_nal(&[0, 0, 1, 0x68, 9]), Some((8, &[0x68u8, 9][..])));
    assert_eq!(split_annex_b_nal(&[0, 0, 1, 0xff]), Some((31, &[0xffu8][..])));
}

#[test]
fn splits_off_one_start_code_only() {
    let doubled = [0u8, 0, 1, 0, 0, 1, 0x65];
    assert_eq!(split_annex_b_nal(&doubled), Some((0, &[0u8, 0, 1, 0x65][..])));
}

#[test]
fn has_nothing_to_split_without_start_code_or_payload() {
    assert_eq!(split_annex_b_nal(&[]), None);
    assert_eq!(split_annex_b_nal(&[0, 0]), None);
    assert_eq!(split_annex_b_nal(&[0, 0, 1]), None);
    assert_eq!(split_annex_b_nal(&[0, 0, 0, 1]), None);
    assert_eq!(split_annex_b_nal(&[0, 0, 0, 0, 1, 0x65]), None);
    assert_eq!(split_annex_b_nal(&[0x65, 1, 2, 3]), None);
}

#[test]
fn sorts_parameter_sets_from_sample_units() {
    assert_eq!((NAL_TYPE_SPS, NAL_TYPE_PPS), (7, 8));
    let unit = unit_of(&[
        &[0, 0, 0, 1, 0x67, 1, 2, 3],
        &[0, 0, 0, 1, 0x68, 4],
        &[0, 0, 0, 1, 0x65, 5, 6],
        &[0, 0, 1, 0x41, 7],
    ]);
    assert_eq!(unit.sps, Some(vec![0x67, 1, 2, 3]));
    assert_eq!(unit.pps, Some(vec![0x68, 4]));
    assert_eq!(unit.sample, vec![0, 0, 0, 3, 0x65, 5, 6, 0, 0, 0, 2, 0x41, 7]);
}

#[test]
fn keeps_the_last_parameter_set_of_each_type() {
    let unit = unit_of(&[&[0, 0, 1, 0x67, 1], &[0, 0, 1, 0x27, 2], &[0, 0, 1, 0x68, 3]]);
    assert_eq!(unit.sps, Some(vec![0x27, 2]));
    assert_eq!(unit.pps, Some(vec![0x68, 3]));
    assert!(unit.sample.is_empty());
}

#[test]
fn passes_over_units_without_start_code() {
    let unit = unit_of(&[&[0x67, 1, 2, 3], &[0, 0, 1]]);
    assert_eq!(unit.sps, None);
    assert_eq!(unit.pps, None);
    assert!(unit.sample.is_empty());
}

#[test]
fn writes_lengths_most_significant_byte_first() {
    let mut nal = vec![0u8, 0, 1, 0x65];
    nal.resize(3 + 0x1_0203, 0xaa);
    let unit = unit_of(&[&nal]);
    assert_eq!(&unit.sample[..5], &[0, 1, 2, 3, 0x65]);
    assert_eq!(unit.sample.len(), 4 + 0x1_0203);
}

#[test]
fn a_sample_reads_back_unit_by_unit() {
    let unit = unit_of(&[&[0, 0, 1, 0x65, 1], &[0, 0, 1, 0x68, 9], &[0, 0, 1, 0x06]]);
    let mut rest = &unit.sample[..];
    let mut read: Vec<Vec<u8>> = Vec::new();
    while !rest.is_empty() {
        let len = u32::from_be_bytes([rest[0], rest[1], rest[2], rest[3]]) as usize;
        read.push(rest[4..4 + len].to_vec());
        rest = &rest[4 + len..];
    }
    assert_eq!(read, vec![vec![0x65, 1], vec![0x06]]);
}
