use video_rs::error::Error;
use video_rs::extradata::extract_parameter_sets_h264;

/// A well-formed length-prefixed configuration record: a four-byte SPS and
/// two PPS entries of three and two bytes.
fn avcc_blob() -> Vec<u8> {
    vec![
        0x01, // record format marker
        0x64, 0x00, 0x1f, 0xff, 0xe1, // preamble bytes the parser skips
        0x00, 0x04, // SPS length
        0x67, 0x64, 0x00, 0x1f, // SPS
        0x02, // PPS count
        0x00, 0x03, // first PPS length
        0x68, 0xee, 0x3c, // first PPS
        0x00, 0x02, // second PPS length
        0x68, 0xef, // second PPS
    ]
}

#[test]
fn avcc_extraction_returns_sps_and_all_pps() {
    let blob = avcc_blob();
    let (sps, pps) = extract_parameter_sets_h264(&blob).unwrap();
    assert_eq!(sps, &[0x67, 0x64, 0x00, 0x1f]);
    assert_eq!(pps.len(), 2);
    assert_eq!(pps[0], &[0x68, 0xee, 0x3c]);
    assert_eq!(pps[1], &[0x68, 0xef]);
}

#[test]
fn avcc_truncated_pps_length_is_invalid() {
    // The second PPS claims five bytes but only two remain.
    let mut blob = avcc_blob();
    blob[19] = 0x05;
    assert_eq!(
        extract_parameter_sets_h264(&blob),
        Err(Error::InvalidExtraData)
    );
}

#[test]
fn avcc_sps_length_past_end_is_invalid() {
    let mut blob = avcc_blob();
    blob[7] = 0xff;
    assert_eq!(
        extract_parameter_sets_h264(&blob),
        Err(Error::InvalidExtraData)
    );
}

#[test]
fn avcc_missing_pps_count_is_invalid() {
    // Nothing follows the SPS.
    let blob = vec![0x01, 0x64, 0x00, 0x1f, 0xff, 0xe1, 0x00, 0x04, 0x67, 0x64, 0x00, 0x1f];
    assert_eq!(
        extract_parameter_sets_h264(&blob),
        Err(Error::InvalidExtraData)
    );
}

#[test]
fn annexb_extraction_keeps_first_sps_and_every_pps() {
    let blob = vec![
        0x00, 0x00, 0x01, // start code
        0x67, 0x64, 0x2a, // SPS
        0x00, 0x00, 0x01, // start code
        0x68, 0xee, // PPS
        0x00, 0x00, 0x00, 0x01, // four-byte start code
        0x68, 0xef, 0x3c, // PPS
    ];
    let (sps, pps) = extract_parameter_sets_h264(&blob).unwrap();
    assert_eq!(sps, &[0x67, 0x64, 0x2a]);
    assert_eq!(pps.len(), 2);
    assert_eq!(pps[0], &[0x68, 0xee]);
    assert_eq!(pps[1], &[0x68, 0xef, 0x3c]);
}

#[test]
fn annexb_without_sps_is_invalid() {
    let blob = vec![0x00, 0x00, 0x01, 0x68, 0xee, 0x3c];
    assert_eq!(
        extract_parameter_sets_h264(&blob),
        Err(Error::InvalidExtraData)
    );
}

#[test]
fn annexb_without_start_code_is_invalid() {
    let blob = vec![0x00, 0x42, 0x42, 0x42];
    assert_eq!(
        extract_parameter_sets_h264(&blob),
        Err(Error::InvalidExtraData)
    );
}

#[test]
fn annexb_empty_unit_is_invalid() {
    // Two start codes back to back delimit a unit with no content.
    let blob = vec![0x00, 0x00, 0x01, 0x00, 0x00, 0x01, 0x67, 0x64];
    assert_eq!(
        extract_parameter_sets_h264(&blob),
        Err(Error::InvalidExtraData)
    );
}

#[test]
fn empty_extradata_is_invalid() {
    assert_eq!(
        extract_parameter_sets_h264(&[]),
        Err(Error::InvalidExtraData)
    );
}

#[test]
fn unknown_leading_byte_is_invalid() {
    assert_eq!(
        extract_parameter_sets_h264(&[0x02, 0x00, 0x00]),
        Err(Error::InvalidExtraData)
    );
}
