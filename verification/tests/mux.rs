use video_rs::error::Error;
use video_rs::mux::MuxerBuilder;
use video_rs::packet::Packet;
use video_rs::stream::{H264_CODEC_ID, StreamInfo};
use video_rs::time::Rational;

fn two_stream_muxer() -> video_rs::mux::Muxer {
    let video = StreamInfo::from_params(H264_CODEC_ID, Rational::new(1, 16), 0).unwrap();
    let data = StreamInfo::from_params(99, Rational::new(1, 1000), 2).unwrap();
    MuxerBuilder::new()
        .with_stream(video)
        .unwrap()
        .with_stream(data)
        .unwrap()
        .build()
}

#[test]
fn mux_writes_header_on_first_call_only() {
    let mut muxer = two_stream_muxer();
    let tbs = vec![Rational::new(1, 8), Rational::new(1, 8)];
    let packet = Packet::new(0, Some(3), Some(2), 4, true, Rational::new(1, 16));
    let step = muxer.mux(packet.clone(), &tbs);
    assert!(step.write_header_first);
    let step = muxer.mux(packet, &tbs);
    assert!(!step.write_header_first);
}

#[test]
fn mux_routes_and_rescales() {
    let mut muxer = two_stream_muxer();
    let tbs = vec![Rational::new(1, 8), Rational::new(1, 8)];
    // Stream 2 maps to destination stream 1; ticks of 1/1000 seconds
    // become ticks of 1/8 seconds, rounded to nearest.
    let packet = Packet::new(2, Some(1000), Some(900), 600, false, Rational::new(1, 1000));
    let routed = muxer.mux(packet, &tbs).routed.unwrap();
    assert_eq!(routed.stream_index, 1);
    assert_eq!(routed.pts, Some(8)); // 1.0 s
    assert_eq!(routed.dts, Some(7)); // 0.9 s is 7.2 ticks
    assert_eq!(routed.duration, 5); // 0.6 s is 4.8 ticks
    assert_eq!(routed.position, -1);
    assert_eq!(routed.time_base, Rational::new(1, 8));
    assert!(!routed.key);
}

#[test]
fn mux_unmapped_stream_is_not_found() {
    let mut muxer = two_stream_muxer();
    let tbs = vec![Rational::new(1, 8), Rational::new(1, 8)];
    let packet = Packet::new(7, Some(1), None, 0, false, Rational::new(1, 16));
    let step = muxer.mux(packet, &tbs);
    assert!(step.write_header_first);
    assert_eq!(step.routed, Err(Error::StreamNotFound));
}

#[test]
fn mux_missing_destination_stream_is_not_found() {
    let mut muxer = two_stream_muxer();
    // The writer reports only one output stream, but stream 2 maps to the
    // second.
    let tbs = vec![Rational::new(1, 8)];
    let packet = Packet::new(2, Some(1), None, 0, false, Rational::new(1, 1000));
    let step = muxer.mux(packet, &tbs);
    assert_eq!(step.routed, Err(Error::StreamNotFound));
}

#[test]
fn later_mapping_entries_replace_earlier_ones() {
    let first = StreamInfo::from_params(H264_CODEC_ID, Rational::new(1, 16), 0).unwrap();
    let second = StreamInfo::from_params(H264_CODEC_ID, Rational::new(1, 32), 0).unwrap();
    let mut muxer = MuxerBuilder::new()
        .with_stream(first)
        .unwrap()
        .with_stream(second)
        .unwrap()
        .build();
    let tbs = vec![Rational::new(1, 8), Rational::new(1, 8)];
    let packet = Packet::new(0, Some(32), None, 0, false, Rational::new(1, 32));
    let routed = muxer.mux(packet, &tbs).routed.unwrap();
    // The replacement entry routes to destination stream 1 and rescales
    // out of the 1/32 base: one second stays one second.
    assert_eq!(routed.stream_index, 1);
    assert_eq!(routed.pts, Some(8));
}

#[test]
fn finish_writes_trailer_exactly_once() {
    let mut muxer = two_stream_muxer();
    let tbs = vec![Rational::new(1, 8), Rational::new(1, 8)];
    let packet = Packet::new(0, Some(3), None, 0, false, Rational::new(1, 16));
    let _ = muxer.mux(packet, &tbs);
    assert!(muxer.finish());
    assert!(!muxer.finish());
    assert!(!muxer.finish());
}

#[test]
fn finish_before_header_is_a_no_op() {
    let mut muxer = two_stream_muxer();
    assert!(!muxer.finish());
    assert!(!muxer.finish());
}

#[test]
fn parameter_sets_gate_on_codec() {
    let muxer = two_stream_muxer();
    let avcc = vec![
        0x01, 0x64, 0x00, 0x1f, 0xff, 0xe1, // preamble
        0x00, 0x02, // SPS length
        0x67, 0x64, // SPS
        0x01, // PPS count
        0x00, 0x01, // PPS length
        0x68, // PPS
    ];
    let extradata = vec![avcc, vec![0x01, 0x02]];
    let sets = muxer.parameter_sets_h264(&extradata);
    assert_eq!(sets.len(), 2);
    let (sps, pps) = sets[0].as_ref().unwrap();
    assert_eq!(*sps, &[0x67, 0x64]);
    assert_eq!(pps.len(), 1);
    assert_eq!(pps[0], &[0x68]);
    assert_eq!(sets[1], Err(Error::UnsupportedCodecParameterSets));
}

#[test]
fn malformed_parameter_sets_are_invalid() {
    let video = StreamInfo::from_params(H264_CODEC_ID, Rational::new(1, 16), 0).unwrap();
    let muxer = MuxerBuilder::new().with_stream(video).unwrap().build();
    let extradata = vec![vec![0x01, 0x00]];
    let sets = muxer.parameter_sets_h264(&extradata);
    assert_eq!(sets.len(), 1);
    assert_eq!(sets[0], Err(Error::InvalidExtraData));
}
