use video_rs::encode::{Encoder, Settings};
use video_rs::error::Error;
use video_rs::packet::Packet;
use video_rs::time::{Rational, Time};

fn test_encoder() -> Encoder {
    let settings = Settings::preset_h264_yuv420p(800, 600, false);
    Encoder::new(&settings, 0, Rational::new(1, 1_000_000), false)
}

#[test]
fn settings_preset_h264_yuv420p_fields() {
    let settings = Settings::preset_h264_yuv420p(800, 600, false);
    assert_eq!(settings.width, 800);
    assert_eq!(settings.height, 600);
    assert_eq!(settings.pixel_format, video_rs::frame::PIXEL_FORMAT_YUV420P);
    let entries = settings.options.entries();
    assert_eq!(entries.len(), 1);
    assert_eq!(entries[0].0, "preset");
    assert_eq!(entries[0].1, "medium");
}

#[test]
fn settings_preset_h264_realtime_options() {
    let settings = Settings::preset_h264_yuv420p(320, 240, true);
    let entries = settings.options.entries();
    assert_eq!(entries.len(), 2);
    assert_eq!(entries[0].0, "preset");
    assert_eq!(entries[0].1, "medium");
    assert_eq!(entries[1].0, "tune");
    assert_eq!(entries[1].1, "zerolatency");
}

#[test]
fn encode_raw_rejects_mismatched_frames() {
    let mut encoder = test_encoder();
    let rgb24 = video_rs::frame::FRAME_PIXEL_FORMAT;
    assert_eq!(encoder.encode_raw(640, 600, rgb24), Err(Error::InvalidFrameFormat));
    assert_eq!(encoder.encode_raw(800, 480, rgb24), Err(Error::InvalidFrameFormat));
    assert_eq!(encoder.encode_raw(800, 600, rgb24 + 1), Err(Error::InvalidFrameFormat));
    // A rejected frame writes no header.
    assert!(!encoder.have_written_header);
}

#[test]
fn encode_raw_writes_header_lazily() {
    let mut encoder = test_encoder();
    let rgb24 = video_rs::frame::FRAME_PIXEL_FORMAT;
    let plan = encoder.encode_raw(800, 600, rgb24).unwrap();
    assert!(plan.write_header);
    let plan = encoder.encode_raw(800, 600, rgb24).unwrap();
    assert!(!plan.write_header);
}

#[test]
fn key_frames_are_forced_periodically() {
    let mut encoder = test_encoder();
    let rgb24 = video_rs::frame::FRAME_PIXEL_FORMAT;
    let stream_tb = Rational::new(1, 90_000);
    let mut forced = Vec::new();
    for i in 0..25u64 {
        let plan = encoder.encode_raw(800, 600, rgb24).unwrap();
        if plan.force_key_frame {
            forced.push(i);
        }
        // The engine emits one packet per frame here; writing it counts
        // the frame.
        let mut packet = Packet::new(0, Some(i as i64), None, 1, plan.force_key_frame,
            Rational::new(1, 1_000_000));
        encoder.write(&mut packet, stream_tb);
    }
    assert_eq!(forced, vec![0, 12, 24]);
    assert_eq!(encoder.frame_count, 25);
}

#[test]
fn key_frame_interval_is_configurable() {
    let mut encoder = test_encoder();
    encoder.set_key_frame_interval(5);
    let rgb24 = video_rs::frame::FRAME_PIXEL_FORMAT;
    let stream_tb = Rational::new(1, 90_000);
    let mut forced = Vec::new();
    for i in 0..11u64 {
        let plan = encoder.encode_raw(800, 600, rgb24).unwrap();
        if plan.force_key_frame {
            forced.push(i);
        }
        let mut packet = Packet::new(0, None, None, 0, false, Rational::new(1, 1_000_000));
        encoder.write(&mut packet, stream_tb);
    }
    assert_eq!(forced, vec![0, 5, 10]);
}

#[test]
fn write_rebinds_and_rescales_packets() {
    let settings = Settings::preset_h264_yuv420p(800, 600, false);
    let mut encoder = Encoder::new(&settings, 3, Rational::new(1, 90_000), true);
    let mut packet = Packet::new(0, Some(90_000), Some(45_000), 3_000, true,
        Rational::new(1, 90_000));
    encoder.write(&mut packet, Rational::new(1, 30));
    assert_eq!(packet.stream_index, 3);
    assert_eq!(packet.position, -1);
    assert_eq!(packet.pts, Some(30)); // 1.0 s
    assert_eq!(packet.dts, Some(15)); // 0.5 s
    assert_eq!(packet.duration, 1); // one thirtieth of a second
    assert_eq!(packet.time_base, Rational::new(1, 30));
    assert!(packet.key);
    assert_eq!(encoder.frame_count, 1);
}

#[test]
fn encode_validates_array_shape_and_rescales_timestamp() {
    let mut encoder = test_encoder();
    let ts = Time::from_nth_of_a_second(4);
    assert_eq!(encoder.encode(600, 800, 4, &ts), Err(Error::InvalidFrameFormat));
    assert_eq!(encoder.encode(800, 600, 3, &ts), Err(Error::InvalidFrameFormat));
    let (plan, ticks) = encoder.encode(600, 800, 3, &ts).unwrap();
    assert!(plan.write_header);
    assert_eq!(ticks, Some(250_000)); // a quarter second in microsecond ticks
}

#[test]
fn encode_keeps_valueless_timestamps_valueless() {
    let mut encoder = test_encoder();
    let ts = Time::new(None, Rational::new(1, 90_000));
    let (_, ticks) = encoder.encode(600, 800, 3, &ts).unwrap();
    assert_eq!(ticks, None);
}

#[test]
fn finish_flushes_exactly_once() {
    let mut encoder = test_encoder();
    // Nothing was written: nothing to finish.
    assert!(!encoder.finish());
    let rgb24 = video_rs::frame::FRAME_PIXEL_FORMAT;
    let _ = encoder.encode_raw(800, 600, rgb24).unwrap();
    assert!(encoder.finish());
    assert!(!encoder.finish());
    assert!(!encoder.finish());
}
