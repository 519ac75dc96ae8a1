use video_rs::decode::{DecoderSplit, DrainBudget, HWACCEL_PIXEL_FORMAT, MAX_DRAIN_ITERATIONS};
use video_rs::error::Error;
use video_rs::frame::{FRAME_PIXEL_FORMAT, PIXEL_FORMAT_NONE, PIXEL_FORMAT_YUV420P};
use video_rs::packet::Packet;
use video_rs::resize::Resize;
use video_rs::time::Rational;

const TB: Rational = Rational { num: 1, den: 90_000 };

#[test]
fn negotiation_requires_codec_parameters() {
    assert_eq!(
        DecoderSplit::new(PIXEL_FORMAT_NONE, 1920, 1080, TB, None, None),
        Err(Error::MissingCodecParameters)
    );
    assert_eq!(
        DecoderSplit::new(PIXEL_FORMAT_YUV420P, 0, 1080, TB, None, None),
        Err(Error::MissingCodecParameters)
    );
    assert_eq!(
        DecoderSplit::new(PIXEL_FORMAT_YUV420P, 1920, 0, TB, None, None),
        Err(Error::MissingCodecParameters)
    );
}

#[test]
fn negotiation_rejects_impossible_resizes() {
    assert_eq!(
        DecoderSplit::new(PIXEL_FORMAT_YUV420P, 1, 1, TB, Some(Resize::FitEven(1, 1)), None),
        Err(Error::InvalidResizeParameters)
    );
}

#[test]
fn negotiation_computes_output_size() {
    let decoder =
        DecoderSplit::new(PIXEL_FORMAT_YUV420P, 1920, 1080, TB, Some(Resize::Fit(1280, 720)), None)
            .unwrap();
    assert_eq!(decoder.size(), (1920, 1080));
    assert_eq!(decoder.size_out(), (1280, 720));
    assert!(decoder.scaler_needed);
    assert_eq!(decoder.time_base(), TB);
}

#[test]
fn negotiation_skips_identity_scaler() {
    // Output already in the working format at the source size: no scaler.
    let decoder = DecoderSplit::new(FRAME_PIXEL_FORMAT, 640, 480, TB, None, None).unwrap();
    assert!(!decoder.scaler_needed);
    // The same under an exact resize to the source size.
    let decoder =
        DecoderSplit::new(FRAME_PIXEL_FORMAT, 640, 480, TB, Some(Resize::Exact(640, 480)), None)
            .unwrap();
    assert!(!decoder.scaler_needed);
    // A different target size forces one.
    let decoder =
        DecoderSplit::new(FRAME_PIXEL_FORMAT, 640, 480, TB, Some(Resize::Exact(320, 240)), None)
            .unwrap();
    assert!(decoder.scaler_needed);
}

#[test]
fn hardware_acceleration_forces_download_format_scaling() {
    let decoder = DecoderSplit::new(
        PIXEL_FORMAT_YUV420P,
        640,
        480,
        TB,
        None,
        Some(HWACCEL_PIXEL_FORMAT),
    )
    .unwrap();
    // The scaler input is the download format, never the working format.
    assert!(decoder.scaler_needed);
    let plan = decoder.plan_for_frame(HWACCEL_PIXEL_FORMAT);
    assert!(plan.download_to_host);
    assert!(plan.rescale);
    let plan = decoder.plan_for_frame(PIXEL_FORMAT_YUV420P);
    assert!(!plan.download_to_host);
}

#[test]
fn prepare_packet_rescales_into_decoder_base() {
    let decoder = DecoderSplit::new(PIXEL_FORMAT_YUV420P, 640, 480, Rational::new(1, 8), None, None)
        .unwrap();
    let packet = Packet::new(0, Some(1000), Some(900), 600, false, Rational::new(1, 1000));
    let prepared = decoder.prepare_packet(packet);
    assert_eq!(prepared.pts, Some(8));
    assert_eq!(prepared.dts, Some(7));
    assert_eq!(prepared.duration, 5);
    assert_eq!(prepared.time_base, Rational::new(1, 8));
    assert_eq!(prepared.stream_index, 0);
}

#[test]
fn drain_budget_bounds_the_loop() {
    let mut budget = DrainBudget::new();
    let mut steps = 0u32;
    while budget.step() {
        steps += 1;
    }
    assert_eq!(steps, MAX_DRAIN_ITERATIONS);
    assert!(!budget.step());
}

#[test]
fn drain_budget_limit_is_configurable() {
    let mut budget = DrainBudget::with_limit(3);
    assert!(budget.step());
    assert!(budget.step());
    assert!(budget.step());
    assert!(!budget.step());
}
