use video_rs::error::Error;
use video_rs::options::Options;

fn pairs(options: &Options) -> Vec<(String, String)> {
    options.entries().clone()
}

#[test]
fn preset_rtsp_transport_tcp_sets_the_transport() {
    let options = Options::preset_rtsp_transport_tcp();
    assert_eq!(
        pairs(&options),
        vec![("rtsp_transport".to_string(), "tcp".to_string())]
    );
}

#[test]
fn preset_rtsp_transport_tcp_and_sane_timeouts_sets_timeouts() {
    let options = Options::preset_rtsp_transport_tcp_and_sane_timeouts();
    assert_eq!(
        pairs(&options),
        vec![
            ("rtsp_transport".to_string(), "tcp".to_string()),
            ("rw_timeout".to_string(), "16000000".to_string()),
            ("stimeout".to_string(), "16000000".to_string()),
        ]
    );
}

#[test]
fn preset_fragmented_mov_sets_movflags() {
    let options = Options::preset_fragmented_mov();
    assert_eq!(
        pairs(&options),
        vec![(
            "movflags".to_string(),
            "faststart+frag_keyframe+frag_custom+empty_moov+omit_tfhd_offset".to_string()
        )]
    );
}

#[test]
fn preset_h264_sets_the_preset() {
    let options = Options::preset_h264();
    assert_eq!(
        pairs(&options),
        vec![("preset".to_string(), "medium".to_string())]
    );
}

#[test]
fn preset_h264_realtime_tunes_for_latency() {
    let options = Options::preset_h264_realtime();
    assert_eq!(
        pairs(&options),
        vec![
            ("preset".to_string(), "medium".to_string()),
            ("tune".to_string(), "zerolatency".to_string()),
        ]
    );
}

#[test]
fn default_options_are_empty() {
    let options = Options::default();
    assert!(pairs(&options).is_empty());
}

#[test]
fn error_messages_name_the_failure() {
    assert_eq!(Error::ReadExhausted.message(), "stream exhausted");
    assert_eq!(
        Error::InvalidExtraData.message(),
        "codec parameters extradata is corrupted"
    );
    assert_eq!(
        Error::UnsupportedCodecParameterSets.message(),
        "extracting parameter sets for this codec is not supported"
    );
}
