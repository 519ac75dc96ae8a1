use video_rs::io::{MAX_CONSECUTIVE_EMPTY_READS, ReadRetry, seek_bounds};

#[test]
fn read_gives_up_after_consecutive_empty_reads() {
    let mut retry = ReadRetry::new();
    for _ in 0..MAX_CONSECUTIVE_EMPTY_READS {
        assert!(!retry.on_empty());
    }
    assert!(retry.on_empty());
}

#[test]
fn read_delivers_only_the_wanted_stream() {
    let retry = ReadRetry::new();
    assert!(retry.on_packet(2, 2));
    assert!(!retry.on_packet(1, 2));
}

#[test]
fn seek_bounds_convert_milliseconds_with_leeway() {
    assert_eq!(seek_bounds(1_000), (1_000_000, 0, 2_000_000));
    assert_eq!(seek_bounds(0), (0, -1_000_000, 1_000_000));
    assert_eq!(seek_bounds(-500), (-500_000, -1_500_000, 500_000));
}
