use spectrum_core::stream::{
    is_benign_stream_error, negotiate, ring_for, select_host, AudioInitError, SampleEncoding,
    StreamSettings, SPECTRUM_BINS, WINDOW_SIZE,
};

#[test]
fn negotiate_accepts_supported_formats() {
    for enc in [SampleEncoding::F32, SampleEncoding::I16, SampleEncoding::U16] {
        assert_eq!(
            negotiate(48000, 2, enc),
            Ok(StreamSettings { sample_rate: 48000, channels: 2, encoding: enc })
        );
    }
}

#[test]
fn negotiate_rejects_unsupported_encoding() {
    assert_eq!(
        negotiate(48000, 2, SampleEncoding::Unsupported),
        Err(AudioInitError::UnsupportedFormat)
    );
}

#[test]
fn negotiate_rejects_degenerate_format() {
    assert_eq!(negotiate(0, 2, SampleEncoding::F32), Err(AudioInitError::StreamBuild));
    assert_eq!(negotiate(44100, 0, SampleEncoding::I16), Err(AudioInitError::StreamBuild));
}

#[test]
fn ring_holds_one_second() {
    let s = negotiate(44100, 1, SampleEncoding::F32).unwrap();
    let ring = ring_for(&s);
    assert_eq!(ring.capacity(), 44100);
    assert_eq!(ring.occupied_len(), 0);
}

#[test]
fn select_host_takes_first_qualified() {
    assert_eq!(select_host(&[false, true, true]), Some(1));
    assert_eq!(select_host(&[true]), Some(0));
    assert_eq!(select_host(&[false, false]), None);
    assert_eq!(select_host(&[]), None);
}

#[test]
fn benign_errors_are_recognised() {
    assert!(is_benign_stream_error("alsa::poll() returned POLLERR"));
    assert!(is_benign_stream_error("snd_pcm_htstamp failed"));
    assert!(is_benign_stream_error("bad timestamp"));
    assert!(is_benign_stream_error("trigger failed"));
    assert!(is_benign_stream_error("poll spuriously returned"));
    assert!(!is_benign_stream_error("device disconnected"));
    assert!(!is_benign_stream_error(""));
}

#[test]
fn window_and_spectrum_sizes() {
    assert_eq!(WINDOW_SIZE, 1024);
    assert_eq!(SPECTRUM_BINS, WINDOW_SIZE / 2);
}
