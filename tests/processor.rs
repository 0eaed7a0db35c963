use spectrum_core::processor::{Command, Phase, Processor, Source};
use spectrum_core::stream::AudioInitError;

#[test]
fn no_devices_settles_in_no_audio() {
    let (mut p, c) = Processor::start(0);
    assert_eq!(c, Command::Start(Source::Default));
    assert_eq!(p.sample_rate(), 0);
    let c = p.stream_opened(Err(AudioInitError::NoInputDevice));
    assert_eq!(c, Command::Idle);
    assert_eq!(p.phase(), Phase::NoAudio);
    assert_eq!(p.sample_rate(), 0);
    assert_eq!(p.switch_device(0), Command::Idle);
    assert_eq!(p.phase(), Phase::NoAudio);
}

#[test]
fn startup_falls_back_to_default_device() {
    let (mut p, c) = Processor::start(3);
    assert_eq!(c, Command::Start(Source::Listed(0)));
    let c = p.stream_opened(Err(AudioInitError::StreamBuild));
    assert_eq!(c, Command::Start(Source::Default));
    let c = p.stream_opened(Ok(44100));
    assert_eq!(c, Command::Idle);
    assert_eq!(
        p.phase(),
        Phase::Capturing { source: Source::Default, sample_rate: 44100 }
    );
    assert_eq!(p.sample_rate(), 44100);
}

#[test]
fn switch_releases_before_opening_next() {
    let (mut p, _) = Processor::start(2);
    p.stream_opened(Ok(48000));
    let c = p.switch_device(2);
    assert_eq!(c, Command::ReleaseThenStart(Source::Listed(1)));
    assert_eq!(p.sample_rate(), 0);
    assert_eq!(p.stream_opened(Ok(44100)), Command::Idle);
    assert_eq!(
        p.phase(),
        Phase::Capturing { source: Source::Listed(1), sample_rate: 44100 }
    );
    assert_eq!(p.selected(), 1);
    assert_eq!(p.switch_device(2), Command::ReleaseThenStart(Source::Listed(0)));
}

#[test]
fn failed_switch_rolls_back_to_previous_device() {
    let (mut p, _) = Processor::start(3);
    p.stream_opened(Ok(48000));
    assert_eq!(p.switch_device(3), Command::ReleaseThenStart(Source::Listed(1)));
    let c = p.stream_opened(Err(AudioInitError::UnsupportedFormat));
    assert_eq!(c, Command::Start(Source::Listed(0)));
    assert_eq!(p.selected(), 0);
    p.stream_opened(Ok(48000));
    assert_eq!(
        p.phase(),
        Phase::Capturing { source: Source::Listed(0), sample_rate: 48000 }
    );
}

#[test]
fn failed_rollback_leaves_no_audio() {
    let (mut p, _) = Processor::start(2);
    p.stream_opened(Ok(48000));
    p.switch_device(2);
    p.stream_opened(Err(AudioInitError::StreamBuild));
    let c = p.stream_opened(Err(AudioInitError::StreamBuild));
    assert_eq!(c, Command::Idle);
    assert_eq!(p.phase(), Phase::NoAudio);
    assert_eq!(p.sample_rate(), 0);
    assert_eq!(p.switch_device(2), Command::Start(Source::Listed(1)));
}

#[test]
fn switch_while_starting_is_ignored() {
    let (mut p, _) = Processor::start(2);
    assert_eq!(p.switch_device(2), Command::Idle);
    assert_eq!(
        p.phase(),
        Phase::Starting { source: Source::Listed(0), fallback: Some(Source::Default) }
    );
}

#[test]
fn outcome_nobody_waits_for_is_ignored() {
    let (mut p, _) = Processor::start(1);
    p.stream_opened(Ok(8000));
    assert_eq!(p.stream_opened(Ok(16000)), Command::Idle);
    assert_eq!(p.sample_rate(), 8000);
}
