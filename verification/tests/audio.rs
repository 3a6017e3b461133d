use audio_keepalive::audio::SilenceSource;
use audio_keepalive::audio::SilentAudioPlayer;
use audio_keepalive::audio::StreamHandle;

#[test]
fn silence_source_yields_only_silence() {
    let mut source = SilenceSource::new();
    assert_eq!(source.channels(), 2);
    assert_eq!(source.sample_rate(), 48000);
    assert_eq!(source.next_sample(), 0);
    let buf = source.render(16);
    assert_eq!(buf.len(), 16);
    assert!(buf.iter().all(|s| *s == 0));
}

#[test]
fn silence_source_never_ends() {
    let source = SilenceSource::new();
    assert_eq!(source.current_frame_len(), None);
    assert_eq!(source.total_duration_secs(), None);
}

#[test]
fn player_start_is_idempotent() {
    let mut player = SilentAudioPlayer::new();
    assert!(!player.is_playing());
    assert!(player.needs_stream());

    let r = player.start(Ok(StreamHandle::new()));
    assert_eq!(r, Ok(()));
    assert!(player.is_playing());
    assert!(!player.needs_stream());

    // Already running: the second start keeps the session untouched,
    // whatever the platform layer would have reported.
    let r = player.start(Err(String::from("should not be consulted")));
    assert_eq!(r, Ok(()));
    assert!(player.is_playing());
}

#[test]
fn player_stop_is_idempotent() {
    let mut player = SilentAudioPlayer::new();
    let _ = player.start(Ok(StreamHandle::new()));
    player.stop();
    assert!(!player.is_playing());
    player.stop();
    assert!(!player.is_playing());
    assert!(player.needs_stream());
}

#[test]
fn player_start_failure_propagates() {
    let mut player = SilentAudioPlayer::new();
    let r = player.start(Err(String::from("no output device available")));
    assert_eq!(r, Err(String::from("no output device available")));
    assert!(!player.is_playing());
}

#[test]
fn player_restarts_after_stop() {
    let mut player = SilentAudioPlayer::new();
    let _ = player.start(Ok(StreamHandle::new()));
    player.stop();
    let r = player.start(Ok(StreamHandle::new()));
    assert_eq!(r, Ok(()));
    assert!(player.is_playing());
}
