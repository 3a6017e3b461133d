use audio_keepalive::session::AudioCommand;
use audio_keepalive::session::SessionSimulator;

#[test]
fn start_twice_keeps_single_stream() {
    let mut twice = SessionSimulator::new();
    assert!(twice.start().is_ok());
    assert!(twice.start().is_ok());

    let mut once = SessionSimulator::new();
    assert!(once.start().is_ok());

    assert_eq!(twice.is_playing(), once.is_playing());
    assert!(twice.is_playing());
    assert_eq!(twice.acquisition_count(), 1);
}

#[test]
fn stop_twice_is_noop_second_time() {
    let mut sim = SessionSimulator::new();
    assert!(sim.start().is_ok());
    sim.stop();
    sim.stop();
    assert!(!sim.is_playing());
    assert_eq!(sim.release_count(), 1);
}

#[test]
fn stop_without_start_releases_nothing() {
    let mut sim = SessionSimulator::new();
    sim.stop();
    assert!(!sim.is_playing());
    assert_eq!(sim.release_count(), 0);
    assert_eq!(sim.acquisition_count(), 0);
}

#[test]
fn final_state_is_last_toggle() {
    let cases: Vec<(Vec<AudioCommand>, bool)> = vec![
        (vec![], false),
        (vec![AudioCommand::Start], true),
        (vec![AudioCommand::Stop], false),
        (vec![AudioCommand::Start, AudioCommand::Stop], false),
        (vec![AudioCommand::Start, AudioCommand::Stop, AudioCommand::Start], true),
        (
            vec![
                AudioCommand::Stop,
                AudioCommand::Start,
                AudioCommand::Start,
                AudioCommand::Stop,
            ],
            false,
        ),
    ];
    for (cmds, expected) in cases {
        let mut sim = SessionSimulator::new();
        sim.process(&cmds);
        assert_eq!(sim.is_playing(), expected);
    }
}

#[test]
fn failing_acquisition_reports_error_and_stays_stopped() {
    let mut sim = SessionSimulator::new_failing();
    let r = sim.start();
    let msg = r.unwrap_err();
    assert!(!msg.is_empty());
    assert_eq!(msg, "no audio output device could be opened");
    assert!(!sim.is_playing());
    assert_eq!(sim.acquisition_count(), 1);
}

#[test]
fn start_start_stop_start_acquires_twice() {
    let cmds = vec![
        AudioCommand::Start,
        AudioCommand::Start,
        AudioCommand::Stop,
        AudioCommand::Start,
    ];
    let mut sim = SessionSimulator::new();
    sim.process(&cmds);
    assert_eq!(sim.acquisition_count(), 2);
    assert!(sim.is_playing());
}

#[test]
fn query_changes_nothing() {
    let cmds = vec![AudioCommand::Start, AudioCommand::IsPlaying];
    let mut sim = SessionSimulator::new();
    sim.process(&cmds);
    assert!(sim.is_playing());
    assert_eq!(sim.acquisition_count(), 1);
    assert_eq!(sim.release_count(), 0);
}
