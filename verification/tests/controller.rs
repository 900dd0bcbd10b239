use audio_server::command::Message;
use audio_server::controller::Controller;
use audio_server::controller::PlayerState;
use audio_server::controller::SinkAction;

fn playing_path(c: &Controller) -> &str {
    match c.state() {
        PlayerState::Playing { path, .. } => path,
        other => panic!("expected Playing, got {:?}", other),
    }
}

#[test]
fn play_pause_resume_stop_play_scenario() {
    let mut c = Controller::new();

    let a = c.apply(Message::Play("x".to_string()), true);
    assert!(matches!(a, SinkAction::Replace(ref t) if t.path == "x" && !t.looped));
    assert!(matches!(c.state(), PlayerState::Playing { path, looped } if path == "x" && !looped));

    let a = c.apply(Message::Pause, true);
    assert!(matches!(a, SinkAction::PauseSink));
    assert!(matches!(c.state(), PlayerState::Paused { path, looped } if path == "x" && !looped));

    let a = c.apply(Message::Resume, true);
    assert!(matches!(a, SinkAction::ResumeSink));
    assert!(matches!(c.state(), PlayerState::Playing { path, .. } if path == "x"));

    let a = c.apply(Message::Stop, true);
    assert!(matches!(a, SinkAction::Halt));
    assert!(matches!(c.state(), PlayerState::Idle));

    let a = c.apply(Message::Play("x".to_string()), true);
    assert!(matches!(a, SinkAction::Replace(ref t) if t.path == "x" && !t.looped));
    assert_eq!(playing_path(&c), "x");
}

#[test]
fn idempotent_commands_are_no_ops() {
    let mut c = Controller::new();

    // Pause while idle: nothing changes, nothing is sent to the device.
    let a = c.apply(Message::Pause, true);
    assert!(matches!(a, SinkAction::Stay));
    assert!(matches!(c.state(), PlayerState::Idle));

    // Stop while idle: same.
    let a = c.apply(Message::Stop, true);
    assert!(matches!(a, SinkAction::Stay));
    assert!(matches!(c.state(), PlayerState::Idle));

    // Resume while idle: same.
    let a = c.apply(Message::Resume, true);
    assert!(matches!(a, SinkAction::Stay));
    assert!(matches!(c.state(), PlayerState::Idle));

    // Resume while already playing: state keeps the track, device untouched.
    c.apply(Message::Play("a".to_string()), true);
    let a = c.apply(Message::Resume, true);
    assert!(matches!(a, SinkAction::Stay));
    assert_eq!(playing_path(&c), "a");

    // Pause while already paused: same.
    c.apply(Message::Pause, true);
    let a = c.apply(Message::Pause, true);
    assert!(matches!(a, SinkAction::Stay));
    assert!(matches!(c.state(), PlayerState::Paused { path, .. } if path == "a"));
}

#[test]
fn play_supersedes_play() {
    let mut c = Controller::new();
    c.apply(Message::Play("f".to_string()), true);
    let a = c.apply(Message::Play("g".to_string()), true);
    // The replacement action stops the old sink contents before the new
    // source is appended; exactly the new track ends up loaded.
    assert!(matches!(a, SinkAction::Replace(ref t) if t.path == "g" && !t.looped));
    assert_eq!(playing_path(&c), "g");
}

#[test]
fn play_loop_loads_looped_track() {
    let mut c = Controller::new();
    let a = c.apply(Message::PlayLoop("bgm".to_string()), true);
    assert!(matches!(a, SinkAction::Replace(ref t) if t.path == "bgm" && t.looped));
    assert!(matches!(c.state(), PlayerState::Playing { path, looped } if path == "bgm" && *looped));
}

#[test]
fn decode_failure_leaves_state_and_device_alone() {
    let mut c = Controller::new();
    c.apply(Message::Play("a".to_string()), true);

    // The file of the new request could not be opened or decoded: the
    // worker reports load_ok = false, the old track keeps playing.
    let a = c.apply(Message::Play("missing".to_string()), false);
    assert!(matches!(a, SinkAction::Stay));
    assert_eq!(playing_path(&c), "a");

    let a = c.apply(Message::PlayLoop("missing".to_string()), false);
    assert!(matches!(a, SinkAction::Stay));
    assert_eq!(playing_path(&c), "a");
}

#[test]
fn stop_ends_playback_from_paused_too() {
    let mut c = Controller::new();
    c.apply(Message::Play("a".to_string()), true);
    c.apply(Message::Pause, true);
    let a = c.apply(Message::Stop, true);
    assert!(matches!(a, SinkAction::Halt));
    assert!(matches!(c.state(), PlayerState::Idle));
}
