use audio_server::channel::CommandQueue;
use audio_server::command::Message;
use audio_server::controller::Controller;
use audio_server::controller::PlayerState;

#[test]
fn commands_come_out_in_admission_order() {
    let mut q = CommandQueue::new();
    assert_eq!(q.len(), 0);

    q.send(Message::Play("a".to_string()));
    q.send(Message::Pause);
    q.send(Message::Stop);
    assert_eq!(q.len(), 3);

    assert!(matches!(q.receive(), Some(Message::Play(p)) if p == "a"));
    assert!(matches!(q.receive(), Some(Message::Pause)));
    assert!(matches!(q.receive(), Some(Message::Stop)));
    assert_eq!(q.len(), 0);
}

#[test]
fn empty_queue_yields_nothing() {
    let mut q = CommandQueue::new();
    assert!(q.receive().is_none());
    assert_eq!(q.len(), 0);
}

#[test]
fn racing_plays_resolve_by_admission_order() {
    // Two callers race to play different files; whichever send was admitted
    // first is superseded by the other, and the controller ends up playing
    // exactly the later one — never a mixture.
    let mut q = CommandQueue::new();
    q.send(Message::Play("a".to_string()));
    q.send(Message::Play("b".to_string()));

    let mut c = Controller::new();
    while let Some(m) = q.receive() {
        c.apply(m, true);
    }
    assert!(matches!(c.state(), PlayerState::Playing { path, .. } if path == "b"));
}
