use audio_server::api::admit_play;
use audio_server::api::valid_name;
use audio_server::api::admit_play_loop;
use audio_server::api::enqueue_response;
use audio_server::api::not_found_response;
use audio_server::api::ResponseCode;
use audio_server::channel::CommandQueue;
use audio_server::command::Message;

#[test]
fn missing_file_is_rejected_before_any_send() {
    let mut q = CommandQueue::new();

    // The existence check failed: no command is produced, so nothing can be
    // sent; the rejection is built without touching the queue.
    let admitted = admit_play(false, "/assets/nope.mp3".to_string());
    assert!(admitted.is_none());
    let r = not_found_response();
    assert_eq!(r.code, ResponseCode::ParameterError);
    assert_eq!(r.msg, "File not found");
    assert_eq!(q.len(), 0);
    assert!(q.receive().is_none());
}

#[test]
fn existing_file_is_admitted_as_play() {
    let admitted = admit_play(true, "/assets/x.mp3".to_string());
    assert!(matches!(admitted, Some(Message::Play(p)) if p == "/assets/x.mp3"));
}

#[test]
fn existing_file_is_admitted_as_play_loop() {
    let admitted = admit_play_loop(true, "/assets/x.mp3".to_string());
    assert!(matches!(admitted, Some(Message::PlayLoop(p)) if p == "/assets/x.mp3"));
    assert!(admit_play_loop(false, "/assets/x.mp3".to_string()).is_none());
}

#[test]
fn plain_names_are_acceptable() {
    assert!(valid_name("song.mp3"));
    assert!(valid_name("x"));
    assert!(valid_name("..hidden"));
    assert!(valid_name("a..b"));
}

#[test]
fn traversing_names_are_rejected() {
    assert!(!valid_name(""));
    assert!(!valid_name("."));
    assert!(!valid_name(".."));
    assert!(!valid_name("a/b.mp3"));
    assert!(!valid_name("../secret.mp3"));
    assert!(!valid_name("a\\b.mp3"));
    assert!(!valid_name("/etc/passwd"));
}

#[test]
fn acknowledgment_follows_the_enqueue_outcome() {
    let ok = enqueue_response(true);
    assert_eq!(ok.code, ResponseCode::Success);
    assert_eq!(ok.msg, "success");

    let failed = enqueue_response(false);
    assert_eq!(failed.code, ResponseCode::ServerError);
    assert_eq!(failed.msg, "command channel closed");
}
