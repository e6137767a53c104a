use command_launcher::confirm::{names_confirmation_view, ConfirmationHandshake, Phase};
use command_launcher::view::{
    confirmation_view, entry_view, ADD_REQUESTED_EVENT, COMMANDS_CHANNEL, UPDATE_COMMAND_CHANNEL,
    VIEW_LOADED_EVENT,
};

const READY: &str = "\"confirmation\"";

fn waiting(command: &str) -> ConfirmationHandshake {
    let mut handshake = ConfirmationHandshake::open(command.to_string());
    handshake.listening();
    handshake
}

#[test]
fn open_starts_in_opened_and_listening_moves_to_awaiting() {
    let mut handshake = ConfirmationHandshake::open("notepad.exe".to_string());
    assert_eq!(handshake.phase(), Phase::Opened);
    assert!(!handshake.delivered());
    assert_eq!(handshake.command(), "notepad.exe");
    handshake.listening();
    assert_eq!(handshake.phase(), Phase::AwaitingReady);
    handshake.listening();
    assert_eq!(handshake.phase(), Phase::AwaitingReady);
}

#[test]
fn ready_signal_delivers_the_command() {
    let mut handshake = waiting("notepad.exe");
    assert_eq!(handshake.view_loaded(READY), Some("notepad.exe".to_string()));
    assert_eq!(handshake.phase(), Phase::Delivered);
    assert!(handshake.delivered());
}

#[test]
fn confirmation_idempotence() {
    let mut handshake = waiting("notepad.exe");
    let pushes: Vec<Option<String>> =
        vec![handshake.view_loaded(READY), handshake.view_loaded(READY)];
    assert_eq!(pushes, vec![Some("notepad.exe".to_string()), None]);
    assert_eq!(pushes.iter().filter(|push| push.is_some()).count(), 1);
    assert_eq!(handshake.phase(), Phase::Delivered);
}

#[test]
fn many_signals_deliver_once() {
    let mut handshake = waiting("dir");
    let mut pushes = 0;
    for payload in ["\"main\"", READY, "\"add-command\"", READY, READY, "", READY] {
        if handshake.view_loaded(payload).is_some() {
            pushes += 1;
        }
    }
    assert_eq!(pushes, 1);
    assert!(handshake.delivered());
}

#[test]
fn signal_of_another_view_never_delivers() {
    let mut handshake = waiting("notepad.exe");
    for payload in [
        "\"add-command\"",
        "\"main\"",
        "confirmation",
        "\"Confirmation\"",
        "\"confirmation\" ",
        " \"confirmation\"",
        "\"confirmation",
        "null",
        "",
    ] {
        assert_eq!(handshake.view_loaded(payload), None);
        assert_eq!(handshake.phase(), Phase::AwaitingReady);
        assert!(!handshake.delivered());
    }
    assert_eq!(handshake.view_loaded(READY), Some("notepad.exe".to_string()));
}

#[test]
fn signal_before_listening_is_ignored() {
    let mut handshake = ConfirmationHandshake::open("notepad.exe".to_string());
    assert_eq!(handshake.view_loaded(READY), None);
    assert_eq!(handshake.phase(), Phase::Opened);
    handshake.listening();
    assert_eq!(handshake.view_loaded(READY), Some("notepad.exe".to_string()));
}

#[test]
fn closed_view_never_gets_the_command() {
    let mut handshake = waiting("notepad.exe");
    handshake.view_closed();
    assert_eq!(handshake.phase(), Phase::Closed);
    assert_eq!(handshake.view_loaded(READY), None);
    assert_eq!(handshake.phase(), Phase::Closed);
    handshake.listening();
    assert_eq!(handshake.phase(), Phase::Closed);
    assert!(!handshake.delivered());
}

#[test]
fn opened_view_can_close_without_delivery() {
    let mut handshake = ConfirmationHandshake::open("notepad.exe".to_string());
    handshake.view_closed();
    assert_eq!(handshake.phase(), Phase::Closed);
    assert_eq!(handshake.view_loaded(READY), None);
}

#[test]
fn delivered_stays_delivered_when_the_view_closes() {
    let mut handshake = waiting("notepad.exe");
    assert!(handshake.view_loaded(READY).is_some());
    handshake.view_closed();
    assert_eq!(handshake.phase(), Phase::Delivered);
    assert_eq!(handshake.view_loaded(READY), None);
}

#[test]
fn command_is_delivered_verbatim() {
    let command = "echo \"a b\" ; \u{3042}\n";
    let mut handshake = waiting(command);
    assert_eq!(handshake.view_loaded(READY), Some(command.to_string()));
    assert_eq!(handshake.command(), command);
}

#[test]
fn ready_payload_is_the_label_of_the_confirmation_view_as_json() {
    let request = confirmation_view();
    assert_eq!(request.label, "confirmation");
    assert_eq!(request.page, "confirmation.html");
    let payload = serde_json::Value::String(request.label).to_string();
    assert_eq!(payload, READY);
    assert!(names_confirmation_view(&payload));
    assert!(!names_confirmation_view("confirmation"));
    assert!(!names_confirmation_view("\"add-command\""));
}

#[test]
fn views_and_channels_are_named_as_the_display_layer_expects() {
    assert_eq!(COMMANDS_CHANNEL, "commands");
    assert_eq!(UPDATE_COMMAND_CHANNEL, "update-command");
    assert_eq!(VIEW_LOADED_EVENT, "confirmation-window-loaded");
    assert_eq!(ADD_REQUESTED_EVENT, "open_add_command");
    assert_eq!(entry_view().label, "add-command");
    assert_eq!(entry_view().page, "add_command.html");
    assert_ne!(entry_view(), confirmation_view());
}
