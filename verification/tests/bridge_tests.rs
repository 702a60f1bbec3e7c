use voice_recorder::bridge::handle_control;
use voice_recorder::message::{Notification, SessionError, VoiceServerUpdate, WebSocketMessage};
use voice_recorder::session::DriverEventHandler;

fn credentials() -> VoiceServerUpdate {
    VoiceServerUpdate {
        endpoint: "voice.example.invalid:443".to_string(),
        guild_id: "1001".to_string(),
        token: "SECRET-REDACTED".to_string(),
        user_id: "2002".to_string(),
        session_id: "s1".to_string(),
    }
}

#[test]
fn unparsable_frame_closes_the_connection() {
    let mut session = DriverEventHandler::new();
    let outcome = handle_control(&mut session, None);
    assert!(outcome.close);
    assert_eq!(outcome.error, Some(SessionError::Protocol));
    assert!(outcome.replies.is_empty());
    assert!(outcome.connect.is_none());
    // the session itself was not touched
    assert!(session.start_recording().is_some());
}

#[test]
fn unrecognized_tag_closes_the_connection() {
    let mut session = DriverEventHandler::new();
    let msg = WebSocketMessage::new_event("NONSENSE");
    let outcome = handle_control(&mut session, Some(&msg));
    assert!(outcome.close);
    assert_eq!(outcome.error, Some(SessionError::Protocol));
}

#[test]
fn ping_replies_pong_without_touching_state() {
    let mut session = DriverEventHandler::new();
    let msg = WebSocketMessage::new_event("PING");
    let outcome = handle_control(&mut session, Some(&msg));
    assert!(!outcome.close);
    assert_eq!(outcome.replies, vec![Notification::Pong]);
    assert!(outcome.opened.is_none() && outcome.finalized.is_none());
}

#[test]
fn start_and_stop_commands_drive_the_session() {
    let mut session = DriverEventHandler::new();
    let start = WebSocketMessage::new_event("START_RECORDING");
    let stop = WebSocketMessage::new_event("STOP_RECORDING");

    let first = handle_control(&mut session, Some(&start));
    assert_eq!(first.replies, vec![Notification::RecordingStarted]);
    assert_eq!(first.opened.as_ref().unwrap().len(), 44);

    // a second start is a no-op: nothing opened, nothing announced
    let second = handle_control(&mut session, Some(&start));
    assert!(second.replies.is_empty());
    assert!(second.opened.is_none());

    let ended = handle_control(&mut session, Some(&stop));
    assert_eq!(ended.replies, vec![Notification::RecordingStopped]);
    assert_eq!(ended.finalized.as_ref().unwrap().len(), 44);

    // a second stop is a no-op and emits no notification
    let again = handle_control(&mut session, Some(&stop));
    assert!(again.replies.is_empty());
    assert!(again.finalized.is_none());
}

#[test]
fn server_update_without_payload_closes() {
    let mut session = DriverEventHandler::new();
    let msg = WebSocketMessage::new_event("VOICE_SERVER_UPDATE");
    let outcome = handle_control(&mut session, Some(&msg));
    assert!(outcome.close);
    assert_eq!(outcome.error, Some(SessionError::Protocol));
}

#[test]
fn server_update_with_bad_identifier_is_transport_error() {
    let mut session = DriverEventHandler::new();
    let mut creds = credentials();
    creds.guild_id = "xyz".to_string();
    let msg = WebSocketMessage::new("VOICE_SERVER_UPDATE", creds);
    let outcome = handle_control(&mut session, Some(&msg));
    assert!(!outcome.close);
    assert_eq!(outcome.error, Some(SessionError::Transport));
    assert!(outcome.connect.is_none());
}

#[test]
fn server_update_records_owner_and_requests_connect() {
    let mut session = DriverEventHandler::new();
    let msg = WebSocketMessage::new("VOICE_SERVER_UPDATE", credentials());
    let outcome = handle_control(&mut session, Some(&msg));
    assert!(!outcome.close);
    let details = outcome.connect.expect("credentials must yield a connect request");
    assert_eq!(details.guild_id, 1001);
    assert_eq!(details.user_id, 2002);

    // the owner identity was recorded: that participant's disconnect
    // now tears the session down
    let gone = session.on_client_disconnect(2002);
    assert!(gone.notifications.is_empty()); // nothing was recording
    assert!(session.start_recording().is_none()); // torn down
}
