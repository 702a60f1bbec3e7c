use voice_recorder::message::{
    encode_event, parse_u64, Notification, SessionError, VoiceServerUpdate, WebSocketMessage,
};

fn credentials(guild_id: &str, user_id: &str) -> VoiceServerUpdate {
    VoiceServerUpdate {
        endpoint: "voice.example.invalid:443".to_string(),
        guild_id: guild_id.to_string(),
        token: "SECRET-REDACTED".to_string(),
        user_id: user_id.to_string(),
        session_id: "abcdef".to_string(),
    }
}

#[test]
fn parse_u64_accepts_digits() {
    assert_eq!(parse_u64("0"), Some(0));
    assert_eq!(parse_u64("42"), Some(42));
    assert_eq!(parse_u64("18446744073709551615"), Some(u64::MAX));
}

#[test]
fn parse_u64_rejects_non_digits_and_overflow() {
    assert_eq!(parse_u64(""), None);
    assert_eq!(parse_u64("a1"), None);
    assert_eq!(parse_u64("1a"), None);
    assert_eq!(parse_u64("-1"), None);
    assert_eq!(parse_u64("18446744073709551616"), None);
}

#[test]
fn connection_info_parses_numeric_identifiers() {
    let details = credentials("123456", "789").to_connection_info().unwrap();
    assert_eq!(details.guild_id, 123456);
    assert_eq!(details.user_id, 789);
    assert_eq!(details.endpoint, "voice.example.invalid:443");
    assert_eq!(details.session_id, "abcdef");
    assert!(details.channel_id.is_none());
}

#[test]
fn connection_info_reports_transport_error() {
    let bad_guild = credentials("not-a-number", "789").to_connection_info();
    assert!(matches!(bad_guild, Err(SessionError::Transport)));
    let bad_user = credentials("123", "").to_connection_info();
    assert!(matches!(bad_user, Err(SessionError::Transport)));
}

#[test]
fn payload_is_owed_exactly_when_present() {
    let with = WebSocketMessage::new("VOICE_SERVER_UPDATE", credentials("1", "2"));
    assert_eq!(with.gen(), "VOICE_SERVER_UPDATE");
    assert!(with.voice_server_update().is_ok());

    let without = WebSocketMessage::new_event("VOICE_SERVER_UPDATE");
    assert!(matches!(
        without.voice_server_update(),
        Err(SessionError::Protocol)
    ));
}

#[test]
fn encode_event_frames_the_tag() {
    assert_eq!(encode_event("PONG"), "{\"t\":\"PONG\"}");
    assert_eq!(
        encode_event(Notification::RecordingStarted.tag()),
        "{\"t\":\"RECORDING_STARTED\"}"
    );
}

#[test]
fn notification_tags_match_the_wire_names() {
    assert_eq!(Notification::RecordingStarted.tag(), "RECORDING_STARTED");
    assert_eq!(Notification::RecordingStopped.tag(), "RECORDING_STOPPED");
    assert_eq!(Notification::Connected.tag(), "CONNECTED");
    assert_eq!(Notification::Disconnected.tag(), "DISCONNECTED");
    assert_eq!(Notification::Pong.tag(), "PONG");
}
