use voice_recorder::message::Notification;
use voice_recorder::session::{
    DriverEventHandler, Speaking, VoiceData, VoiceEvent, VoiceTick,
};
use voice_recorder::wav::{make_header, AudioFormat};

fn silent_tick() -> VoiceTick {
    VoiceTick { speaking: Vec::new() }
}

fn tick_with(buffers: Vec<Option<Vec<i16>>>) -> VoiceTick {
    let speaking = buffers
        .into_iter()
        .enumerate()
        .map(|(i, decoded_voice)| VoiceData { ssrc: i as u32, decoded_voice })
        .collect();
    VoiceTick { speaking }
}

#[test]
fn start_twice_opens_one_container() {
    let mut h = DriverEventHandler::new();
    let first = h.start_recording();
    assert!(first.is_some());
    assert_eq!(first.unwrap().len(), 44);
    let second = h.start_recording();
    assert!(second.is_none());
}

#[test]
fn stop_without_recording_is_noop() {
    let mut h = DriverEventHandler::new();
    assert!(h.stop_recording().is_none());
}

#[test]
fn silent_ticks_accumulate_exact_silence() {
    let mut h = DriverEventHandler::new();
    let placeholder = h.start_recording().unwrap();
    assert_eq!(placeholder, make_header(AudioFormat::standard(), 0));
    for _ in 0..3 {
        let outcome = h.on_voice_tick(&silent_tick());
        let data = outcome.data.unwrap();
        assert_eq!(data.len(), 1920 * 2);
        assert!(data.iter().all(|b| *b == 0));
        assert!(outcome.header.is_none());
        assert!(outcome.notifications.is_empty());
    }
    let header = h.stop_recording().unwrap();
    assert_eq!(header, make_header(AudioFormat::standard(), 3 * 1920));
}

#[test]
fn reaching_limit_stops_like_explicit_stop() {
    let mut limited = DriverEventHandler::new();
    limited.set_recording_limit(Some(1920));
    let _ = limited.start_recording();
    let outcome = limited.on_voice_tick(&silent_tick());
    assert!(outcome.data.is_some());
    let auto_header = outcome.header.expect("limit must force a stop");
    assert_eq!(outcome.notifications, vec![Notification::RecordingStopped]);
    // recording ended: the next tick appends nothing
    let after = limited.on_voice_tick(&silent_tick());
    assert!(after.data.is_none());

    // the same session without a limit, stopped explicitly after the
    // same single tick, finalizes the identical container
    let mut manual = DriverEventHandler::new();
    let _ = manual.start_recording();
    let _ = manual.on_voice_tick(&silent_tick());
    let manual_header = manual.stop_recording().unwrap();
    assert_eq!(auto_header, manual_header);
}

#[test]
fn foreign_client_disconnect_changes_nothing() {
    let mut h = DriverEventHandler::new();
    h.set_bot_id(42);
    let _ = h.start_recording();
    let outcome = h.on_client_disconnect(7);
    assert!(outcome.header.is_none());
    assert!(outcome.notifications.is_empty());
    // still recording: an explicit stop still finalizes
    assert!(h.stop_recording().is_some());
}

#[test]
fn owner_disconnect_tears_session_down() {
    let mut h = DriverEventHandler::new();
    h.set_bot_id(42);
    let _ = h.start_recording();
    let outcome = h.on_client_disconnect(42);
    assert!(outcome.header.is_some());
    assert_eq!(outcome.notifications, vec![Notification::RecordingStopped]);
    // torn down: no new recording can start
    assert!(h.start_recording().is_none());
}

#[test]
fn driver_disconnect_stops_and_notifies() {
    let mut h = DriverEventHandler::new();
    let _ = h.start_recording();
    let outcome = h.on_driver_disconnect();
    assert!(outcome.header.is_some());
    assert_eq!(
        outcome.notifications,
        vec![Notification::RecordingStopped, Notification::Disconnected]
    );
    assert!(h.start_recording().is_none());
}

#[test]
fn driver_connect_notifies_connected() {
    let h = DriverEventHandler::new();
    assert_eq!(h.on_driver_connect(), vec![Notification::Connected]);
}

#[test]
fn tick_appends_decoded_audio_little_endian() {
    let mut h = DriverEventHandler::new();
    let _ = h.start_recording();
    let outcome = h.on_voice_tick(&tick_with(vec![Some(vec![100i16, 200])]));
    assert_eq!(outcome.data.unwrap(), vec![100, 0, 200, 0]);
    assert!(outcome.header.is_none());
}

#[test]
fn tick_mixes_overlapping_speakers() {
    let mut h = DriverEventHandler::new();
    let _ = h.start_recording();
    let outcome = h.on_voice_tick(&tick_with(vec![
        Some(vec![1000i16, 1000]),
        Some(vec![1000i16]),
    ]));
    // 2000 = 0x07D0, 1000 = 0x03E8, little-endian
    assert_eq!(outcome.data.unwrap(), vec![0xD0, 0x07, 0xE8, 0x03]);
}

#[test]
fn tick_with_undecoded_speakers_appends_silence() {
    let mut h = DriverEventHandler::new();
    let _ = h.start_recording();
    let outcome = h.on_voice_tick(&tick_with(vec![None, None]));
    let data = outcome.data.unwrap();
    assert_eq!(data.len(), 1920 * 2);
    assert!(data.iter().all(|b| *b == 0));
}

#[test]
fn tick_while_idle_appends_nothing() {
    let mut h = DriverEventHandler::new();
    let outcome = h.on_voice_tick(&tick_with(vec![Some(vec![5i16; 4])]));
    assert!(outcome.data.is_none());
    assert!(outcome.header.is_none());
    assert!(outcome.notifications.is_empty());
}

#[test]
fn dispatcher_routes_each_event() {
    let mut h = DriverEventHandler::new();
    let connect = h.act(&VoiceEvent::DriverConnect);
    assert_eq!(connect.notifications, vec![Notification::Connected]);

    let other = h.act(&VoiceEvent::Other);
    assert!(other.notifications.is_empty());

    let rtp = h.act(&VoiceEvent::RtpPacket);
    assert!(rtp.notifications.is_empty());

    let speaking = h.act(&VoiceEvent::SpeakingStateUpdate(Speaking {
        ssrc: 5,
        user_id: Some(9),
    }));
    assert!(speaking.notifications.is_empty());

    let _ = h.start_recording();
    let tick = h.act(&VoiceEvent::VoiceTick(tick_with(vec![Some(vec![1i16, 2])])));
    assert_eq!(tick.data.unwrap(), vec![1, 0, 2, 0]);

    let gone = h.act(&VoiceEvent::DriverDisconnect);
    assert_eq!(
        gone.notifications,
        vec![Notification::RecordingStopped, Notification::Disconnected]
    );
}

#[test]
fn add_emtpy_frame_appends_one_tick_of_silence() {
    let mut h = DriverEventHandler::new();
    assert!(h.add_emtpy_frame().is_none());
    let _ = h.start_recording();
    let data = h.add_emtpy_frame().unwrap();
    assert_eq!(data.len(), 1920 * 2);
    assert!(data.iter().all(|b| *b == 0));
    let header = h.stop_recording().unwrap();
    assert_eq!(header, make_header(AudioFormat::standard(), 1920));
}

#[test]
fn speaker_association_upserts_and_looks_up() {
    let mut h = DriverEventHandler::new();
    assert_eq!(h.speaker_for(5), None);
    h.on_speaking_state_update(&Speaking { ssrc: 5, user_id: Some(900) });
    assert_eq!(h.speaker_for(5), Some(900));
    h.on_speaking_state_update(&Speaking { ssrc: 5, user_id: Some(901) });
    assert_eq!(h.speaker_for(5), Some(901));
    h.on_speaking_state_update(&Speaking { ssrc: 7, user_id: None });
    assert_eq!(h.speaker_for(7), None);
    assert_eq!(h.speaker_for(5), Some(901));
}
