//! Control-channel bridge: translates one inbound control message
//! into at most one session action and says what the caller owes in
//! response — notifications to queue, a transport connection to
//! initiate, container bytes to put on disk, or closing the
//! connection when the message is protocol-invalid.

use crate::message::{ConnectionDetails, Notification, SessionError, WebSocketMessage};
use crate::message::{decimal_val, is_decimal};
use crate::session::{no_notifications, DriverEventHandler};
use crate::wav::header_bytes;
use vstd::prelude::*;
use vstd::string::StringExecFns;

verus! {

/// Everything one inbound control message can oblige the caller to
/// do.
pub struct ControlOutcome {
    /// Status notifications to queue for the client.
    pub replies: Vec<Notification>,
    /// Connection credentials to hand to the transport.
    pub connect: Option<ConnectionDetails>,
    /// The placeholder header of a freshly opened container, to write
    /// at the start of the new container file.
    pub opened: Option<Vec<u8>>,
    /// The final header of a just-finalized container, to write over
    /// the placeholder at the container file's start.
    pub finalized: Option<Vec<u8>>,
    /// Close the connection: the message was protocol-invalid.
    pub close: bool,
    /// The failure the message ran into, if any.
    pub error: Option<SessionError>,
}

/// The outcome for a protocol-invalid message: close the connection,
/// touch nothing else.
fn refuse() -> (r: ControlOutcome)
    ensures
        r.replies@ == no_notifications(),
        r.connect is None,
        r.opened is None,
        r.finalized is None,
        r.close,
        r.error == Some(SessionError::Protocol),
{
    ControlOutcome {
        replies: Vec::new(),
        connect: None,
        opened: None,
        finalized: None,
        close: true,
        error: Some(SessionError::Protocol),
    }
}

/// Drive the session from one inbound control message, or from none
/// when the frame did not parse as a control message at all.
///
/// A missing or malformed message, an unrecognized tag, and a
/// `VOICE_SERVER_UPDATE` without its credential payload are protocol
/// violations: the connection is closed and the session is untouched.
/// Credentials whose numeric fields do not parse are a transport
/// failure: reported, connection kept, session untouched.
pub fn handle_control(session: &mut DriverEventHandler, msg: Option<&WebSocketMessage>) -> (r:
    ControlOutcome)
    requires
        old(session).wf(),
    ensures
        final(session).wf(),
        ({
            let s = old(session)@;
            match msg {
                None => {
                    &&& final(session)@ == s
                    &&& r.replies@ == no_notifications()
                    &&& r.connect is None
                    &&& r.opened is None
                    &&& r.finalized is None
                    &&& r.close
                    &&& r.error == Some(SessionError::Protocol)
                },
                Some(m) => {
                    if m.t@ == "VOICE_SERVER_UPDATE"@ {
                        match m.d {
                            None => {
                                &&& final(session)@ == s
                                &&& r.replies@ == no_notifications()
                                &&& r.connect is None
                                &&& r.opened is None
                                &&& r.finalized is None
                                &&& r.close
                                &&& r.error == Some(SessionError::Protocol)
                            },
                            Some(vsu) => {
                                let ok = is_decimal(vsu.guild_id@) && decimal_val(vsu.guild_id@)
                                    <= u64::MAX && is_decimal(vsu.user_id@) && decimal_val(
                                    vsu.user_id@,
                                ) <= u64::MAX;
                                if ok {
                                    &&& final(session)@ == s.spec_set_bot_id(
                                        decimal_val(vsu.user_id@) as u64,
                                    )
                                    &&& r.connect is Some
                                    &&& r.connect->0.guild_id == decimal_val(vsu.guild_id@)
                                    &&& r.connect->0.user_id == decimal_val(vsu.user_id@)
                                    &&& r.connect->0.endpoint@ == vsu.endpoint@
                                    &&& r.connect->0.token@ == vsu.token@
                                    &&& r.connect->0.session_id@ == vsu.session_id@
                                    &&& r.connect->0.channel_id is None
                                    &&& r.replies@ == no_notifications()
                                    &&& r.opened is None
                                    &&& r.finalized is None
                                    &&& !r.close
                                    &&& r.error is None
                                } else {
                                    &&& final(session)@ == s
                                    &&& r.replies@ == no_notifications()
                                    &&& r.connect is None
                                    &&& r.opened is None
                                    &&& r.finalized is None
                                    &&& !r.close
                                    &&& r.error == Some(SessionError::Transport)
                                }
                            },
                        }
                    } else if m.t@ == "START_RECORDING"@ {
                        &&& final(session)@ == s.spec_start()
                        &&& (r.opened is Some <==> (!s.destroy && !s.recording))
                        &&& (r.opened is Some ==> r.opened->0@ == header_bytes(s.format, 0))
                        &&& r.replies@ == (if !s.destroy && !s.recording {
                            seq![Notification::RecordingStarted]
                        } else {
                            no_notifications()
                        })
                        &&& r.connect is None
                        &&& r.finalized is None
                        &&& !r.close
                        &&& r.error is None
                    } else if m.t@ == "STOP_RECORDING"@ {
                        &&& final(session)@ == s.spec_stop()
                        &&& (r.finalized is Some <==> s.recording)
                        &&& (r.finalized is Some ==> r.finalized->0@ == header_bytes(
                            s.format,
                            s.samples.len() as int,
                        ))
                        &&& r.replies@ == s.stop_notifications()
                        &&& r.connect is None
                        &&& r.opened is None
                        &&& !r.close
                        &&& r.error is None
                    } else if m.t@ == "PING"@ {
                        &&& final(session)@ == s
                        &&& r.replies@ == seq![Notification::Pong]
                        &&& r.connect is None
                        &&& r.opened is None
                        &&& r.finalized is None
                        &&& !r.close
                        &&& r.error is None
                    } else {
                        &&& final(session)@ == s
                        &&& r.replies@ == no_notifications()
                        &&& r.connect is None
                        &&& r.opened is None
                        &&& r.finalized is None
                        &&& r.close
                        &&& r.error == Some(SessionError::Protocol)
                    }
                },
            }
        }),
{
    let m = match msg {
        Some(m) => m,
        None => {
            return refuse();
        },
    };
    if m.t == String::from_str("VOICE_SERVER_UPDATE") {
        let vsu = match m.voice_server_update() {
            Ok(vsu) => vsu,
            Err(_) => {
                return refuse();
            },
        };
        match vsu.to_connection_info() {
            Ok(details) => {
                session.set_bot_id(details.user_id);
                ControlOutcome {
                    replies: Vec::new(),
                    connect: Some(details),
                    opened: None,
                    finalized: None,
                    close: false,
                    error: None,
                }
            },
            Err(_) => ControlOutcome {
                replies: Vec::new(),
                connect: None,
                opened: None,
                finalized: None,
                close: false,
                error: Some(SessionError::Transport),
            },
        }
    } else if m.t == String::from_str("START_RECORDING") {
        let opened = session.start_recording();
        let mut replies: Vec<Notification> = Vec::new();
        if opened.is_some() {
            replies.push(Notification::RecordingStarted);
            proof {
                assert(replies@ =~= seq![Notification::RecordingStarted]);
            }
        }
        ControlOutcome {
            replies,
            connect: None,
            opened,
            finalized: None,
            close: false,
            error: None,
        }
    } else if m.t == String::from_str("STOP_RECORDING") {
        let finalized = session.stop_recording();
        let mut replies: Vec<Notification> = Vec::new();
        if finalized.is_some() {
            replies.push(Notification::RecordingStopped);
            proof {
                assert(replies@ =~= seq![Notification::RecordingStopped]);
            }
        }
        ControlOutcome {
            replies,
            connect: None,
            opened: None,
            finalized,
            close: false,
            error: None,
        }
    } else if m.t == String::from_str("PING") {
        let mut replies: Vec<Notification> = Vec::new();
        replies.push(Notification::Pong);
        proof {
            assert(replies@ =~= seq![Notification::Pong]);
        }
        ControlOutcome {
            replies,
            connect: None,
            opened: None,
            finalized: None,
            close: false,
            error: None,
        }
    } else {
        refuse()
    }
}

} // verus!
