//! Session state and voice-event dispatch.
//!
//! One `DriverEventHandler` exists per connection. Its handlers are
//! only ever invoked while the session's exclusive lock is held, so
//! they run strictly sequentially; everything they decide is stated
//! against the session's mathematical state, a [`SessionView`].
//!
//! The handlers return what the caller owes the outside world: bytes
//! to append to the container file, the final header when a recording
//! ended, and status notifications for the client.

use crate::message::Notification;
use crate::mixer;
use crate::recorder::Recorder;
use crate::speakers::{no_speakers, speaker_entries, speakers_get, speakers_insert, speakers_new};
use crate::wav;
use crate::wav::{header_bytes, le_data, silence_frame, spec_silence_len, zeros, AudioFormat, MAX_SAMPLES};
use vstd::prelude::*;

verus! {

/// One speaker's share of a tick: the stream source it arrived on and
/// the decoded samples, when the transport decoded any.
pub struct VoiceData {
    pub ssrc: u32,
    pub decoded_voice: Option<Vec<i16>>,
}

/// One tick: every currently active speaker's decoded audio for one
/// fixed real-time interval.
pub struct VoiceTick {
    pub speaking: Vec<VoiceData>,
}

/// A speaking-state change: which participant a stream source now
/// speaks for, when the transport knows the participant.
#[derive(Clone, Copy, PartialEq, Eq, Structural)]
pub struct Speaking {
    pub ssrc: u32,
    pub user_id: Option<u64>,
}

/// The closed set of voice-lifecycle events the dispatcher handles.
/// Anything else the transport delivers maps to `Other`, which is
/// explicitly ignored rather than an error.
pub enum VoiceEvent {
    ClientDisconnect(u64),
    VoiceTick(VoiceTick),
    SpeakingStateUpdate(Speaking),
    RtpPacket,
    DriverConnect,
    DriverDisconnect,
    Other,
}

/// What the caller owes the outside world after an event: bytes that
/// extend the open container's data chunk, the container's final
/// header when the recording just ended, and status notifications for
/// the connected client.
pub struct EventOutcome {
    pub data: Option<Vec<u8>>,
    pub header: Option<Vec<u8>>,
    pub notifications: Vec<Notification>,
}

/// No notifications owed.
pub open spec fn no_notifications() -> Seq<Notification> {
    Seq::empty()
}

/// The decoded buffers a tick carries, in delivery order: one entry
/// per speaker whose audio was decoded.
pub open spec fn decoded_of(entries: Seq<VoiceData>) -> Seq<Seq<i16>>
    decreases entries.len(),
{
    if entries.len() == 0 {
        Seq::empty()
    } else {
        let rest = decoded_of(entries.drop_last());
        if entries.last().decoded_voice is Some {
            rest.push(entries.last().decoded_voice->0@)
        } else {
            rest
        }
    }
}

/// What one tick appends to the container: the mixed buffers, or one
/// tick-interval of silence when no speaker contributed decoded audio,
/// so that output timing stays gap-free.
pub open spec fn tick_addition(fmt: AudioFormat, bufs: Seq<Seq<i16>>) -> Seq<i16> {
    if bufs.len() == 0 {
        zeros(spec_silence_len(fmt))
    } else {
        mixer::mixed_i16(bufs)
    }
}

/// The mathematical state of one session.
pub struct SessionView {
    pub format: AudioFormat,
    pub bot_id: Option<u64>,
    pub recording: bool,
    pub samples: Seq<i16>,
    pub limit: Option<u64>,
    pub destroy: bool,
    pub speakers: Map<u32, u64>,
}

impl SessionView {
    /// A fresh session: idle, no owner, no sample limit, nothing
    /// recorded, no speaker associations.
    pub open spec fn init(fmt: AudioFormat) -> SessionView {
        SessionView {
            format: fmt,
            bot_id: None,
            recording: false,
            samples: Seq::empty(),
            limit: None,
            destroy: false,
            speakers: no_speakers(),
        }
    }

    /// Whether the configured sample limit has been reached.
    pub open spec fn limit_reached(self) -> bool {
        self.limit is Some && self.samples.len() >= self.limit->0
    }

    /// `start-recording`: opens a fresh, empty container unless one is
    /// already open or the session is being torn down.
    pub open spec fn spec_start(self) -> SessionView {
        if self.destroy || self.recording {
            self
        } else {
            SessionView { recording: true, samples: Seq::empty(), ..self }
        }
    }

    /// `stop-recording`: closes the open container if any; a stop
    /// without an active recording changes nothing.
    pub open spec fn spec_stop(self) -> SessionView {
        if self.recording {
            SessionView { recording: false, samples: Seq::empty(), ..self }
        } else {
            self
        }
    }

    /// The notifications a stop owes: one `RECORDING_STOPPED` when a
    /// recording actually ended, none otherwise.
    pub open spec fn stop_notifications(self) -> Seq<Notification> {
        if self.recording {
            seq![Notification::RecordingStopped]
        } else {
            no_notifications()
        }
    }

    /// Recording the owner identity from accepted connection
    /// credentials.
    pub open spec fn spec_set_bot_id(self, user_id: u64) -> SessionView {
        if self.destroy {
            self
        } else {
            SessionView { bot_id: Some(user_id), ..self }
        }
    }

    /// A speaking-state change: upsert the stream-source association;
    /// a change without a participant identity is ignored.
    pub open spec fn spec_speaking(self, data: Speaking) -> SessionView {
        if self.destroy || data.user_id is None {
            self
        } else {
            SessionView { speakers: self.speakers.insert(data.ssrc, data.user_id->0), ..self }
        }
    }

    /// A client-disconnect: when the disconnecting participant is the
    /// session owner, the recording stops and the session is marked
    /// for teardown; anyone else's disconnect changes nothing.
    pub open spec fn spec_client_disconnect(self, user_id: u64) -> SessionView {
        if self.destroy || self.bot_id != Some(user_id) {
            self
        } else {
            SessionView { destroy: true, ..self.spec_stop() }
        }
    }

    /// A driver-disconnect: the recording stops and the session is
    /// marked for teardown.
    pub open spec fn spec_driver_disconnect(self) -> SessionView {
        if self.destroy {
            self
        } else {
            SessionView { destroy: true, ..self.spec_stop() }
        }
    }

    /// One tick while recording: append the tick's addition, unless it
    /// would overflow the container's 32-bit size field, which forces
    /// a stop; reaching the configured limit after the append forces a
    /// stop as well.
    pub open spec fn spec_tick(self, bufs: Seq<Seq<i16>>) -> SessionView {
        if self.destroy || !self.recording {
            self
        } else {
            let add = tick_addition(self.format, bufs);
            if self.samples.len() + add.len() > MAX_SAMPLES {
                self.spec_stop()
            } else {
                let appended = SessionView { samples: self.samples + add, ..self };
                if appended.limit_reached() {
                    appended.spec_stop()
                } else {
                    appended
                }
            }
        }
    }

    /// Whether a tick ends the recording (container full, or the
    /// configured limit reached).
    pub open spec fn spec_tick_stops(self, bufs: Seq<Seq<i16>>) -> bool {
        &&& !self.destroy
        &&& self.recording
        &&& {
            let add = tick_addition(self.format, bufs);
            ||| self.samples.len() + add.len() > MAX_SAMPLES
            ||| (SessionView { samples: self.samples + add, ..self }).limit_reached()
        }
    }

    /// The samples a tick appends to the container, when it appends
    /// any.
    pub open spec fn spec_tick_appends(self, bufs: Seq<Seq<i16>>) -> Option<Seq<i16>> {
        if self.destroy || !self.recording {
            None
        } else {
            let add = tick_addition(self.format, bufs);
            if self.samples.len() + add.len() > MAX_SAMPLES {
                None
            } else {
                Some(add)
            }
        }
    }

    /// The total sample count the container's header declares when a
    /// tick finalizes it.
    pub open spec fn spec_tick_total(self, bufs: Seq<Seq<i16>>) -> int {
        match self.spec_tick_appends(bufs) {
            Some(add) => self.samples.len() + add.len() as int,
            None => self.samples.len() as int,
        }
    }

    /// The state after any one voice event.
    pub open spec fn spec_event(self, e: VoiceEvent) -> SessionView {
        match e {
            VoiceEvent::ClientDisconnect(user_id) => self.spec_client_disconnect(user_id),
            VoiceEvent::VoiceTick(t) => self.spec_tick(decoded_of(t.speaking@)),
            VoiceEvent::SpeakingStateUpdate(s) => self.spec_speaking(s),
            VoiceEvent::RtpPacket => self,
            VoiceEvent::DriverConnect => self,
            VoiceEvent::DriverDisconnect => self.spec_driver_disconnect(),
            VoiceEvent::Other => self,
        }
    }

    /// The notifications any one voice event owes the client.
    pub open spec fn spec_event_notifications(self, e: VoiceEvent) -> Seq<Notification> {
        match e {
            VoiceEvent::ClientDisconnect(user_id) => if !self.destroy && self.bot_id == Some(
                user_id,
            ) {
                self.stop_notifications()
            } else {
                no_notifications()
            },
            VoiceEvent::VoiceTick(t) => if self.spec_tick_stops(decoded_of(t.speaking@)) {
                seq![Notification::RecordingStopped]
            } else {
                no_notifications()
            },
            VoiceEvent::SpeakingStateUpdate(_) => no_notifications(),
            VoiceEvent::RtpPacket => no_notifications(),
            VoiceEvent::DriverConnect => seq![Notification::Connected],
            VoiceEvent::DriverDisconnect => if self.destroy {
                no_notifications()
            } else {
                self.stop_notifications() + seq![Notification::Disconnected]
            },
            VoiceEvent::Other => no_notifications(),
        }
    }
}

/// The session structure one connection owns: the recording flag, the
/// owner identity, the stream-source association, the optional sample
/// limit, and the live recorder handle.
pub struct DriverEventHandler {
    recording_config: AudioFormat,
    bot_id: Option<u64>,
    is_recording: bool,
    ssrcs: dashmap::DashMap<u32, u64>,
    recording_limit: Option<u64>,
    recorder: Option<Recorder>,
    destroy: bool,
}

impl View for DriverEventHandler {
    type V = SessionView;

    closed spec fn view(&self) -> SessionView {
        SessionView {
            format: self.recording_config,
            bot_id: self.bot_id,
            recording: self.is_recording,
            samples: if self.recorder is Some {
                self.recorder->0@
            } else {
                Seq::empty()
            },
            limit: self.recording_limit,
            destroy: self.destroy,
            speakers: speaker_entries(self.ssrcs),
        }
    }
}

impl DriverEventHandler {
    /// The session invariant: a recording in progress holds an open
    /// recorder of the session's format, an idle session holds none,
    /// and a session marked for teardown no longer records.
    pub closed spec fn wf(&self) -> bool {
        &&& self.recording_config.wf()
        &&& (self.is_recording <==> self.recorder is Some)
        &&& (match self.recorder {
            Some(r) => r.wf() && r.spec_format() == self.recording_config,
            None => true,
        })
        &&& (self.destroy ==> !self.is_recording)
    }

    /// The session invariant seen at the model: the format is sound,
    /// an idle session holds no samples, and the container never
    /// outgrows its header's size field.
    pub proof fn lemma_view_wf(&self)
        requires
            self.wf(),
        ensures
            self@.format.wf(),
            !self@.recording ==> self@.samples.len() == 0,
            self@.samples.len() <= MAX_SAMPLES,
            self@.destroy ==> !self@.recording,
    {
        match self.recorder {
            Some(r) => {
                r.lemma_wf_bounds();
            },
            None => {},
        }
    }

    /// A fresh session for one connection.
    pub fn new() -> (s: Self)
        ensures
            s.wf(),
            s@ == SessionView::init(wav::standard_format()),
    {
        DriverEventHandler {
            recording_config: AudioFormat::standard(),
            bot_id: None,
            is_recording: false,
            ssrcs: speakers_new(),
            recording_limit: None,
            recorder: None,
            destroy: false,
        }
    }

    /// Record the owner identity: the participant whose disconnect
    /// ends the session.
    pub fn set_bot_id(&mut self, bot_id: u64)
        requires
            old(self).wf(),
        ensures
            final(self).wf(),
            final(self)@ == old(self)@.spec_set_bot_id(bot_id),
    {
        if !self.destroy {
            self.bot_id = Some(bot_id);
        }
    }

    /// Configure the maximum total sample count; reaching it forces an
    /// automatic stop.
    pub fn set_recording_limit(&mut self, limit: Option<u64>)
        requires
            old(self).wf(),
        ensures
            final(self).wf(),
            final(self)@ == (SessionView { limit: limit, ..old(self)@ }),
    {
        self.recording_limit = limit;
    }

    /// Begin recording: opens a fresh container unless one is already
    /// open or the session is being torn down. Returns the placeholder
    /// header the new container file starts with, exactly when a new
    /// container was opened; a repeated start returns nothing and
    /// changes nothing.
    pub fn start_recording(&mut self) -> (r: Option<Vec<u8>>)
        requires
            old(self).wf(),
        ensures
            final(self).wf(),
            final(self)@ == old(self)@.spec_start(),
            r is Some <==> (!old(self)@.destroy && !old(self)@.recording),
            r is Some ==> r->0@ == header_bytes(old(self)@.format, 0),
    {
        if self.destroy || self.is_recording {
            return None;
        }
        let (rec, placeholder) = Recorder::open(self.recording_config);
        self.recorder = Some(rec);
        self.is_recording = true;
        Some(placeholder)
    }

    /// Stop recording: finalizes the open container, if any, and
    /// returns its true header; a stop with no active recording is a
    /// no-op and returns nothing.
    pub fn stop_recording(&mut self) -> (r: Option<Vec<u8>>)
        requires
            old(self).wf(),
        ensures
            final(self).wf(),
            final(self)@ == old(self)@.spec_stop(),
            r is Some <==> old(self)@.recording,
            r is Some ==> r->0@ == header_bytes(
                old(self)@.format,
                old(self)@.samples.len() as int,
            ),
    {
        self.is_recording = false;
        match self.recorder.take() {
            Some(rec) => Some(rec.finalize()),
            None => None,
        }
    }

    /// Append one tick-interval of silence to the open container, as a
    /// tick with no active speaker does. Appends exactly when a
    /// recording is active and the silence still fits the container,
    /// and then returns the appended data bytes.
    pub fn add_emtpy_frame(&mut self) -> (r: Option<Vec<u8>>)
        requires
            old(self).wf(),
        ensures
            final(self).wf(),
            ({
                let add = zeros(spec_silence_len(old(self)@.format));
                if old(self)@.recording && old(self)@.samples.len() + add.len() <= MAX_SAMPLES {
                    &&& final(self)@ == (SessionView {
                        samples: old(self)@.samples + add,
                        ..old(self)@
                    })
                    &&& r is Some
                    &&& r->0@ == le_data(add)
                } else {
                    &&& final(self)@ == old(self)@
                    &&& r is None
                }
            }),
    {
        if !self.is_recording {
            return None;
        }
        let silence = silence_frame(self.recording_config);
        match &mut self.recorder {
            Some(rec) => {
                if rec.total_samples() <= MAX_SAMPLES - silence.len() as u64 {
                    let data = rec.write(&silence);
                    Some(data)
                } else {
                    None
                }
            },
            None => None,
        }
    }

    /// Mix the decoded buffers of one tick into a single batch; each
    /// output sample is the saturating 16-bit sum across the buffers
    /// at that index, and the batch is as long as the first buffer.
    pub fn merge_audio(data: Vec<Vec<i16>>) -> (out: Vec<i16>)
        ensures
            out@ == mixer::mixed_i16(data.deep_view()),
    {
        mixer::mix(&data)
    }

    /// One tick: while recording, append the mix of the active
    /// speakers' buffers — or one tick of silence when none are active
    /// — then stop automatically if the container is full or the
    /// configured limit is reached.
    pub fn on_voice_tick(&mut self, data: &VoiceTick) -> (r: EventOutcome)
        requires
            old(self).wf(),
        ensures
            final(self).wf(),
            final(self)@ == old(self)@.spec_tick(decoded_of(data.speaking@)),
            ({
                let s = old(self)@;
                let bufs = decoded_of(data.speaking@);
                &&& (r.data is Some <==> s.spec_tick_appends(bufs) is Some)
                &&& (r.data is Some ==> r.data->0@ == le_data(s.spec_tick_appends(bufs)->0))
                &&& (r.header is Some <==> s.spec_tick_stops(bufs))
                &&& (r.header is Some ==> r.header->0@ == header_bytes(
                    s.format,
                    s.spec_tick_total(bufs),
                ))
                &&& r.notifications@ == (if s.spec_tick_stops(bufs) {
                    seq![Notification::RecordingStopped]
                } else {
                    no_notifications()
                })
            }),
    {
        let ghost bufs_spec = decoded_of(data.speaking@);
        if self.destroy || !self.is_recording {
            return EventOutcome { data: None, header: None, notifications: Vec::new() };
        }
        let mut bufs: Vec<Vec<i16>> = Vec::new();
        let mut i: usize = 0;
        while i < data.speaking.len()
            invariant
                0 <= i <= data.speaking@.len(),
                bufs.deep_view() == decoded_of(data.speaking@.take(i as int)),
            decreases data.speaking@.len() - i,
        {
            proof {
                assert(data.speaking@.take(i + 1).drop_last() =~= data.speaking@.take(i as int));
                assert(data.speaking@.take(i + 1).last() == data.speaking@[i as int]);
            }
            match &data.speaking[i].decoded_voice {
                Some(v) => {
                    let c = v.clone();
                    proof {
                        assert forall|k: int| 0 <= k < v@.len() implies c@[k] == v@[k] by {}
                        assert(c@ =~= v@);
                    }
                    let ghost pre = bufs.deep_view();
                    bufs.push(c);
                    proof {
                        assert(bufs.deep_view() =~~= pre.push(v@));
                        assert(decoded_of(data.speaking@.take(i + 1)) == pre.push(v@));
                    }
                },
                None => {},
            }
            i = i + 1;
        }
        proof {
            assert(data.speaking@.take(data.speaking@.len() as int) =~= data.speaking@);
        }
        let add: Vec<i16> = if bufs.len() == 0 {
            silence_frame(self.recording_config)
        } else {
            mixer::mix(&bufs)
        };
        assert(add@ == tick_addition(self@.format, bufs_spec));
        let add_len: u64 = add.len() as u64;
        let fits: bool = match &self.recorder {
            Some(rec) => add_len <= MAX_SAMPLES && rec.total_samples() <= MAX_SAMPLES - add_len,
            None => false,
        };
        if !fits {
            let header = self.stop_recording();
            let mut notifications: Vec<Notification> = Vec::new();
            notifications.push(Notification::RecordingStopped);
            proof {
                assert(notifications@ =~= seq![Notification::RecordingStopped]);
            }
            return EventOutcome { data: None, header, notifications };
        }
        let out_data: Option<Vec<u8>> = match &mut self.recorder {
            Some(rec) => Some(rec.write(&add)),
            None => None,
        };
        let reached: bool = match (&self.recorder, self.recording_limit) {
            (Some(rec), Some(lim)) => rec.total_samples() >= lim,
            _ => false,
        };
        if reached {
            let header = self.stop_recording();
            let mut notifications: Vec<Notification> = Vec::new();
            notifications.push(Notification::RecordingStopped);
            proof {
                assert(notifications@ =~= seq![Notification::RecordingStopped]);
            }
            EventOutcome { data: out_data, header, notifications }
        } else {
            EventOutcome { data: out_data, header: None, notifications: Vec::new() }
        }
    }

    /// A speaking-state change: upsert the stream-source association.
    /// Never blocks on anything and touches no other state.
    pub fn on_speaking_state_update(&mut self, data: &Speaking)
        requires
            old(self).wf(),
        ensures
            final(self).wf(),
            final(self)@ == old(self)@.spec_speaking(*data),
    {
        if self.destroy {
            return;
        }
        match data.user_id {
            Some(user_id) => {
                speakers_insert(&mut self.ssrcs, data.ssrc, user_id);
            },
            None => {},
        }
    }

    /// Transported packets are received and deliberately ignored:
    /// capturing their payload is outside the recorder's scope.
    pub fn on_rtp_packet(&self) {
    }

    /// The participant a stream source currently speaks for, as the
    /// speaking-state updates reported it.
    pub fn speaker_for(&self, ssrc: u32) -> (r: Option<u64>)
        ensures
            r == (if self@.speakers.dom().contains(ssrc) {
                Some(self@.speakers[ssrc])
            } else {
                None::<u64>
            }),
    {
        speakers_get(&self.ssrcs, ssrc)
    }

    /// A client-disconnect: when the disconnecting participant is the
    /// session owner, stop any recording and mark the session for
    /// teardown; otherwise nothing changes and nothing is owed.
    pub fn on_client_disconnect(&mut self, user_id: u64) -> (r: EventOutcome)
        requires
            old(self).wf(),
        ensures
            final(self).wf(),
            final(self)@ == old(self)@.spec_client_disconnect(user_id),
            r.data is None,
            ({
                let s = old(self)@;
                if !s.destroy && s.bot_id == Some(user_id) {
                    &&& (r.header is Some <==> s.recording)
                    &&& (r.header is Some ==> r.header->0@ == header_bytes(
                        s.format,
                        s.samples.len() as int,
                    ))
                    &&& r.notifications@ == s.stop_notifications()
                } else {
                    &&& r.header is None
                    &&& r.notifications@ == no_notifications()
                }
            }),
    {
        let matches_owner: bool = match self.bot_id {
            Some(b) => b == user_id,
            None => false,
        };
        if self.destroy || !matches_owner {
            return EventOutcome { data: None, header: None, notifications: Vec::new() };
        }
        let was_recording = self.is_recording;
        let header = self.stop_recording();
        self.destroy = true;
        let mut notifications: Vec<Notification> = Vec::new();
        if was_recording {
            notifications.push(Notification::RecordingStopped);
            proof {
                assert(notifications@ =~= seq![Notification::RecordingStopped]);
            }
        }
        EventOutcome { data: None, header, notifications }
    }

    /// A driver-connect: the client is owed a `CONNECTED`
    /// notification; session state does not change.
    pub fn on_driver_connect(&self) -> (r: Vec<Notification>)
        ensures
            r@ == seq![Notification::Connected],
    {
        let mut r: Vec<Notification> = Vec::new();
        r.push(Notification::Connected);
        proof {
            assert(r@ =~= seq![Notification::Connected]);
        }
        r
    }

    /// A driver-disconnect: stop any recording, mark the session for
    /// teardown, and owe the client a `DISCONNECTED` notification
    /// (after the stop notification when a recording ended).
    pub fn on_driver_disconnect(&mut self) -> (r: EventOutcome)
        requires
            old(self).wf(),
        ensures
            final(self).wf(),
            final(self)@ == old(self)@.spec_driver_disconnect(),
            r.data is None,
            ({
                let s = old(self)@;
                if s.destroy {
                    &&& r.header is None
                    &&& r.notifications@ == no_notifications()
                } else {
                    &&& (r.header is Some <==> s.recording)
                    &&& (r.header is Some ==> r.header->0@ == header_bytes(
                        s.format,
                        s.samples.len() as int,
                    ))
                    &&& r.notifications@ == s.stop_notifications() + seq![
                        Notification::Disconnected,
                    ]
                }
            }),
    {
        if self.destroy {
            return EventOutcome { data: None, header: None, notifications: Vec::new() };
        }
        let was_recording = self.is_recording;
        let header = self.stop_recording();
        self.destroy = true;
        let mut notifications: Vec<Notification> = Vec::new();
        if was_recording {
            notifications.push(Notification::RecordingStopped);
        }
        notifications.push(Notification::Disconnected);
        proof {
            if was_recording {
                assert(notifications@ =~= seq![
                    Notification::RecordingStopped,
                    Notification::Disconnected,
                ]);
                assert(old(self)@.stop_notifications() + seq![Notification::Disconnected] =~= seq![
                    Notification::RecordingStopped,
                    Notification::Disconnected,
                ]);
            } else {
                assert(notifications@ =~= seq![Notification::Disconnected]);
                assert(old(self)@.stop_notifications() + seq![Notification::Disconnected] =~= seq![
                    Notification::Disconnected,
                ]);
            }
        }
        EventOutcome { data: None, header, notifications }
    }

    /// The dispatcher: the single entry point for every voice event.
    /// Events never overlap because the caller holds the session's
    /// exclusive lock across each call; unrecognized events are
    /// ignored, never an error.
    pub fn act(&mut self, ctx: &VoiceEvent) -> (r: EventOutcome)
        requires
            old(self).wf(),
        ensures
            final(self).wf(),
            final(self)@ == old(self)@.spec_event(*ctx),
            r.notifications@ == old(self)@.spec_event_notifications(*ctx),
            ({
                let s = old(self)@;
                match *ctx {
                    VoiceEvent::VoiceTick(t) => {
                        let bufs = decoded_of(t.speaking@);
                        &&& (r.data is Some <==> s.spec_tick_appends(bufs) is Some)
                        &&& (r.data is Some ==> r.data->0@ == le_data(
                            s.spec_tick_appends(bufs)->0,
                        ))
                        &&& (r.header is Some <==> s.spec_tick_stops(bufs))
                        &&& (r.header is Some ==> r.header->0@ == header_bytes(
                            s.format,
                            s.spec_tick_total(bufs),
                        ))
                    },
                    VoiceEvent::ClientDisconnect(user_id) => {
                        &&& r.data is None
                        &&& (r.header is Some <==> (!s.destroy && s.bot_id == Some(user_id)
                            && s.recording))
                        &&& (r.header is Some ==> r.header->0@ == header_bytes(
                            s.format,
                            s.samples.len() as int,
                        ))
                    },
                    VoiceEvent::DriverDisconnect => {
                        &&& r.data is None
                        &&& (r.header is Some <==> (!s.destroy && s.recording))
                        &&& (r.header is Some ==> r.header->0@ == header_bytes(
                            s.format,
                            s.samples.len() as int,
                        ))
                    },
                    _ => r.data is None && r.header is None,
                }
            }),
    {
        match ctx {
            VoiceEvent::ClientDisconnect(user_id) => self.on_client_disconnect(*user_id),
            VoiceEvent::VoiceTick(t) => self.on_voice_tick(t),
            VoiceEvent::SpeakingStateUpdate(s) => {
                self.on_speaking_state_update(s);
                EventOutcome { data: None, header: None, notifications: Vec::new() }
            },
            VoiceEvent::RtpPacket => {
                self.on_rtp_packet();
                EventOutcome { data: None, header: None, notifications: Vec::new() }
            },
            VoiceEvent::DriverConnect => {
                let notifications = self.on_driver_connect();
                EventOutcome { data: None, header: None, notifications }
            },
            VoiceEvent::DriverDisconnect => self.on_driver_disconnect(),
            VoiceEvent::Other => EventOutcome { data: None, header: None, notifications: Vec::new() },
        }
    }
}

/// Law: starting twice is the same as starting once — the second
/// start opens no second container and changes nothing at all.
pub proof fn lemma_start_idempotent(s: SessionView)
    ensures
        s.spec_start().spec_start() == s.spec_start(),
{
}

/// Law: a stop with no active recording is a no-op and owes no
/// notification.
pub proof fn lemma_stop_without_recording(s: SessionView)
    requires
        !s.recording,
    ensures
        s.spec_stop() == s,
        s.stop_notifications() == no_notifications(),
{
}

/// Law: a client-disconnect whose participant is not the session
/// owner changes nothing.
pub proof fn lemma_client_disconnect_foreign(s: SessionView, user_id: u64)
    requires
        s.bot_id != Some(user_id),
    ensures
        s.spec_client_disconnect(user_id) == s,
{
}

/// Law: a tick that carries no decoded audio appends exactly one
/// tick-interval of silence in place of a mixer result.
pub proof fn lemma_empty_tick_is_silence(fmt: AudioFormat)
    ensures
        tick_addition(fmt, Seq::empty()) == zeros(spec_silence_len(fmt)),
{
}

/// Law: a tick that reaches the configured sample limit stops the
/// recording exactly as an explicit stop after the append would: the
/// same end state and the same notification.
pub proof fn lemma_limit_stop_is_stop(s: SessionView, bufs: Seq<Seq<i16>>)
    requires
        !s.destroy,
        s.recording,
        s.samples.len() + tick_addition(s.format, bufs).len() <= MAX_SAMPLES,
        (SessionView { samples: s.samples + tick_addition(s.format, bufs), ..s }).limit_reached(),
    ensures
        s.spec_tick(bufs) == (SessionView {
            samples: s.samples + tick_addition(s.format, bufs),
            ..s
        }).spec_stop(),
        s.spec_tick_stops(bufs),
        (SessionView {
            samples: s.samples + tick_addition(s.format, bufs),
            ..s
        }).stop_notifications() == seq![Notification::RecordingStopped],
{
}

/// The session state after `n` ticks of pure silence.
pub open spec fn run_silent_ticks(s: SessionView, n: nat) -> SessionView
    decreases n,
{
    if n == 0 {
        s
    } else {
        run_silent_ticks(s, (n - 1) as nat).spec_tick(Seq::empty())
    }
}

/// Law: after a start and `n` ticks of pure silence, an unlimited
/// session's container holds exactly `n` tick-intervals of zero
/// samples, and is still recording until the stop that follows.
pub proof fn lemma_silent_session(s: SessionView, n: nat)
    requires
        !s.destroy,
        !s.recording,
        s.limit is None,
        s.format.wf(),
        n * spec_silence_len(s.format) <= MAX_SAMPLES,
    ensures
        run_silent_ticks(s.spec_start(), n).samples == zeros(n * spec_silence_len(s.format)),
        run_silent_ticks(s.spec_start(), n).recording,
        run_silent_ticks(s.spec_start(), n).format == s.format,
        run_silent_ticks(s.spec_start(), n).limit is None,
        !run_silent_ticks(s.spec_start(), n).destroy,
    decreases n,
{
    wav::lemma_silence_len_bounds(s.format);
    let l = spec_silence_len(s.format);
    let st = s.spec_start();
    if n == 0 {
        assert(n * l == 0) by (nonlinear_arith)
            requires
                n == 0,
        ;
        assert(st.samples =~= zeros(n * l));
    } else {
        assert((n - 1) * l >= 0 && (n - 1) * l + l == n * l) by (nonlinear_arith)
            requires
                l >= 0,
                n >= 1,
        ;
        lemma_silent_session(s, (n - 1) as nat);
        let prev = run_silent_ticks(st, (n - 1) as nat);
        assert(tick_addition(prev.format, Seq::empty()) == zeros(l));
        assert(prev.samples + zeros(l) =~= zeros(n * l));
        assert(run_silent_ticks(st, n) == prev.spec_tick(Seq::empty()));
    }
}

} // verus!
