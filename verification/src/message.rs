//! Control-channel wire entities: the tagged message envelope, the
//! connection-credential payload, and the outbound status
//! notifications, together with the error taxonomy of the session.

use vstd::prelude::*;
use vstd::string::StrSliceExecFns;
use vstd::string::StringExecFns;

verus! {

/// How an operation on the session can fail.
#[derive(Clone, Copy, PartialEq, Eq, Structural, Debug)]
pub enum SessionError {
    /// A malformed or unrecognized control message; the connection is
    /// closed in response.
    Protocol,
    /// Connection credentials that cannot be used; the session stays
    /// idle.
    Transport,
    /// A failure of the container's storage; the current recording is
    /// stopped.
    Io,
}

/// A status notification owed to the connected client.
#[derive(Clone, Copy, PartialEq, Eq, Structural, Debug)]
pub enum Notification {
    RecordingStarted,
    RecordingStopped,
    Connected,
    Disconnected,
    Pong,
}

impl Notification {
    /// The tag the notification travels under in the outbound
    /// envelope.
    pub open spec fn spec_tag(self) -> Seq<char> {
        match self {
            Notification::RecordingStarted => "RECORDING_STARTED"@,
            Notification::RecordingStopped => "RECORDING_STOPPED"@,
            Notification::Connected => "CONNECTED"@,
            Notification::Disconnected => "DISCONNECTED"@,
            Notification::Pong => "PONG"@,
        }
    }

    /// The wire tag of this notification.
    pub fn tag(&self) -> (t: &'static str)
        ensures
            t@ == self.spec_tag(),
    {
        match self {
            Notification::RecordingStarted => "RECORDING_STARTED",
            Notification::RecordingStopped => "RECORDING_STOPPED",
            Notification::Connected => "CONNECTED",
            Notification::Disconnected => "DISCONNECTED",
            Notification::Pong => "PONG",
        }
    }
}

/// The connection credentials carried by a `VOICE_SERVER_UPDATE`
/// message: every field still in its wire form.
#[derive(Debug)]
pub struct VoiceServerUpdate {
    pub endpoint: String,
    pub guild_id: String,
    pub token: String,
    pub user_id: String,
    pub session_id: String,
}

/// Parsed connection credentials, ready for the transport: the numeric
/// identifiers decoded from their wire form.
#[derive(Debug)]
pub struct ConnectionDetails {
    pub channel_id: Option<u64>,
    pub endpoint: String,
    pub guild_id: u64,
    pub token: String,
    pub session_id: String,
    pub user_id: u64,
}

/// One control message: a tag and, for connection setup, a credential
/// payload. A message whose payload did not have the credential shape
/// carries `d: None`.
#[derive(Debug)]
pub struct WebSocketMessage {
    pub t: String,
    pub d: Option<VoiceServerUpdate>,
}

impl WebSocketMessage {
    /// A message carrying a payload.
    pub fn new(t: &str, d: VoiceServerUpdate) -> (m: Self)
        ensures
            m.t@ == t@,
            m.d == Some(d),
    {
        WebSocketMessage { t: t.to_owned(), d: Some(d) }
    }

    /// A bare event message: a tag with no payload.
    pub fn new_event(t: &str) -> (m: Self)
        ensures
            m.t@ == t@,
            m.d is None,
    {
        WebSocketMessage { t: t.to_owned(), d: None }
    }

    /// The message's tag.
    pub fn gen(&self) -> (t: &str)
        ensures
            t@ == self.t@,
    {
        self.t.as_str()
    }

    /// The credential payload, owed exactly when the message carries
    /// one; a message without it is a protocol violation.
    pub fn voice_server_update(&self) -> (r: Result<VoiceServerUpdate, SessionError>)
        ensures
            r is Ok <==> self.d is Some,
            r is Ok ==> r->Ok_0 == self.d->0,
            r is Err ==> r->Err_0 == SessionError::Protocol,
    {
        match &self.d {
            Some(v) => Ok(
                VoiceServerUpdate {
                    endpoint: v.endpoint.clone(),
                    guild_id: v.guild_id.clone(),
                    token: v.token.clone(),
                    user_id: v.user_id.clone(),
                    session_id: v.session_id.clone(),
                },
            ),
            None => Err(SessionError::Protocol),
        }
    }
}

/// Whether `c` is a decimal digit.
pub open spec fn is_digit(c: char) -> bool {
    48 <= c as u32 <= 57
}

/// The numeric value of a digit.
pub open spec fn digit_val(c: char) -> int {
    c as u32 - 48
}

/// Whether `s` is a non-empty run of decimal digits.
pub open spec fn is_decimal(s: Seq<char>) -> bool {
    s.len() > 0 && forall|k: int| 0 <= k < s.len() ==> is_digit(#[trigger] s[k])
}

/// The number a run of digits denotes, most significant first.
pub open spec fn decimal_val(s: Seq<char>) -> int
    decreases s.len(),
{
    if s.len() == 0 {
        0
    } else {
        decimal_val(s.drop_last()) * 10 + digit_val(s.last())
    }
}

proof fn lemma_decimal_take_step(s: Seq<char>, j: int)
    requires
        0 <= j < s.len(),
    ensures
        decimal_val(s.take(j + 1)) == decimal_val(s.take(j)) * 10 + digit_val(s[j]),
{
    assert(s.take(j + 1).drop_last() =~= s.take(j));
    assert(s.take(j + 1).last() == s[j]);
}

proof fn lemma_decimal_nonneg(s: Seq<char>)
    requires
        forall|k: int| 0 <= k < s.len() ==> is_digit(#[trigger] s[k]),
    ensures
        decimal_val(s) >= 0,
    decreases s.len(),
{
    if s.len() > 0 {
        assert(forall|k: int|
            0 <= k < s.drop_last().len() ==> is_digit(#[trigger] s.drop_last()[k]));
        lemma_decimal_nonneg(s.drop_last());
        assert(is_digit(s.last()));
        assert(decimal_val(s.drop_last()) * 10 >= 0) by (nonlinear_arith)
            requires
                decimal_val(s.drop_last()) >= 0,
        ;
    }
}

proof fn lemma_decimal_prefix_le(s: Seq<char>, j: int)
    requires
        0 <= j <= s.len(),
        forall|k: int| 0 <= k < s.len() ==> is_digit(#[trigger] s[k]),
    ensures
        decimal_val(s.take(j)) <= decimal_val(s),
    decreases s.len() - j,
{
    if j < s.len() {
        lemma_decimal_take_step(s, j);
        assert(forall|k: int| 0 <= k < s.take(j).len() ==> is_digit(#[trigger] s.take(j)[k]));
        lemma_decimal_nonneg(s.take(j));
        assert(decimal_val(s.take(j)) * 10 + digit_val(s[j]) >= decimal_val(s.take(j)))
            by (nonlinear_arith)
            requires
                decimal_val(s.take(j)) >= 0,
                digit_val(s[j]) >= 0,
        ;
        lemma_decimal_prefix_le(s, j + 1);
    } else {
        assert(s.take(j) =~= s);
    }
}

/// Parse a decimal number from its wire form: succeeds exactly on a
/// non-empty, all-digit string whose value fits 64 unsigned bits, and
/// then returns that value.
pub fn parse_u64(s: &str) -> (r: Option<u64>)
    ensures
        r is Some <==> is_decimal(s@) && decimal_val(s@) <= u64::MAX,
        r is Some ==> r->0 == decimal_val(s@),
{
    let n = s.unicode_len();
    if n == 0 {
        return None;
    }
    let mut acc: u64 = 0;
    let mut i: usize = 0;
    while i < n
        invariant
            n == s@.len(),
            0 < n,
            0 <= i <= n,
            forall|k: int| 0 <= k < i ==> is_digit(#[trigger] s@[k]),
            acc == decimal_val(s@.take(i as int)),
        decreases n - i,
    {
        let c = s.get_char(i);
        let v = c as u32;
        if v < 48 || v > 57 {
            return None;
        }
        let d = (v - 48) as u64;
        proof {
            lemma_decimal_take_step(s@, i as int);
        }
        if acc > (u64::MAX - d) / 10 {
            proof {
                assert(10 * acc + d > u64::MAX) by (nonlinear_arith)
                    requires
                        acc > (u64::MAX - d) / 10,
                        0 <= d <= 9,
                ;
                if is_decimal(s@) {
                    lemma_decimal_prefix_le(s@, i + 1);
                }
            }
            return None;
        }
        assert(acc * 10 + d <= u64::MAX) by (nonlinear_arith)
            requires
                acc <= (u64::MAX - d) / 10,
                0 <= d <= 9,
        ;
        acc = acc * 10 + d;
        i = i + 1;
    }
    proof {
        assert(s@.take(n as int) =~= s@);
    }
    Some(acc)
}

impl VoiceServerUpdate {
    /// Decode the credentials for the transport: the guild and user
    /// identifiers must be decimal numbers that fit 64 unsigned bits,
    /// else the credentials are unusable and the failure is a
    /// transport error.
    pub fn to_connection_info(&self) -> (r: Result<ConnectionDetails, SessionError>)
        ensures
            ({
                let ok = is_decimal(self.guild_id@) && decimal_val(self.guild_id@) <= u64::MAX
                    && is_decimal(self.user_id@) && decimal_val(self.user_id@) <= u64::MAX;
                &&& (r is Ok <==> ok)
                &&& (r is Ok ==> {
                    let c = r->Ok_0;
                    &&& c.channel_id is None
                    &&& c.endpoint@ == self.endpoint@
                    &&& c.guild_id == decimal_val(self.guild_id@)
                    &&& c.token@ == self.token@
                    &&& c.session_id@ == self.session_id@
                    &&& c.user_id == decimal_val(self.user_id@)
                })
                &&& (r is Err ==> r->Err_0 == SessionError::Transport)
            }),
    {
        let guild_id = match parse_u64(self.guild_id.as_str()) {
            Some(g) => g,
            None => {
                return Err(SessionError::Transport);
            },
        };
        let user_id = match parse_u64(self.user_id.as_str()) {
            Some(u) => u,
            None => {
                return Err(SessionError::Transport);
            },
        };
        Ok(
            ConnectionDetails {
                channel_id: None,
                endpoint: self.endpoint.clone(),
                guild_id,
                token: self.token.clone(),
                session_id: self.session_id.clone(),
                user_id,
            },
        )
    }
}

/// The outbound wire envelope around a tag: one JSON object whose
/// single member `t` holds the tag, which for the fixed outbound tags
/// contains only letters and underscores.
pub open spec fn envelope_text(t: Seq<char>) -> Seq<char> {
    "{\"t\":\""@ + t + "\"}"@
}

/// Frame an outbound tag in the wire envelope.
pub fn encode_event(t: &str) -> (r: String)
    ensures
        r@ == envelope_text(t@),
{
    let mut r = String::new();
    r.append("{\"t\":\"");
    r.append(t);
    r.append("\"}");
    proof {
        assert(r@ =~= envelope_text(t@));
    }
    r
}

} // verus!
