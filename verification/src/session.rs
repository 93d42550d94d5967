//! The session protocol engine: connection options, the handshake gate,
//! classification of inbound wire frames, the pending-event queue, and
//! orderly shutdown.
//!
//! The engine is a state machine over plain values. The transport that
//! feeds it — the socket, the tasks, the locks — lives outside this
//! crate: a caller hands each inbound wire frame to `handle_frame`,
//! performs the action it returns, and sends the texts that
//! `prepare_send` produces. Every decision the engine makes is specified
//! here and proved.

use vstd::prelude::*;
use vstd::string::StringExecFns;

use crate::events::{
    events_v, lemma_events_v, parse_server_event, spec_classify, ClassifiedV, ServerEvent,
    ServerEventV,
};
use crate::json::{ser, sp_parse, JsonV};
use crate::protocol::{
    enc_client_message, enc_setup_envelope, ClientMessage, ErrorResponse, GeminiError,
    GeminiErrorV, Setup,
};

verus! {

/// The public preview endpoint for live API sessions.
pub const DEFAULT_LIVE_ENDPOINT: &'static str = "wss://generativelanguage.googleapis.com/ws/google.ai.generativelanguage.v1beta.GenerativeService.BidiGenerateContent";

/// Mathematical model of the session engine's state.
pub ghost struct SessionCoreV {
    /// Events observed while awaiting the setup acknowledgment, in
    /// arrival order, not yet delivered to the caller.
    pub pending: Seq<ServerEventV>,
    /// The single source of truth for whether further sends and
    /// receives are permitted.
    pub closed: bool,
}

/// The session protocol engine's state: the pending-event queue and the
/// closed flag.
pub struct SessionCore {
    pending: Vec<ServerEvent>,
    closed: bool,
}

impl View for SessionCore {
    type V = SessionCoreV;

    closed spec fn view(&self) -> SessionCoreV {
        SessionCoreV { pending: events_v(self.pending@), closed: self.closed }
    }
}

/// Mathematical model of an inbound wire frame.
pub ghost enum WireFrameV {
    Text(Seq<char>),
    Binary(Seq<u8>),
    Ping(Seq<u8>),
    Pong(Seq<u8>),
    Close(Option<(Seq<char>, Seq<char>)>),
}

/// Close details reported by the peer: a code and a reason.
#[derive(Debug, Clone, PartialEq)]
pub struct CloseInfo {
    pub code: String,
    pub reason: String,
}

/// An inbound frame of the duplex transport, as plain values.
#[derive(Debug, Clone, PartialEq)]
pub enum WireFrame {
    Text(String),
    Binary(Vec<u8>),
    Ping(Vec<u8>),
    Pong(Vec<u8>),
    Close(Option<CloseInfo>),
}

impl View for WireFrame {
    type V = WireFrameV;

    open spec fn view(&self) -> WireFrameV {
        match self {
            WireFrame::Text(t) => WireFrameV::Text(t@),
            WireFrame::Binary(b) => WireFrameV::Binary(b@),
            WireFrame::Ping(p) => WireFrameV::Ping(p@),
            WireFrame::Pong(p) => WireFrameV::Pong(p@),
            WireFrame::Close(o) => WireFrameV::Close(
                match o {
                    Some(ci) => Some((ci.code@, ci.reason@)),
                    None => None,
                },
            ),
        }
    }
}

/// Mathematical model of what one inbound frame yields.
pub ghost enum FrameStepV {
    Event(ServerEventV),
    Pong(Seq<u8>),
    Continue,
    End,
    Fail(GeminiErrorV),
}

/// What the caller must do with one inbound frame.
#[derive(Debug, Clone, PartialEq)]
pub enum FrameStep {
    /// Deliver this event.
    Event(ServerEvent),
    /// Answer the peer with a pong carrying this payload; no event.
    Pong(Vec<u8>),
    /// Nothing to deliver; read the next frame.
    Continue,
    /// The stream ended cleanly: deliver nothing, now and ever after.
    End,
    /// Report this failure to the caller.
    Fail(GeminiError),
}

impl View for FrameStep {
    type V = FrameStepV;

    open spec fn view(&self) -> FrameStepV {
        match self {
            FrameStep::Event(e) => FrameStepV::Event(e@),
            FrameStep::Pong(p) => FrameStepV::Pong(p@),
            FrameStep::Continue => FrameStepV::Continue,
            FrameStep::End => FrameStepV::End,
            FrameStep::Fail(e) => FrameStepV::Fail(e@),
        }
    }
}

/// What classification of a decoded document yields for the caller:
/// the event, or the error that reports the violation.
pub open spec fn classify_result(v: JsonV) -> Result<ServerEventV, GeminiErrorV> {
    match spec_classify(v) {
        ClassifiedV::Event(ev) => Ok(ev),
        ClassifiedV::NotObject => Err(GeminiErrorV::UnexpectedServerMessage(v)),
        ClassifiedV::Multiple(names) => Err(GeminiErrorV::MultipleServerMessageTypes(names)),
        ClassifiedV::BadPayload(k) => Err(GeminiErrorV::Decode(k)),
    }
}

/// What one text payload yields: parsed and classified, or a decode
/// failure for a malformed frame.
pub open spec fn spec_decode_text(t: Seq<char>) -> Result<ServerEventV, GeminiErrorV> {
    match sp_parse(t) {
        Some(v) => classify_result(v),
        None => Err(GeminiErrorV::Decode("frame"@)),
    }
}

pub open spec fn step_of(r: Result<ServerEventV, GeminiErrorV>) -> FrameStepV {
    match r {
        Ok(ev) => FrameStepV::Event(ev),
        Err(e) => FrameStepV::Fail(e),
    }
}

/// How the engine reacts to one inbound wire frame: text and binary
/// payloads are decoded and classified; a ping is answered with a pong;
/// a pong is ignored; a close frame closes the session, cleanly without
/// details, as a reported server closure with them.
pub open spec fn spec_handle_frame(s: SessionCoreV, f: WireFrameV) -> (SessionCoreV, FrameStepV) {
    match f {
        WireFrameV::Text(t) => (s, step_of(spec_decode_text(t))),
        WireFrameV::Binary(b) => if vstd::utf8::valid_utf8(b) {
            (s, step_of(spec_decode_text(vstd::utf8::decode_utf8(b))))
        } else {
            (s, FrameStepV::Fail(GeminiErrorV::Decode("frame"@)))
        },
        WireFrameV::Ping(p) => (s, FrameStepV::Pong(p)),
        WireFrameV::Pong(_) => (s, FrameStepV::Continue),
        WireFrameV::Close(None) => (SessionCoreV { closed: true, ..s }, FrameStepV::End),
        WireFrameV::Close(Some(ci)) => (
            SessionCoreV { closed: true, ..s },
            FrameStepV::Fail(GeminiErrorV::ServerClosed { code: ci.0, reason: ci.1 }),
        ),
    }
}

/// Relies on String::from_utf8: succeeds exactly on valid UTF-8 and
/// decodes it to the characters it encodes.
#[verifier::external_body]
fn utf8_to_string(bytes: &Vec<u8>) -> (r: Option<String>)
    ensures
        (r is Some) == vstd::utf8::valid_utf8(bytes@),
        r matches Some(s) ==> s@ == vstd::utf8::decode_utf8(bytes@),
{
    String::from_utf8(bytes.clone()).ok()
}

/// Decodes one text payload into a frame step.
fn decode_text_step(t: &str) -> (r: FrameStep)
    ensures
        r@ == step_of(spec_decode_text(t@)),
{
    match crate::json::parse_json_str(t) {
        Some(v) => match parse_server_event(&v) {
            Ok(ev) => FrameStep::Event(ev),
            Err(e) => FrameStep::Fail(e),
        },
        None => FrameStep::Fail(GeminiError::Decode(String::from_str("frame"))),
    }
}

/// The outcome of feeding one classified event to the handshake gate.
#[derive(Debug, Clone, PartialEq)]
pub enum SetupStep {
    /// The acknowledgment arrived: the session is active.
    Ready,
    /// The server rejected the setup with this error payload.
    Rejected(ErrorResponse),
    /// An ordinary event arrived first: it was appended to the pending
    /// queue for delivery after activation.
    Buffered,
}

impl SessionCore {
    /// A fresh engine: nothing pending, not closed.
    pub fn new() -> (s: SessionCore)
        ensures
            s@.pending == Seq::<ServerEventV>::empty(),
            !s@.closed,
    {
        SessionCore { pending: Vec::new(), closed: false }
    }

    /// Whether the session is closed for further sends and receives.
    pub fn is_closed(&self) -> (r: bool)
        ensures
            r == self@.closed,
    {
        self.closed
    }

    /// The number of pending events awaiting delivery.
    pub fn pending_len(&self) -> (n: usize)
        ensures
            n == self@.pending.len(),
    {
        proof {
            broadcast use lemma_events_v;

        }
        self.pending.len()
    }

    /// Builds the text for an outbound message: exactly one complete
    /// JSON object whose single top-level key names the message kind.
    /// Fails with a closed-connection error — and hands the caller
    /// nothing to write — whenever the session is closed.
    pub fn prepare_send(&self, message: &ClientMessage) -> (r: Result<String, GeminiError>)
        ensures
            self@.closed ==> (r matches Err(e) && e@ == GeminiErrorV::ConnectionClosed),
            !self@.closed ==> (r matches Ok(t) && t@ == ser(enc_client_message(message@))),
    {
        if self.closed {
            Err(GeminiError::ConnectionClosed)
        } else {
            Ok(crate::json::json_to_string(&message.to_json()))
        }
    }

    /// Builds the text of the setup envelope, the first outbound
    /// message of a session, under the same closed-connection gate.
    pub fn prepare_setup(&self, setup: &Setup) -> (r: Result<String, GeminiError>)
        ensures
            self@.closed ==> (r matches Err(e) && e@ == GeminiErrorV::ConnectionClosed),
            !self@.closed ==> (r matches Ok(t) && t@ == ser(enc_setup_envelope(setup@))),
    {
        if self.closed {
            Err(GeminiError::ConnectionClosed)
        } else {
            Ok(crate::json::json_to_string(&setup.to_envelope_json()))
        }
    }

    /// Marks the session closed and says whether a close frame must be
    /// sent: only on the transition, so closing twice never sends two
    /// close frames, and never fails.
    pub fn close_step(&mut self) -> (send_close: bool)
        ensures
            final(self)@.closed,
            final(self)@.pending == old(self)@.pending,
            send_close == !old(self)@.closed,
    {
        if self.closed {
            false
        } else {
            self.closed = true;
            true
        }
    }

    /// Marks the session closed after the inbound stream is exhausted;
    /// every later receive is then a cheap no-op.
    pub fn note_stream_end(&mut self)
        ensures
            final(self)@.closed,
            final(self)@.pending == old(self)@.pending,
    {
        self.closed = true;
    }

    /// Takes the oldest pending event, if any: the queue is drained
    /// first-in, first-out before the wire is read again.
    pub fn take_pending(&mut self) -> (r: Option<ServerEvent>)
        ensures
            old(self)@.pending.len() == 0 ==> r is None && final(self)@ == old(self)@,
            old(self)@.pending.len() > 0 ==> (r matches Some(e) && e@ == old(self)@.pending[0]
                && final(self)@.pending == old(self)@.pending.drop_first() && final(self)@.closed
                == old(self)@.closed),
    {
        proof {
            broadcast use lemma_events_v;

        }
        if self.pending.len() > 0 {
            let e = self.pending.remove(0);
            proof {
                assert(events_v(self.pending@) =~= events_v(old(self).pending@).drop_first());
            }
            Some(e)
        } else {
            None
        }
    }

    /// Feeds one event to the handshake gate: the acknowledgment
    /// activates the session, an error event is a server-rejected
    /// setup, and anything else is buffered in arrival order.
    pub fn expect_setup_step(&mut self, event: ServerEvent) -> (r: SetupStep)
        ensures
            (event@ is SetupComplete) ==> r == SetupStep::Ready && final(self)@ == old(self)@,
            event@ matches ServerEventV::Error { error, .. } ==> (r matches SetupStep::Rejected(e)
                && e@ == error && final(self)@ == old(self)@),
            (!(event@ is SetupComplete) && !(event@ is Error)) ==> r == SetupStep::Buffered
                && final(self)@.pending == old(self)@.pending.push(event@)
                && final(self)@.closed == old(self)@.closed,
    {
        match event {
            ServerEvent::SetupComplete { .. } => SetupStep::Ready,
            ServerEvent::Error { error, .. } => SetupStep::Rejected(error),
            other => {
                let ghost prev = self.pending@;
                self.pending.push(other);
                proof {
                    broadcast use lemma_events_v;

                    assert(events_v(self.pending@) =~= events_v(prev).push(
                        self.pending@.last()@,
                    ));
                }
                SetupStep::Buffered
            },
        }
    }

    /// Reacts to one inbound wire frame.
    pub fn handle_frame(&mut self, frame: WireFrame) -> (r: FrameStep)
        ensures
            final(self)@ == spec_handle_frame(old(self)@, frame@).0,
            r@ == spec_handle_frame(old(self)@, frame@).1,
    {
        match frame {
            WireFrame::Text(t) => decode_text_step(t.as_str()),
            WireFrame::Binary(b) => match utf8_to_string(&b) {
                Some(t) => decode_text_step(t.as_str()),
                None => FrameStep::Fail(GeminiError::Decode(String::from_str("frame"))),
            },
            WireFrame::Ping(p) => FrameStep::Pong(p),
            WireFrame::Pong(_) => FrameStep::Continue,
            WireFrame::Close(o) => {
                self.closed = true;
                match o {
                    None => FrameStep::End,
                    Some(ci) => FrameStep::Fail(
                        GeminiError::ServerClosed { code: ci.code, reason: ci.reason },
                    ),
                }
            },
        }
    }
}

// ---------------------------------------------------------------------
// The laws of the engine.
// ---------------------------------------------------------------------

/// Closing is idempotent: the first close of an open session asks for
/// one close frame; closing again asks for none, changes nothing, and
/// has no failure case.
pub open spec fn spec_close_step(s: SessionCoreV) -> (SessionCoreV, bool) {
    (SessionCoreV { closed: true, ..s }, !s.closed)
}

pub proof fn lemma_close_idempotent(s: SessionCoreV)
    ensures
        spec_close_step(spec_close_step(s).0).1 == false,
        spec_close_step(spec_close_step(s).0).0 == spec_close_step(s).0,
        !s.closed ==> spec_close_step(s).1 == true,
{
}

/// What one receive poll yields before any wire activity: the oldest
/// pending event if one is queued, otherwise nothing when the session
/// is closed, otherwise a fresh read from the wire is needed.
pub open spec fn spec_recv_poll(s: SessionCoreV) -> (SessionCoreV, RecvPollV) {
    if s.pending.len() > 0 {
        (SessionCoreV { pending: s.pending.drop_first(), ..s }, RecvPollV::Deliver(s.pending[0]))
    } else if s.closed {
        (s, RecvPollV::Finished)
    } else {
        (s, RecvPollV::NeedFrame)
    }
}

/// Mathematical model of a receive poll's outcome.
pub ghost enum RecvPollV {
    Deliver(ServerEventV),
    Finished,
    NeedFrame,
}

/// Outcome of polling the engine for the next event.
#[derive(Debug, Clone, PartialEq)]
pub enum RecvPoll {
    /// Deliver this event to the caller.
    Deliver(ServerEvent),
    /// The session is over: yield nothing, without touching the wire.
    Finished,
    /// Read the next frame from the wire and feed it to `handle_frame`.
    NeedFrame,
}

impl View for RecvPoll {
    type V = RecvPollV;

    open spec fn view(&self) -> RecvPollV {
        match self {
            RecvPoll::Deliver(e) => RecvPollV::Deliver(e@),
            RecvPoll::Finished => RecvPollV::Finished,
            RecvPoll::NeedFrame => RecvPollV::NeedFrame,
        }
    }
}

impl SessionCore {
    /// Polls for the next event: pending events drain first, in order;
    /// a closed session yields nothing, cheaply, without the wire.
    pub fn recv_poll(&mut self) -> (r: RecvPoll)
        ensures
            final(self)@ == spec_recv_poll(old(self)@).0,
            r@ == spec_recv_poll(old(self)@).1,
    {
        match self.take_pending() {
            Some(e) => RecvPoll::Deliver(e),
            None => {
                if self.closed {
                    RecvPoll::Finished
                } else {
                    RecvPoll::NeedFrame
                }
            },
        }
    }
}

/// After the inbound stream has ended and the queue has drained, every
/// receive yields nothing, leaves the state exactly as it was, and so
/// yields nothing again on every subsequent call — it never re-blocks
/// on the wire and never fails differently.
pub proof fn lemma_recv_after_end(s: SessionCoreV)
    requires
        s.closed,
        s.pending.len() == 0,
    ensures
        spec_recv_poll(s).1 is Finished,
        spec_recv_poll(s).0 == s,
{
}

/// The handshake gate's outcome when the inbound stream ends before
/// the acknowledgment: the setup was never acknowledged, and the
/// failure is fatal to the session.
pub fn setup_stream_end() -> (e: GeminiError)
    ensures
        e@ == GeminiErrorV::SetupNotAcknowledged,
{
    GeminiError::SetupNotAcknowledged
}

/// Runs the handshake gate over a stream of events until the first
/// acknowledgment or error event.
pub open spec fn spec_run_setup(s: SessionCoreV, evs: Seq<ServerEventV>) -> SessionCoreV
    decreases evs.len(),
{
    if evs.len() == 0 {
        s
    } else if evs[0] is SetupComplete || evs[0] is Error {
        s
    } else {
        spec_run_setup(SessionCoreV { pending: s.pending.push(evs[0]), ..s }, evs.drop_first())
    }
}

/// Events observed between the setup send and its acknowledgment are
/// buffered in arrival order: when the acknowledgment is the first
/// terminal event in the stream, the queue afterwards holds exactly the
/// events that preceded it, in their original order, appended to
/// whatever was queued before. Since `take_pending` drains the queue
/// first-in first-out before the wire is read again, they are delivered
/// in that order, ahead of any event read after activation.
pub proof fn lemma_setup_preserves_order(s: SessionCoreV, evs: Seq<ServerEventV>, k: int)
    requires
        0 <= k <= evs.len(),
        forall|j: int| 0 <= j < k ==> !((#[trigger] evs[j]) is SetupComplete) && !(evs[j] is Error),
        k < evs.len() ==> evs[k] is SetupComplete || evs[k] is Error,
    ensures
        spec_run_setup(s, evs).pending == s.pending + evs.subrange(0, k),
        spec_run_setup(s, evs).closed == s.closed,
    decreases k,
{
    if k == 0 {
        assert(s.pending + evs.subrange(0, 0) =~= s.pending);
        if evs.len() > 0 {
            assert(evs[0] is SetupComplete || evs[0] is Error);
        }
    } else {
        let s1 = SessionCoreV { pending: s.pending.push(evs[0]), ..s };
        assert(forall|j: int|
            0 <= j < k - 1 ==> !((#[trigger] evs.drop_first()[j]) is SetupComplete) && !(
            evs.drop_first()[j] is Error)) by {
            assert(forall|j: int|
                0 <= j < k - 1 ==> #[trigger] evs.drop_first()[j] == evs[j + 1]);
        };
        lemma_setup_preserves_order(s1, evs.drop_first(), k - 1);
        assert(evs.drop_first().subrange(0, k - 1) =~= evs.subrange(1, k));
        assert(s.pending.push(evs[0]) + evs.subrange(1, k) =~= s.pending + evs.subrange(0, k));
    }
}

// ---------------------------------------------------------------------
// Connection options.
// ---------------------------------------------------------------------

pub open spec fn pairs_v(s: Seq<(String, String)>) -> Seq<(Seq<char>, Seq<char>)>
    decreases s,
{
    if s.len() == 0 {
        Seq::empty()
    } else {
        pairs_v(s.drop_last()).push((s.last().0@, s.last().1@))
    }
}

pub broadcast proof fn lemma_pairs_v(s: Seq<(String, String)>)
    ensures
        (#[trigger] pairs_v(s)).len() == s.len(),
        forall|i: int| 0 <= i < s.len() ==> pairs_v(s)[i] == (s[i].0@, s[i].1@),
    decreases s,
{
    if s.len() > 0 {
        lemma_pairs_v(s.drop_last());
    }
}

/// Mathematical model of the connection parameters.
pub ghost struct ConnectionOptionsV {
    pub endpoint: Seq<char>,
    pub api_key: Option<Seq<char>>,
    pub access_token: Option<Seq<char>>,
}

/// Connection parameters for creating a live session: the endpoint and
/// the credentials, as plain values. The transport request itself is
/// built outside this crate from the query pairs and headers stated
/// here.
#[derive(Debug, Clone, PartialEq)]
pub struct ConnectionOptions {
    endpoint: String,
    api_key: Option<String>,
    access_token: Option<String>,
}

impl View for ConnectionOptions {
    type V = ConnectionOptionsV;

    closed spec fn view(&self) -> ConnectionOptionsV {
        ConnectionOptionsV {
            endpoint: self.endpoint@,
            api_key: crate::protocol::opt_str_v(self.api_key),
            access_token: crate::protocol::opt_str_v(self.access_token),
        }
    }
}

/// Builder for customizing connection options.
#[derive(Debug, Clone, PartialEq)]
pub struct ConnectionOptionsBuilder {
    endpoint: Option<String>,
    api_key: Option<String>,
    access_token: Option<String>,
}

/// Mathematical model of the builder.
pub ghost struct ConnectionOptionsBuilderV {
    pub endpoint: Option<Seq<char>>,
    pub api_key: Option<Seq<char>>,
    pub access_token: Option<Seq<char>>,
}

impl View for ConnectionOptionsBuilder {
    type V = ConnectionOptionsBuilderV;

    closed spec fn view(&self) -> ConnectionOptionsBuilderV {
        ConnectionOptionsBuilderV {
            endpoint: crate::protocol::opt_str_v(self.endpoint),
            api_key: crate::protocol::opt_str_v(self.api_key),
            access_token: crate::protocol::opt_str_v(self.access_token),
        }
    }
}

impl ConnectionOptionsBuilder {
    /// Sets the endpoint.
    pub fn endpoint(self, endpoint: String) -> (r: Self)
        ensures
            r@.endpoint == Some(endpoint@),
            r@.api_key == self@.api_key,
            r@.access_token == self@.access_token,
    {
        ConnectionOptionsBuilder { endpoint: Some(endpoint), ..self }
    }

    /// Sets the API key credential.
    pub fn api_key(self, api_key: String) -> (r: Self)
        ensures
            r@.api_key == Some(api_key@),
            r@.endpoint == self@.endpoint,
            r@.access_token == self@.access_token,
    {
        ConnectionOptionsBuilder { api_key: Some(api_key), ..self }
    }

    /// Sets the bearer token credential.
    pub fn access_token(self, access_token: String) -> (r: Self)
        ensures
            r@.access_token == Some(access_token@),
            r@.endpoint == self@.endpoint,
            r@.api_key == self@.api_key,
    {
        ConnectionOptionsBuilder { access_token: Some(access_token), ..self }
    }

    /// Builds the options: a missing endpoint falls back to the default
    /// live endpoint.
    pub fn build(self) -> (r: ConnectionOptions)
        ensures
            r@.endpoint == (match self@.endpoint {
                Some(e) => e,
                None => DEFAULT_LIVE_ENDPOINT@,
            }),
            r@.api_key == self@.api_key,
            r@.access_token == self@.access_token,
    {
        let endpoint = match self.endpoint {
            Some(e) => e,
            None => String::from_str(DEFAULT_LIVE_ENDPOINT),
        };
        ConnectionOptions { endpoint, api_key: self.api_key, access_token: self.access_token }
    }
}

/// The authentication query pairs appended to the endpoint: the API key
/// under "key" and the bearer token under "access_token", each when
/// present.
pub open spec fn auth_query_pairs(o: ConnectionOptionsV) -> Seq<(Seq<char>, Seq<char>)> {
    (match o.api_key {
        Some(k) => seq![("key"@, k)],
        None => Seq::empty(),
    }) + (match o.access_token {
        Some(t) => seq![("access_token"@, t)],
        None => Seq::empty(),
    })
}

/// The authentication headers of the transport request: the API key
/// under "X-Goog-Api-Key" and the bearer token as an Authorization
/// header, each when present.
pub open spec fn auth_headers(o: ConnectionOptionsV) -> Seq<(Seq<char>, Seq<char>)> {
    (match o.api_key {
        Some(k) => seq![("X-Goog-Api-Key"@, k)],
        None => Seq::empty(),
    }) + (match o.access_token {
        Some(t) => seq![("Authorization"@, "Bearer "@ + t)],
        None => Seq::empty(),
    })
}

impl ConnectionOptions {
    /// Creates options pointing at the default live endpoint, with no
    /// credentials.
    pub fn new() -> (r: Self)
        ensures
            r@.endpoint == DEFAULT_LIVE_ENDPOINT@,
            r@.api_key is None,
            r@.access_token is None,
    {
        ConnectionOptions::builder().build()
    }

    /// Returns the configured endpoint.
    pub fn endpoint(&self) -> (r: &String)
        ensures
            r@ == self@.endpoint,
    {
        &self.endpoint
    }

    /// Returns a builder for customizing the connection options.
    pub fn builder() -> (r: ConnectionOptionsBuilder)
        ensures
            r@.endpoint is None,
            r@.api_key is None,
            r@.access_token is None,
    {
        ConnectionOptionsBuilder { endpoint: None, api_key: None, access_token: None }
    }

    /// The query pairs that authenticate the connection.
    pub fn query_pairs(&self) -> (r: Vec<(String, String)>)
        ensures
            pairs_v(r@) == auth_query_pairs(self@),
    {
        let mut out: Vec<(String, String)> = Vec::new();
        match &self.api_key {
            Some(k) => {
                out.push((String::from_str("key"), k.clone()));
            },
            None => {},
        }
        match &self.access_token {
            Some(t) => {
                out.push((String::from_str("access_token"), t.clone()));
            },
            None => {},
        }
        proof {
            broadcast use lemma_pairs_v;

            assert(pairs_v(out@) =~= auth_query_pairs(self@));
        }
        out
    }

    /// The headers that authenticate the connection.
    pub fn header_pairs(&self) -> (r: Vec<(String, String)>)
        ensures
            pairs_v(r@) == auth_headers(self@),
    {
        let mut out: Vec<(String, String)> = Vec::new();
        match &self.api_key {
            Some(k) => {
                out.push((String::from_str("X-Goog-Api-Key"), k.clone()));
            },
            None => {},
        }
        match &self.access_token {
            Some(t) => {
                let mut bearer: Vec<char> = Vec::new();
                crate::protocol::push_str_chars(&mut bearer, "Bearer ");
                crate::protocol::push_str_chars(&mut bearer, t.as_str());
                out.push((String::from_str("Authorization"), crate::text::chars_string(&bearer)));
            },
            None => {},
        }
        proof {
            broadcast use lemma_pairs_v;

            assert(pairs_v(out@) =~= auth_headers(self@));
        }
        out
    }
}

impl Default for ConnectionOptions {
    /// The default options point at the default live endpoint with no
    /// credentials.
    fn default() -> (r: Self)
        ensures
            r@.endpoint == DEFAULT_LIVE_ENDPOINT@,
            r@.api_key is None,
            r@.access_token is None,
    {
        ConnectionOptions::new()
    }
}

} // verus!
