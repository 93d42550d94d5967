//! The typed client and server message families of the live session
//! protocol, their wire encodings, and the errors a session can report.
//!
//! Every outbound envelope is a JSON object with exactly one top-level
//! key naming the client message kind; the encoders here state that shape
//! exactly, over the mathematical model of each type.

use base64::Engine;
use vstd::prelude::*;
use vstd::string::StringExecFns;

use crate::json::{jv, jv_fields, jv_seq, JsonV, JsonValue};
use crate::text::str_chars;

verus! {

/// Errors that can arise while using the live session client.
#[derive(Debug, Clone, PartialEq)]
pub enum GeminiError {
    /// The configured endpoint could not be parsed as a URL.
    InvalidEndpoint(String),
    /// The transport request could not be built from the endpoint.
    RequestBuild(String),
    /// An authentication header value was not well-formed.
    InvalidHeaderValue(String),
    /// The underlying transport reported an error.
    WebSocket(String),
    /// A wire payload did not decode: the offending event-kind key, or
    /// "frame" for a frame that was not a well-formed document.
    Decode(String),
    /// The connection is closed; no further sends or receives are possible.
    ConnectionClosed,
    /// The server closed the stream before acknowledging setup.
    SetupNotAcknowledged,
    /// A decoded message matched more than one event kind; all matched
    /// keys are reported.
    MultipleServerMessageTypes(Vec<String>),
    /// A decoded message was not a JSON object.
    UnexpectedServerMessage(JsonValue),
    /// The server rejected the session with an error payload.
    ServerError(ErrorResponse),
    /// The transport handshake returned a status other than a protocol
    /// switch.
    HandshakeStatus(u16),
    /// The server closed the connection abnormally.
    ServerClosed { code: String, reason: String },
}

/// Convenience result alias for live session operations.
pub type Result<T> = core::result::Result<T, GeminiError>;

/// Mathematical model of a server error payload.
pub ghost struct ErrorResponseV {
    pub code: Option<i32>,
    pub message: Option<Seq<char>>,
    pub status: Option<Seq<char>>,
    pub details: Seq<JsonV>,
}

/// Standard error payload returned by the service.
#[derive(Debug, Clone, PartialEq)]
pub struct ErrorResponse {
    pub code: Option<i32>,
    pub message: Option<String>,
    pub status: Option<String>,
    pub details: Vec<JsonValue>,
}

pub open spec fn opt_str_v(o: Option<String>) -> Option<Seq<char>> {
    match o {
        Some(s) => Some(s@),
        None => None,
    }
}

pub open spec fn opt_json_v(o: Option<JsonValue>) -> Option<JsonV> {
    match o {
        Some(v) => Some(jv(v)),
        None => None,
    }
}

impl View for ErrorResponse {
    type V = ErrorResponseV;

    open spec fn view(&self) -> ErrorResponseV {
        ErrorResponseV {
            code: self.code,
            message: opt_str_v(self.message),
            status: opt_str_v(self.status),
            details: jv_seq(self.details@),
        }
    }
}

impl Default for ErrorResponse {
    /// An empty error payload: no code, message, status or details.
    fn default() -> (r: Self)
        ensures
            r@.code is None,
            r@.message is None,
            r@.status is None,
            r@.details == Seq::<JsonV>::empty(),
    {
        ErrorResponse { code: None, message: None, status: None, details: Vec::new() }
    }
}

/// The human-readable rendering of an error payload: the message, then
/// whichever of code and status are known, or "unknown error" when the
/// payload carries none of the three.
pub open spec fn render_error(e: ErrorResponseV) -> Seq<char> {
    match (e.message, e.code, e.status) {
        (Some(m), Some(c), Some(s)) => m + " (code "@ + crate::text::dec_int(c as int)
            + ", status "@ + s + ")"@,
        (Some(m), Some(c), None) => m + " (code "@ + crate::text::dec_int(c as int) + ")"@,
        (Some(m), None, Some(s)) => m + " (status "@ + s + ")"@,
        (Some(m), None, None) => m,
        (None, Some(c), Some(s)) => "code "@ + crate::text::dec_int(c as int) + ", status "@ + s,
        (None, Some(c), None) => "code "@ + crate::text::dec_int(c as int),
        (None, None, Some(s)) => "status "@ + s,
        (None, None, None) => "unknown error"@,
    }
}

/// Appends the characters of a string slice.
pub(crate) fn push_str_chars(out: &mut Vec<char>, s: &str)
    ensures
        final(out)@ == old(out)@ + s@,
{
    let mut cs = str_chars(s);
    out.append(&mut cs);
}

impl ErrorResponse {
    /// Renders the payload as human-readable text.
    pub fn render(&self) -> (r: String)
        ensures
            r@ == render_error(self@),
    {
        let mut out: Vec<char> = Vec::new();
        match &self.message {
            Some(m) => {
                push_str_chars(&mut out, m.as_str());
            },
            None => {},
        }
        match (&self.message, &self.code, &self.status) {
            (Some(_), Some(code), Some(status)) => {
                push_str_chars(&mut out, " (code ");
                let mut digits = crate::text::i64_dec_chars(*code as i64);
                out.append(&mut digits);
                push_str_chars(&mut out, ", status ");
                push_str_chars(&mut out, status.as_str());
                push_str_chars(&mut out, ")");
            },
            (Some(_), Some(code), None) => {
                push_str_chars(&mut out, " (code ");
                let mut digits = crate::text::i64_dec_chars(*code as i64);
                out.append(&mut digits);
                push_str_chars(&mut out, ")");
            },
            (Some(_), None, Some(status)) => {
                push_str_chars(&mut out, " (status ");
                push_str_chars(&mut out, status.as_str());
                push_str_chars(&mut out, ")");
            },
            (Some(_), None, None) => {},
            (None, Some(code), Some(status)) => {
                push_str_chars(&mut out, "code ");
                let mut digits = crate::text::i64_dec_chars(*code as i64);
                out.append(&mut digits);
                push_str_chars(&mut out, ", status ");
                push_str_chars(&mut out, status.as_str());
            },
            (None, Some(code), None) => {
                push_str_chars(&mut out, "code ");
                let mut digits = crate::text::i64_dec_chars(*code as i64);
                out.append(&mut digits);
            },
            (None, None, Some(status)) => {
                push_str_chars(&mut out, "status ");
                push_str_chars(&mut out, status.as_str());
            },
            (None, None, None) => {
                push_str_chars(&mut out, "unknown error");
            },
        }
        proof {
            assert(out@ =~= render_error(self@));
        }
        crate::text::chars_string(&out)
    }
}

/// The standard base64 alphabet, in order.
pub open spec fn b64_alphabet() -> Seq<char> {
    seq![
        'A', 'B', 'C', 'D', 'E', 'F', 'G', 'H', 'I', 'J', 'K', 'L', 'M', 'N', 'O', 'P', 'Q',
        'R', 'S', 'T', 'U', 'V', 'W', 'X', 'Y', 'Z', 'a', 'b', 'c', 'd', 'e', 'f', 'g', 'h',
        'i', 'j', 'k', 'l', 'm', 'n', 'o', 'p', 'q', 'r', 's', 't', 'u', 'v', 'w', 'x', 'y',
        'z', '0', '1', '2', '3', '4', '5', '6', '7', '8', '9', '+', '/',
    ]
}

/// Standard base64 with padding: each group of three bytes becomes four
/// alphabet characters; a final group of one or two bytes is padded with
/// '=' to four characters.
pub open spec fn spec_base64(bs: Seq<u8>) -> Seq<char>
    decreases bs.len(),
{
    let a = b64_alphabet();
    if bs.len() == 0 {
        Seq::empty()
    } else if bs.len() == 1 {
        let b0 = bs[0];
        seq![a[(b0 >> 2) as int], a[((b0 & 3) << 4) as int], '=', '=']
    } else if bs.len() == 2 {
        let b0 = bs[0];
        let b1 = bs[1];
        seq![
            a[(b0 >> 2) as int],
            a[(((b0 & 3) << 4) | (b1 >> 4)) as int],
            a[((b1 & 15) << 2) as int],
            '=',
        ]
    } else {
        let b0 = bs[0];
        let b1 = bs[1];
        let b2 = bs[2];
        seq![
            a[(b0 >> 2) as int],
            a[(((b0 & 3) << 4) | (b1 >> 4)) as int],
            a[((((b1 & 15) << 2) | (b2 >> 6))) as int],
            a[(b2 & 63) as int],
        ] + spec_base64(bs.skip(3))
    }
}

/// Relies on the base64 crate's STANDARD engine: RFC 4648 base64 with
/// the standard alphabet and '=' padding.
#[verifier::external_body]
pub(crate) fn base64_standard(bytes: &[u8]) -> (r: String)
    ensures
        r@ == spec_base64(bytes@),
{
    base64::engine::general_purpose::STANDARD.encode(bytes)
}

/// Mathematical model of a binary payload.
pub ghost struct BlobV {
    pub mime_type: Option<Seq<char>>,
    pub data: Seq<char>,
}

/// Binary payload helper for audio/video frames: base64 text plus an
/// optional MIME type.
#[derive(Debug, Clone, PartialEq)]
pub struct Blob {
    pub mime_type: Option<String>,
    pub data: String,
}

impl View for Blob {
    type V = BlobV;

    open spec fn view(&self) -> BlobV {
        BlobV { mime_type: opt_str_v(self.mime_type), data: self.data@ }
    }
}

impl Blob {
    /// Creates a blob by base64-encoding the provided bytes.
    pub fn from_bytes(bytes: &[u8]) -> (r: Blob)
        ensures
            r@.mime_type is None,
            r@.data == spec_base64(bytes@),
    {
        Blob { mime_type: None, data: base64_standard(bytes) }
    }

    /// Sets the MIME type for the blob.
    pub fn with_mime_type(self, mime_type: String) -> (r: Blob)
        ensures
            r@.mime_type == Some(mime_type@),
            r@.data == self@.data,
    {
        Blob { mime_type: Some(mime_type), data: self.data }
    }
}

/// Mathematical model of a content part.
pub ghost enum PartV {
    Text(Seq<char>),
    Json(JsonV),
}

/// A single content part: plain text, or a raw JSON value.
#[derive(Debug, Clone, PartialEq)]
pub enum Part {
    Text { text: String },
    Json(JsonValue),
}

impl View for Part {
    type V = PartV;

    open spec fn view(&self) -> PartV {
        match self {
            Part::Text { text } => PartV::Text(text@),
            Part::Json(v) => PartV::Json(jv(*v)),
        }
    }
}

impl Part {
    /// Builds a plain text part.
    pub fn text(text: String) -> (r: Part)
        ensures
            r@ == PartV::Text(text@),
    {
        Part::Text { text }
    }

    /// Builds a raw JSON part.
    pub fn json(value: JsonValue) -> (r: Part)
        ensures
            r@ == PartV::Json(value@),
    {
        Part::Json(value)
    }
}

pub open spec fn parts_v(s: Seq<Part>) -> Seq<PartV>
    decreases s,
{
    if s.len() == 0 {
        Seq::empty()
    } else {
        parts_v(s.drop_last()).push(s.last()@)
    }
}

pub broadcast proof fn lemma_parts_v(s: Seq<Part>)
    ensures
        (#[trigger] parts_v(s)).len() == s.len(),
        forall|i: int| 0 <= i < s.len() ==> parts_v(s)[i] == s[i]@,
    decreases s,
{
    if s.len() > 0 {
        lemma_parts_v(s.drop_last());
    }
}

/// Mathematical model of a content turn.
pub ghost struct ContentV {
    pub role: Option<Seq<char>>,
    pub parts: Seq<PartV>,
}

/// Conversation content shared between client and server messages.
#[derive(Debug, Clone, PartialEq)]
pub struct Content {
    pub role: Option<String>,
    pub parts: Vec<Part>,
}

impl View for Content {
    type V = ContentV;

    open spec fn view(&self) -> ContentV {
        ContentV { role: opt_str_v(self.role), parts: parts_v(self.parts@) }
    }
}

impl Default for Content {
    /// A content turn with no role and no parts.
    fn default() -> (r: Self)
        ensures
            r@.role is None,
            r@.parts == Seq::<PartV>::empty(),
    {
        Content { role: None, parts: Vec::new() }
    }
}

impl Content {
    /// Builds a simple text turn with the provided role.
    pub fn text(role: String, text: String) -> (r: Content)
        ensures
            r@.role == Some(role@),
            r@.parts == seq![PartV::Text(text@)],
    {
        let mut parts: Vec<Part> = Vec::new();
        parts.push(Part::text(text));
        proof {
            broadcast use lemma_parts_v;

            assert(parts_v(parts@) =~= seq![parts@[0]@]);
        }
        Content { role: Some(role), parts }
    }

    /// Builds a system text instruction.
    pub fn system(text: String) -> (r: Content)
        ensures
            r@.role == Some("system"@),
            r@.parts == seq![PartV::Text(text@)],
    {
        Content::text(String::from_str("system"), text)
    }
}

/// A singleton member list when the value is present, else no members.
pub open spec fn opt_field(k: Seq<char>, v: Option<JsonV>) -> Seq<(Seq<char>, JsonV)> {
    match v {
        Some(x) => seq![(k, x)],
        None => Seq::empty(),
    }
}

/// The wire encoding of a content part: a text part is an object with a
/// single "text" member; a raw JSON part is the value itself.
pub open spec fn enc_part(p: PartV) -> JsonV {
    match p {
        PartV::Text(t) => JsonV::Obj(seq![("text"@, JsonV::Str(t))]),
        PartV::Json(v) => v,
    }
}

pub open spec fn enc_parts(ps: Seq<PartV>) -> Seq<JsonV>
    decreases ps,
{
    if ps.len() == 0 {
        Seq::empty()
    } else {
        enc_parts(ps.drop_last()).push(enc_part(ps.last()))
    }
}

pub broadcast proof fn lemma_enc_parts(ps: Seq<PartV>)
    ensures
        (#[trigger] enc_parts(ps)).len() == ps.len(),
        forall|i: int| 0 <= i < ps.len() ==> enc_parts(ps)[i] == enc_part(ps[i]),
    decreases ps,
{
    if ps.len() > 0 {
        lemma_enc_parts(ps.drop_last());
    }
}

/// The wire encoding of a content turn: the role when present, and the
/// parts when there are any.
pub open spec fn enc_content(c: ContentV) -> JsonV {
    JsonV::Obj(
        opt_field(
            "role"@,
            match c.role {
                Some(r) => Some(JsonV::Str(r)),
                None => None,
            },
        ) + if c.parts.len() == 0 {
            Seq::empty()
        } else {
            seq![("parts"@, JsonV::Arr(enc_parts(c.parts)))]
        },
    )
}

impl Part {
    /// Encodes the part for the wire.
    pub fn to_json(&self) -> (r: JsonValue)
        ensures
            r@ == enc_part(self@),
    {
        match self {
            Part::Text { text } => {
                let mut fields: Vec<(String, JsonValue)> = Vec::new();
                fields.push((String::from_str("text"), JsonValue::Str(text.clone())));
                proof {
                    broadcast use crate::json::lemma_jv_fields_len;

                    assert(jv_fields(fields@) =~= seq![("text"@, JsonV::Str(text@))]);
                }
                JsonValue::Obj(fields)
            },
            Part::Json(v) => v.clone(),
        }
    }
}

impl Content {
    /// Encodes the turn for the wire.
    #[verifier::loop_isolation(false)]
    pub fn to_json(&self) -> (r: JsonValue)
        ensures
            r@ == enc_content(self@),
    {
        let mut fields: Vec<(String, JsonValue)> = Vec::new();
        match &self.role {
            Some(r) => {
                fields.push((String::from_str("role"), JsonValue::Str(r.clone())));
            },
            None => {},
        }
        let ghost role_fields = jv_fields(fields@);
        if self.parts.len() > 0 {
            let mut items: Vec<JsonValue> = Vec::new();
            let n = self.parts.len();
            for i in 0..n
                invariant
                    n == self.parts@.len(),
                    items@.len() == i,
                    forall|k: int|
                        0 <= k < i ==> jv(#[trigger] items@[k]) == enc_part(self.parts@[k]@),
            {
                items.push(self.parts[i].to_json());
            }
            proof {
                broadcast use crate::json::lemma_jv_seq_len, lemma_enc_parts, lemma_parts_v;

                assert(jv_seq(items@) =~= enc_parts(parts_v(self.parts@)));
            }
            fields.push((String::from_str("parts"), JsonValue::Arr(items)));
        }
        proof {
            broadcast use crate::json::lemma_jv_fields_len;

            assert(jv_fields(fields@) =~= enc_content(self@)->Obj_0);
        }
        JsonValue::Obj(fields)
    }
}

pub open spec fn opt_bool_j(o: Option<bool>) -> Option<JsonV> {
    match o {
        Some(b) => Some(JsonV::Bool(b)),
        None => None,
    }
}

pub open spec fn opt_str_j(o: Option<Seq<char>>) -> Option<JsonV> {
    match o {
        Some(s) => Some(JsonV::Str(s)),
        None => None,
    }
}

pub open spec fn opt_i32_j(o: Option<i32>) -> Option<JsonV> {
    match o {
        Some(i) => Some(JsonV::Int(i as i64)),
        None => None,
    }
}

pub open spec fn contents_v(s: Seq<Content>) -> Seq<ContentV>
    decreases s,
{
    if s.len() == 0 {
        Seq::empty()
    } else {
        contents_v(s.drop_last()).push(s.last()@)
    }
}

pub broadcast proof fn lemma_contents_v(s: Seq<Content>)
    ensures
        (#[trigger] contents_v(s)).len() == s.len(),
        forall|i: int| 0 <= i < s.len() ==> contents_v(s)[i] == s[i]@,
    decreases s,
{
    if s.len() > 0 {
        lemma_contents_v(s.drop_last());
    }
}

pub open spec fn enc_contents(cs: Seq<ContentV>) -> Seq<JsonV>
    decreases cs,
{
    if cs.len() == 0 {
        Seq::empty()
    } else {
        enc_contents(cs.drop_last()).push(enc_content(cs.last()))
    }
}

pub broadcast proof fn lemma_enc_contents(cs: Seq<ContentV>)
    ensures
        (#[trigger] enc_contents(cs)).len() == cs.len(),
        forall|i: int| 0 <= i < cs.len() ==> enc_contents(cs)[i] == enc_content(cs[i]),
    decreases cs,
{
    if cs.len() > 0 {
        lemma_enc_contents(cs.drop_last());
    }
}

/// Mathematical model of a client content message.
pub ghost struct ClientContentV {
    pub turns: Seq<ContentV>,
    pub turn_complete: Option<bool>,
}

/// Content turns appended to the conversation history, with an optional
/// turn-complete flag.
#[derive(Debug, Clone, PartialEq)]
pub struct ClientContent {
    pub turns: Vec<Content>,
    pub turn_complete: Option<bool>,
}

impl View for ClientContent {
    type V = ClientContentV;

    open spec fn view(&self) -> ClientContentV {
        ClientContentV { turns: contents_v(self.turns@), turn_complete: self.turn_complete }
    }
}

impl Default for ClientContent {
    /// A message with no turns and no turn-complete flag.
    fn default() -> (r: Self)
        ensures
            r@.turns == Seq::<ContentV>::empty(),
            r@.turn_complete is None,
    {
        ClientContent { turns: Vec::new(), turn_complete: None }
    }
}

/// The wire encoding of a client content message.
pub open spec fn enc_client_content(c: ClientContentV) -> JsonV {
    JsonV::Obj(
        (if c.turns.len() == 0 {
            Seq::empty()
        } else {
            seq![("turns"@, JsonV::Arr(enc_contents(c.turns)))]
        }) + opt_field("turnComplete"@, opt_bool_j(c.turn_complete)),
    )
}

impl ClientContent {
    /// Encodes the message payload for the wire.
    #[verifier::loop_isolation(false)]
    pub fn to_json(&self) -> (r: JsonValue)
        ensures
            r@ == enc_client_content(self@),
    {
        let mut fields: Vec<(String, JsonValue)> = Vec::new();
        if self.turns.len() > 0 {
            let mut items: Vec<JsonValue> = Vec::new();
            let n = self.turns.len();
            for i in 0..n
                invariant
                    n == self.turns@.len(),
                    items@.len() == i,
                    forall|k: int|
                        0 <= k < i ==> jv(#[trigger] items@[k]) == enc_content(self.turns@[k]@),
            {
                items.push(self.turns[i].to_json());
            }
            proof {
                broadcast use
                    crate::json::lemma_jv_seq_len,
                    lemma_enc_contents,
                    lemma_contents_v,
                ;

                assert(jv_seq(items@) =~= enc_contents(contents_v(self.turns@)));
            }
            fields.push((String::from_str("turns"), JsonValue::Arr(items)));
        }
        match &self.turn_complete {
            Some(b) => {
                fields.push((String::from_str("turnComplete"), JsonValue::Bool(*b)));
            },
            None => {},
        }
        proof {
            broadcast use crate::json::lemma_jv_fields_len;

            assert(jv_fields(fields@) =~= enc_client_content(self@)->Obj_0);
        }
        JsonValue::Obj(fields)
    }
}

/// Mathematical model of an activity signal marker.
pub ghost struct ActivitySignalV {}

/// Activity signal marker used when automatic detection is disabled.
#[derive(Debug, Clone, PartialEq)]
pub struct ActivitySignal {}

impl View for ActivitySignal {
    type V = ActivitySignalV;

    open spec fn view(&self) -> ActivitySignalV {
        ActivitySignalV {  }
    }
}

impl Default for ActivitySignal {
    /// The one activity signal value.
    fn default() -> (r: Self)
        ensures
            r@ == (ActivitySignalV {  }),
    {
        ActivitySignal {  }
    }
}

pub open spec fn blobs_v(s: Seq<Blob>) -> Seq<BlobV>
    decreases s,
{
    if s.len() == 0 {
        Seq::empty()
    } else {
        blobs_v(s.drop_last()).push(s.last()@)
    }
}

pub broadcast proof fn lemma_blobs_v(s: Seq<Blob>)
    ensures
        (#[trigger] blobs_v(s)).len() == s.len(),
        forall|i: int| 0 <= i < s.len() ==> blobs_v(s)[i] == s[i]@,
    decreases s,
{
    if s.len() > 0 {
        lemma_blobs_v(s.drop_last());
    }
}

/// The wire encoding of a binary payload.
pub open spec fn enc_blob(b: BlobV) -> JsonV {
    JsonV::Obj(opt_field("mimeType"@, opt_str_j(b.mime_type)) + seq![("data"@, JsonV::Str(b.data))])
}

pub open spec fn enc_blobs(bs: Seq<BlobV>) -> Seq<JsonV>
    decreases bs,
{
    if bs.len() == 0 {
        Seq::empty()
    } else {
        enc_blobs(bs.drop_last()).push(enc_blob(bs.last()))
    }
}

pub broadcast proof fn lemma_enc_blobs(bs: Seq<BlobV>)
    ensures
        (#[trigger] enc_blobs(bs)).len() == bs.len(),
        forall|i: int| 0 <= i < bs.len() ==> enc_blobs(bs)[i] == enc_blob(bs[i]),
    decreases bs,
{
    if bs.len() > 0 {
        lemma_enc_blobs(bs.drop_last());
    }
}

impl Blob {
    /// Encodes the blob for the wire.
    pub fn to_json(&self) -> (r: JsonValue)
        ensures
            r@ == enc_blob(self@),
    {
        let mut fields: Vec<(String, JsonValue)> = Vec::new();
        match &self.mime_type {
            Some(m) => {
                fields.push((String::from_str("mimeType"), JsonValue::Str(m.clone())));
            },
            None => {},
        }
        fields.push((String::from_str("data"), JsonValue::Str(self.data.clone())));
        proof {
            broadcast use crate::json::lemma_jv_fields_len;

            assert(jv_fields(fields@) =~= enc_blob(self@)->Obj_0);
        }
        JsonValue::Obj(fields)
    }
}

/// Mathematical model of a realtime input message.
pub ghost struct RealtimeInputV {
    pub media_chunks: Option<Seq<BlobV>>,
    pub audio: Option<BlobV>,
    pub video: Option<BlobV>,
    pub activity_start: Option<ActivitySignalV>,
    pub activity_end: Option<ActivitySignalV>,
    pub audio_stream_end: Option<bool>,
    pub text: Option<Seq<char>>,
}

/// Realtime input payload for low-latency audio/video/text streaming.
#[derive(Debug, Clone, PartialEq)]
pub struct RealtimeInput {
    pub media_chunks: Option<Vec<Blob>>,
    pub audio: Option<Blob>,
    pub video: Option<Blob>,
    pub activity_start: Option<ActivitySignal>,
    pub activity_end: Option<ActivitySignal>,
    pub audio_stream_end: Option<bool>,
    pub text: Option<String>,
}

impl View for RealtimeInput {
    type V = RealtimeInputV;

    open spec fn view(&self) -> RealtimeInputV {
        RealtimeInputV {
            media_chunks: match self.media_chunks {
                Some(ref v) => Some(blobs_v(v@)),
                None => None,
            },
            audio: match self.audio {
                Some(ref b) => Some(b@),
                None => None,
            },
            video: match self.video {
                Some(ref b) => Some(b@),
                None => None,
            },
            activity_start: match self.activity_start {
                Some(_) => Some(ActivitySignalV {  }),
                None => None,
            },
            activity_end: match self.activity_end {
                Some(_) => Some(ActivitySignalV {  }),
                None => None,
            },
            audio_stream_end: self.audio_stream_end,
            text: opt_str_v(self.text),
        }
    }
}

impl Default for RealtimeInput {
    /// A realtime input message with every field absent.
    fn default() -> (r: Self)
        ensures
            r@.media_chunks is None,
            r@.audio is None,
            r@.video is None,
            r@.activity_start is None,
            r@.activity_end is None,
            r@.audio_stream_end is None,
            r@.text is None,
    {
        RealtimeInput {
            media_chunks: None,
            audio: None,
            video: None,
            activity_start: None,
            activity_end: None,
            audio_stream_end: None,
            text: None,
        }
    }
}

/// The wire encoding of a realtime input message: each present field in
/// declaration order.
pub open spec fn enc_realtime_input(ri: RealtimeInputV) -> JsonV {
    JsonV::Obj(
        opt_field(
            "mediaChunks"@,
            match ri.media_chunks {
                Some(bs) => Some(JsonV::Arr(enc_blobs(bs))),
                None => None,
            },
        ) + opt_field(
            "audio"@,
            match ri.audio {
                Some(b) => Some(enc_blob(b)),
                None => None,
            },
        ) + opt_field(
            "video"@,
            match ri.video {
                Some(b) => Some(enc_blob(b)),
                None => None,
            },
        ) + opt_field(
            "activityStart"@,
            match ri.activity_start {
                Some(_) => Some(JsonV::Obj(Seq::empty())),
                None => None,
            },
        ) + opt_field(
            "activityEnd"@,
            match ri.activity_end {
                Some(_) => Some(JsonV::Obj(Seq::empty())),
                None => None,
            },
        ) + opt_field("audioStreamEnd"@, opt_bool_j(ri.audio_stream_end)) + opt_field(
            "text"@,
            opt_str_j(ri.text),
        ),
    )
}

impl RealtimeInput {
    /// Encodes the message payload for the wire.
    #[verifier::loop_isolation(false)]
    #[verifier::rlimit(60)]
    pub fn to_json(&self) -> (r: JsonValue)
        ensures
            r@ == enc_realtime_input(self@),
    {
        let mut fields: Vec<(String, JsonValue)> = Vec::new();
        match &self.media_chunks {
            Some(chunks) => {
                let mut items: Vec<JsonValue> = Vec::new();
                let n = chunks.len();
                for i in 0..n
                    invariant
                        n == chunks@.len(),
                        items@.len() == i,
                        forall|k: int|
                            0 <= k < i ==> jv(#[trigger] items@[k]) == enc_blob(chunks@[k]@),
                {
                    items.push(chunks[i].to_json());
                }
                proof {
                    broadcast use
                        crate::json::lemma_jv_seq_len,
                        lemma_enc_blobs,
                        lemma_blobs_v,
                    ;

                    assert(jv_seq(items@) =~= enc_blobs(blobs_v(chunks@)));
                }
                fields.push((String::from_str("mediaChunks"), JsonValue::Arr(items)));
            },
            None => {},
        }
        match &self.audio {
            Some(b) => {
                fields.push((String::from_str("audio"), b.to_json()));
            },
            None => {},
        }
        match &self.video {
            Some(b) => {
                fields.push((String::from_str("video"), b.to_json()));
            },
            None => {},
        }
        match &self.activity_start {
            Some(_) => {
                fields.push((String::from_str("activityStart"), JsonValue::Obj(Vec::new())));
            },
            None => {},
        }
        match &self.activity_end {
            Some(_) => {
                fields.push((String::from_str("activityEnd"), JsonValue::Obj(Vec::new())));
            },
            None => {},
        }
        match &self.audio_stream_end {
            Some(b) => {
                fields.push((String::from_str("audioStreamEnd"), JsonValue::Bool(*b)));
            },
            None => {},
        }
        match &self.text {
            Some(t) => {
                fields.push((String::from_str("text"), JsonValue::Str(t.clone())));
            },
            None => {},
        }
        proof {
            broadcast use crate::json::lemma_jv_fields_len;

            assert(jv_fields(fields@) =~= enc_realtime_input(self@)->Obj_0);
        }
        JsonValue::Obj(fields)
    }
}

/// Mathematical model of a tool response.
pub ghost struct FunctionResponseV {
    pub id: Seq<char>,
    pub name: Seq<char>,
    pub response: Option<JsonV>,
}

/// Response to a single tool call.
#[derive(Debug, Clone, PartialEq)]
pub struct FunctionResponse {
    pub id: String,
    pub name: String,
    pub response: Option<JsonValue>,
}

impl View for FunctionResponse {
    type V = FunctionResponseV;

    open spec fn view(&self) -> FunctionResponseV {
        FunctionResponseV {
            id: self.id@,
            name: self.name@,
            response: opt_json_v(self.response),
        }
    }
}

impl FunctionResponse {
    /// Convenience constructor for JSON responses.
    pub fn new(id: String, name: String, response: JsonValue) -> (r: Self)
        ensures
            r@.id == id@,
            r@.name == name@,
            r@.response == Some(response@),
    {
        FunctionResponse { id, name, response: Some(response) }
    }
}

pub open spec fn frs_v(s: Seq<FunctionResponse>) -> Seq<FunctionResponseV>
    decreases s,
{
    if s.len() == 0 {
        Seq::empty()
    } else {
        frs_v(s.drop_last()).push(s.last()@)
    }
}

pub broadcast proof fn lemma_frs_v(s: Seq<FunctionResponse>)
    ensures
        (#[trigger] frs_v(s)).len() == s.len(),
        forall|i: int| 0 <= i < s.len() ==> frs_v(s)[i] == s[i]@,
    decreases s,
{
    if s.len() > 0 {
        lemma_frs_v(s.drop_last());
    }
}

/// The wire encoding of one function response.
pub open spec fn enc_fr(f: FunctionResponseV) -> JsonV {
    JsonV::Obj(
        seq![("id"@, JsonV::Str(f.id)), ("name"@, JsonV::Str(f.name))] + opt_field(
            "response"@,
            f.response,
        ),
    )
}

pub open spec fn enc_frs(fs: Seq<FunctionResponseV>) -> Seq<JsonV>
    decreases fs,
{
    if fs.len() == 0 {
        Seq::empty()
    } else {
        enc_frs(fs.drop_last()).push(enc_fr(fs.last()))
    }
}

pub broadcast proof fn lemma_enc_frs(fs: Seq<FunctionResponseV>)
    ensures
        (#[trigger] enc_frs(fs)).len() == fs.len(),
        forall|i: int| 0 <= i < fs.len() ==> enc_frs(fs)[i] == enc_fr(fs[i]),
    decreases fs,
{
    if fs.len() > 0 {
        lemma_enc_frs(fs.drop_last());
    }
}

impl FunctionResponse {
    /// Encodes the response for the wire.
    pub fn to_json(&self) -> (r: JsonValue)
        ensures
            r@ == enc_fr(self@),
    {
        let mut fields: Vec<(String, JsonValue)> = Vec::new();
        fields.push((String::from_str("id"), JsonValue::Str(self.id.clone())));
        fields.push((String::from_str("name"), JsonValue::Str(self.name.clone())));
        match &self.response {
            Some(v) => {
                fields.push((String::from_str("response"), v.clone()));
            },
            None => {},
        }
        proof {
            broadcast use crate::json::lemma_jv_fields_len;

            assert(jv_fields(fields@) =~= enc_fr(self@)->Obj_0);
        }
        JsonValue::Obj(fields)
    }
}

/// Mathematical model of a tool response message.
pub ghost struct ToolResponseV {
    pub function_responses: Seq<FunctionResponseV>,
}

/// Tool response payload.
#[derive(Debug, Clone, PartialEq)]
pub struct ToolResponse {
    pub function_responses: Vec<FunctionResponse>,
}

impl View for ToolResponse {
    type V = ToolResponseV;

    open spec fn view(&self) -> ToolResponseV {
        ToolResponseV { function_responses: frs_v(self.function_responses@) }
    }
}

impl Default for ToolResponse {
    /// A tool response with no function responses.
    fn default() -> (r: Self)
        ensures
            r@.function_responses == Seq::<FunctionResponseV>::empty(),
    {
        ToolResponse { function_responses: Vec::new() }
    }
}

/// The wire encoding of a tool response message.
pub open spec fn enc_tool_response(t: ToolResponseV) -> JsonV {
    JsonV::Obj(
        if t.function_responses.len() == 0 {
            Seq::empty()
        } else {
            seq![("functionResponses"@, JsonV::Arr(enc_frs(t.function_responses)))]
        },
    )
}

impl ToolResponse {
    /// Encodes the message payload for the wire.
    #[verifier::loop_isolation(false)]
    pub fn to_json(&self) -> (r: JsonValue)
        ensures
            r@ == enc_tool_response(self@),
    {
        let mut fields: Vec<(String, JsonValue)> = Vec::new();
        if self.function_responses.len() > 0 {
            let mut items: Vec<JsonValue> = Vec::new();
            let n = self.function_responses.len();
            for i in 0..n
                invariant
                    n == self.function_responses@.len(),
                    items@.len() == i,
                    forall|k: int|
                        0 <= k < i ==> jv(#[trigger] items@[k]) == enc_fr(
                            self.function_responses@[k]@,
                        ),
            {
                items.push(self.function_responses[i].to_json());
            }
            proof {
                broadcast use crate::json::lemma_jv_seq_len, lemma_enc_frs, lemma_frs_v;

                assert(jv_seq(items@) =~= enc_frs(frs_v(self.function_responses@)));
            }
            fields.push((String::from_str("functionResponses"), JsonValue::Arr(items)));
        }
        proof {
            broadcast use crate::json::lemma_jv_fields_len;

            assert(jv_fields(fields@) =~= enc_tool_response(self@)->Obj_0);
        }
        JsonValue::Obj(fields)
    }
}

/// Mathematical model of a client message.
pub ghost enum ClientMessageV {
    ClientContent(ClientContentV),
    RealtimeInput(RealtimeInputV),
    ToolResponse(ToolResponseV),
}

/// Any message a client can send to the live service.
#[derive(Debug, Clone, PartialEq)]
pub enum ClientMessage {
    ClientContent(ClientContent),
    RealtimeInput(RealtimeInput),
    ToolResponse(ToolResponse),
}

impl View for ClientMessage {
    type V = ClientMessageV;

    open spec fn view(&self) -> ClientMessageV {
        match self {
            ClientMessage::ClientContent(c) => ClientMessageV::ClientContent(c@),
            ClientMessage::RealtimeInput(r) => ClientMessageV::RealtimeInput(r@),
            ClientMessage::ToolResponse(t) => ClientMessageV::ToolResponse(t@),
        }
    }
}

/// The outbound envelope: a single JSON object with exactly one
/// top-level key naming the client message kind.
pub open spec fn enc_client_message(m: ClientMessageV) -> JsonV {
    match m {
        ClientMessageV::ClientContent(c) => JsonV::Obj(
            seq![("clientContent"@, enc_client_content(c))],
        ),
        ClientMessageV::RealtimeInput(r) => JsonV::Obj(
            seq![("realtimeInput"@, enc_realtime_input(r))],
        ),
        ClientMessageV::ToolResponse(t) => JsonV::Obj(
            seq![("toolResponse"@, enc_tool_response(t))],
        ),
    }
}

impl ClientMessage {
    /// Encodes the full outbound envelope for the wire.
    pub fn to_json(&self) -> (r: JsonValue)
        ensures
            r@ == enc_client_message(self@),
    {
        let mut fields: Vec<(String, JsonValue)> = Vec::new();
        match self {
            ClientMessage::ClientContent(c) => {
                fields.push((String::from_str("clientContent"), c.to_json()));
            },
            ClientMessage::RealtimeInput(r) => {
                fields.push((String::from_str("realtimeInput"), r.to_json()));
            },
            ClientMessage::ToolResponse(t) => {
                fields.push((String::from_str("toolResponse"), t.to_json()));
            },
        }
        proof {
            broadcast use crate::json::lemma_jv_fields_len;

            assert(jv_fields(fields@) =~= enc_client_message(self@)->Obj_0);
        }
        JsonValue::Obj(fields)
    }
}

pub open spec fn strs_v(s: Seq<String>) -> Seq<Seq<char>>
    decreases s,
{
    if s.len() == 0 {
        Seq::empty()
    } else {
        strs_v(s.drop_last()).push(s.last()@)
    }
}

pub broadcast proof fn lemma_strs_v(s: Seq<String>)
    ensures
        (#[trigger] strs_v(s)).len() == s.len(),
        forall|i: int| 0 <= i < s.len() ==> strs_v(s)[i] == s[i]@,
    decreases s,
{
    if s.len() > 0 {
        lemma_strs_v(s.drop_last());
    }
}

pub open spec fn enc_strs(ss: Seq<Seq<char>>) -> Seq<JsonV>
    decreases ss,
{
    if ss.len() == 0 {
        Seq::empty()
    } else {
        enc_strs(ss.drop_last()).push(JsonV::Str(ss.last()))
    }
}

pub broadcast proof fn lemma_enc_strs(ss: Seq<Seq<char>>)
    ensures
        (#[trigger] enc_strs(ss)).len() == ss.len(),
        forall|i: int| 0 <= i < ss.len() ==> enc_strs(ss)[i] == JsonV::Str(ss[i]),
    decreases ss,
{
    if ss.len() > 0 {
        lemma_enc_strs(ss.drop_last());
    }
}

/// Mathematical model of a generation configuration.
pub ghost struct GenerationConfigV {
    pub candidate_count: Option<i32>,
    pub max_output_tokens: Option<i32>,
    pub top_k: Option<i32>,
    pub response_modalities: Seq<Seq<char>>,
    pub speech_config: Option<JsonV>,
    pub media_resolution: Option<JsonV>,
}

/// Model generation configuration, mirroring the service's structure.
/// Sampling knobs that are floating-point on the wire are left to raw
/// JSON configuration fields.
#[derive(Debug, Clone, PartialEq)]
pub struct GenerationConfig {
    pub candidate_count: Option<i32>,
    pub max_output_tokens: Option<i32>,
    pub top_k: Option<i32>,
    pub response_modalities: Vec<String>,
    pub speech_config: Option<JsonValue>,
    pub media_resolution: Option<JsonValue>,
}

impl View for GenerationConfig {
    type V = GenerationConfigV;

    open spec fn view(&self) -> GenerationConfigV {
        GenerationConfigV {
            candidate_count: self.candidate_count,
            max_output_tokens: self.max_output_tokens,
            top_k: self.top_k,
            response_modalities: strs_v(self.response_modalities@),
            speech_config: opt_json_v(self.speech_config),
            media_resolution: opt_json_v(self.media_resolution),
        }
    }
}

impl Default for GenerationConfig {
    /// A configuration with every knob absent.
    fn default() -> (r: Self)
        ensures
            r@.candidate_count is None,
            r@.max_output_tokens is None,
            r@.top_k is None,
            r@.response_modalities == Seq::<Seq<char>>::empty(),
            r@.speech_config is None,
            r@.media_resolution is None,
    {
        GenerationConfig {
            candidate_count: None,
            max_output_tokens: None,
            top_k: None,
            response_modalities: Vec::new(),
            speech_config: None,
            media_resolution: None,
        }
    }
}

/// The wire encoding of a generation configuration.
pub open spec fn enc_generation_config(g: GenerationConfigV) -> JsonV {
    JsonV::Obj(
        opt_field("candidateCount"@, opt_i32_j(g.candidate_count)) + opt_field(
            "maxOutputTokens"@,
            opt_i32_j(g.max_output_tokens),
        ) + opt_field("topK"@, opt_i32_j(g.top_k)) + (if g.response_modalities.len() == 0 {
            Seq::empty()
        } else {
            seq![("responseModalities"@, JsonV::Arr(enc_strs(g.response_modalities)))]
        }) + opt_field("speechConfig"@, g.speech_config) + opt_field(
            "mediaResolution"@,
            g.media_resolution,
        ),
    )
}

impl GenerationConfig {
    /// Encodes the configuration for the wire.
    #[verifier::loop_isolation(false)]
    #[verifier::rlimit(60)]
    pub fn to_json(&self) -> (r: JsonValue)
        ensures
            r@ == enc_generation_config(self@),
    {
        let mut fields: Vec<(String, JsonValue)> = Vec::new();
        match &self.candidate_count {
            Some(c) => {
                fields.push((String::from_str("candidateCount"), JsonValue::Int(*c as i64)));
            },
            None => {},
        }
        match &self.max_output_tokens {
            Some(c) => {
                fields.push((String::from_str("maxOutputTokens"), JsonValue::Int(*c as i64)));
            },
            None => {},
        }
        match &self.top_k {
            Some(c) => {
                fields.push((String::from_str("topK"), JsonValue::Int(*c as i64)));
            },
            None => {},
        }
        if self.response_modalities.len() > 0 {
            let mut items: Vec<JsonValue> = Vec::new();
            let n = self.response_modalities.len();
            for i in 0..n
                invariant
                    n == self.response_modalities@.len(),
                    items@.len() == i,
                    forall|k: int|
                        0 <= k < i ==> jv(#[trigger] items@[k]) == JsonV::Str(
                            self.response_modalities@[k]@,
                        ),
            {
                items.push(JsonValue::Str(self.response_modalities[i].clone()));
            }
            proof {
                broadcast use crate::json::lemma_jv_seq_len, lemma_enc_strs, lemma_strs_v;

                assert(jv_seq(items@) =~= enc_strs(strs_v(self.response_modalities@)));
            }
            fields.push((String::from_str("responseModalities"), JsonValue::Arr(items)));
        }
        match &self.speech_config {
            Some(v) => {
                fields.push((String::from_str("speechConfig"), v.clone()));
            },
            None => {},
        }
        match &self.media_resolution {
            Some(v) => {
                fields.push((String::from_str("mediaResolution"), v.clone()));
            },
            None => {},
        }
        proof {
            broadcast use crate::json::lemma_jv_fields_len;

            assert(jv_fields(fields@) =~= enc_generation_config(self@)->Obj_0);
        }
        JsonValue::Obj(fields)
    }
}

/// Mathematical model of a session setup payload.
pub ghost struct SetupV {
    pub model: Seq<char>,
    pub generation_config: Option<GenerationConfigV>,
    pub system_instruction: Option<ContentV>,
    pub tools: Option<Seq<JsonV>>,
    pub realtime_input_config: Option<JsonV>,
    pub session_resumption: Option<JsonV>,
    pub context_window_compression: Option<JsonV>,
    pub input_audio_transcription: Option<JsonV>,
    pub output_audio_transcription: Option<JsonV>,
    pub proactivity: Option<JsonV>,
}

/// Session setup payload carried by the first message on a live session.
#[derive(Debug, Clone, PartialEq)]
pub struct Setup {
    pub model: String,
    pub generation_config: Option<GenerationConfig>,
    pub system_instruction: Option<Content>,
    pub tools: Option<Vec<JsonValue>>,
    pub realtime_input_config: Option<JsonValue>,
    pub session_resumption: Option<JsonValue>,
    pub context_window_compression: Option<JsonValue>,
    pub input_audio_transcription: Option<JsonValue>,
    pub output_audio_transcription: Option<JsonValue>,
    pub proactivity: Option<JsonValue>,
}

impl View for Setup {
    type V = SetupV;

    open spec fn view(&self) -> SetupV {
        SetupV {
            model: self.model@,
            generation_config: match self.generation_config {
                Some(ref g) => Some(g@),
                None => None,
            },
            system_instruction: match self.system_instruction {
                Some(ref c) => Some(c@),
                None => None,
            },
            tools: match self.tools {
                Some(ref t) => Some(jv_seq(t@)),
                None => None,
            },
            realtime_input_config: opt_json_v(self.realtime_input_config),
            session_resumption: opt_json_v(self.session_resumption),
            context_window_compression: opt_json_v(self.context_window_compression),
            input_audio_transcription: opt_json_v(self.input_audio_transcription),
            output_audio_transcription: opt_json_v(self.output_audio_transcription),
            proactivity: opt_json_v(self.proactivity),
        }
    }
}

impl Setup {
    /// Creates a minimal setup structure for a given model name.
    pub fn new(model: String) -> (r: Self)
        ensures
            r@.model == model@,
            r@.generation_config is None,
            r@.system_instruction is None,
            r@.tools is None,
            r@.realtime_input_config is None,
            r@.session_resumption is None,
            r@.context_window_compression is None,
            r@.input_audio_transcription is None,
            r@.output_audio_transcription is None,
            r@.proactivity is None,
    {
        Setup {
            model,
            generation_config: None,
            system_instruction: None,
            tools: None,
            realtime_input_config: None,
            session_resumption: None,
            context_window_compression: None,
            input_audio_transcription: None,
            output_audio_transcription: None,
            proactivity: None,
        }
    }
}

/// The wire encoding of a setup payload: the model name, then each
/// present optional field in declaration order.
pub open spec fn enc_setup(s: SetupV) -> JsonV {
    JsonV::Obj(
        seq![("model"@, JsonV::Str(s.model))] + opt_field(
            "generationConfig"@,
            match s.generation_config {
                Some(g) => Some(enc_generation_config(g)),
                None => None,
            },
        ) + opt_field(
            "systemInstruction"@,
            match s.system_instruction {
                Some(c) => Some(enc_content(c)),
                None => None,
            },
        ) + opt_field(
            "tools"@,
            match s.tools {
                Some(t) => Some(JsonV::Arr(t)),
                None => None,
            },
        ) + opt_field("realtimeInputConfig"@, s.realtime_input_config) + opt_field(
            "sessionResumption"@,
            s.session_resumption,
        ) + opt_field("contextWindowCompression"@, s.context_window_compression) + opt_field(
            "inputAudioTranscription"@,
            s.input_audio_transcription,
        ) + opt_field("outputAudioTranscription"@, s.output_audio_transcription) + opt_field(
            "proactivity"@,
            s.proactivity,
        ),
    )
}

/// The setup envelope: the first outbound message of a session.
pub open spec fn enc_setup_envelope(s: SetupV) -> JsonV {
    JsonV::Obj(seq![("setup"@, enc_setup(s))])
}

impl Setup {
    /// Encodes the setup payload for the wire.
    #[verifier::loop_isolation(false)]
    #[verifier::rlimit(100)]
    pub fn to_json(&self) -> (r: JsonValue)
        ensures
            r@ == enc_setup(self@),
    {
        let mut fields: Vec<(String, JsonValue)> = Vec::new();
        fields.push((String::from_str("model"), JsonValue::Str(self.model.clone())));
        match &self.generation_config {
            Some(g) => {
                fields.push((String::from_str("generationConfig"), g.to_json()));
            },
            None => {},
        }
        match &self.system_instruction {
            Some(c) => {
                fields.push((String::from_str("systemInstruction"), c.to_json()));
            },
            None => {},
        }
        match &self.tools {
            Some(t) => {
                fields.push((String::from_str("tools"), JsonValue::Arr(
                    crate::json::clone_json_vec(t),
                )));
            },
            None => {},
        }
        match &self.realtime_input_config {
            Some(v) => {
                fields.push((String::from_str("realtimeInputConfig"), v.clone()));
            },
            None => {},
        }
        match &self.session_resumption {
            Some(v) => {
                fields.push((String::from_str("sessionResumption"), v.clone()));
            },
            None => {},
        }
        match &self.context_window_compression {
            Some(v) => {
                fields.push((String::from_str("contextWindowCompression"), v.clone()));
            },
            None => {},
        }
        match &self.input_audio_transcription {
            Some(v) => {
                fields.push((String::from_str("inputAudioTranscription"), v.clone()));
            },
            None => {},
        }
        match &self.output_audio_transcription {
            Some(v) => {
                fields.push((String::from_str("outputAudioTranscription"), v.clone()));
            },
            None => {},
        }
        match &self.proactivity {
            Some(v) => {
                fields.push((String::from_str("proactivity"), v.clone()));
            },
            None => {},
        }
        proof {
            broadcast use crate::json::lemma_jv_fields_len;

            assert(jv_fields(fields@) =~= enc_setup(self@)->Obj_0);
        }
        JsonValue::Obj(fields)
    }

    /// Encodes the full setup envelope: the first outbound message of a
    /// session.
    pub fn to_envelope_json(&self) -> (r: JsonValue)
        ensures
            r@ == enc_setup_envelope(self@),
    {
        let mut fields: Vec<(String, JsonValue)> = Vec::new();
        fields.push((String::from_str("setup"), self.to_json()));
        proof {
            broadcast use crate::json::lemma_jv_fields_len;

            assert(jv_fields(fields@) =~= enc_setup_envelope(self@)->Obj_0);
        }
        JsonValue::Obj(fields)
    }
}

/// Mathematical model of a session error.
pub ghost enum GeminiErrorV {
    InvalidEndpoint(Seq<char>),
    RequestBuild(Seq<char>),
    InvalidHeaderValue(Seq<char>),
    WebSocket(Seq<char>),
    Decode(Seq<char>),
    ConnectionClosed,
    SetupNotAcknowledged,
    MultipleServerMessageTypes(Seq<Seq<char>>),
    UnexpectedServerMessage(JsonV),
    ServerError(ErrorResponseV),
    HandshakeStatus(u16),
    ServerClosed { code: Seq<char>, reason: Seq<char> },
}

impl View for GeminiError {
    type V = GeminiErrorV;

    open spec fn view(&self) -> GeminiErrorV {
        match self {
            GeminiError::InvalidEndpoint(m) => GeminiErrorV::InvalidEndpoint(m@),
            GeminiError::RequestBuild(m) => GeminiErrorV::RequestBuild(m@),
            GeminiError::InvalidHeaderValue(m) => GeminiErrorV::InvalidHeaderValue(m@),
            GeminiError::WebSocket(m) => GeminiErrorV::WebSocket(m@),
            GeminiError::Decode(k) => GeminiErrorV::Decode(k@),
            GeminiError::ConnectionClosed => GeminiErrorV::ConnectionClosed,
            GeminiError::SetupNotAcknowledged => GeminiErrorV::SetupNotAcknowledged,
            GeminiError::MultipleServerMessageTypes(ns) => {
                GeminiErrorV::MultipleServerMessageTypes(strs_v(ns@))
            },
            GeminiError::UnexpectedServerMessage(v) => GeminiErrorV::UnexpectedServerMessage(
                jv(*v),
            ),
            GeminiError::ServerError(e) => GeminiErrorV::ServerError(e@),
            GeminiError::HandshakeStatus(c) => GeminiErrorV::HandshakeStatus(*c),
            GeminiError::ServerClosed { code, reason } => GeminiErrorV::ServerClosed {
                code: code@,
                reason: reason@,
            },
        }
    }
}

/// Builds the message for a single text turn, marked complete only
/// when asked.
pub fn text_turn(role: String, text: String, turn_complete: bool) -> (r: ClientContent)
    ensures
        r@.turns == seq![ContentV { role: Some(role@), parts: seq![PartV::Text(text@)] }],
        r@.turn_complete == (if turn_complete {
            Some(true)
        } else {
            None::<bool>
        }),
{
    let mut turns: Vec<Content> = Vec::new();
    turns.push(Content::text(role, text));
    proof {
        broadcast use lemma_contents_v;

        assert(contents_v(turns@) =~= seq![turns@[0]@]);
    }
    ClientContent { turns, turn_complete: if turn_complete { Some(true) } else { None } }
}

/// Builds a low-latency realtime text input.
pub fn realtime_text(text: String) -> (r: RealtimeInput)
    ensures
        r@.text == Some(text@),
        r@.media_chunks is None,
        r@.audio is None,
        r@.video is None,
        r@.activity_start is None,
        r@.activity_end is None,
        r@.audio_stream_end is None,
{
    RealtimeInput {
        media_chunks: None,
        audio: None,
        video: None,
        activity_start: None,
        activity_end: None,
        audio_stream_end: None,
        text: Some(text),
    }
}

} // verus!
