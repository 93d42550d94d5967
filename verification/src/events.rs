//! Server events: the typed messages a live session can receive, their
//! decoders, and the classifier that maps a decoded wire message to
//! exactly one event.
//!
//! The classifier enforces the protocol's mutual-exclusivity rule: an
//! `error` member wins over everything else; otherwise a message must
//! match at most one of the known event-kind keys, and matching more
//! than one is a protocol violation that is reported, never resolved
//! silently.

use vstd::prelude::*;
use vstd::string::StringExecFns;

use crate::json::{jv, jv_fields, jv_seq, lookup, remove_key, JsonV, JsonValue};
use crate::protocol::{
    enc_client_content, enc_content, enc_part, enc_parts, contents_v, lemma_contents_v,
    opt_str_v, opt_json_v, parts_v, ClientContent, ClientContentV, ContentV, Content,
    ErrorResponse, ErrorResponseV, GeminiError, Part, PartV,
};

verus! {

// ---------------------------------------------------------------------
// Member getters: how one field of a decoded object reads as a typed
// value. The outer Option is failure (the member is present but of the
// wrong shape); the inner value is the field itself.
// ---------------------------------------------------------------------

pub open spec fn get_opt_i32(fs: Seq<(Seq<char>, JsonV)>, k: Seq<char>) -> Option<Option<i32>> {
    match lookup(fs, k) {
        None => Some(None),
        Some(JsonV::Null) => Some(None),
        Some(JsonV::Int(i)) => if -2147483648 <= i as int && i as int <= 2147483647 {
            Some(Some(i as i32))
        } else {
            None
        },
        Some(_) => None,
    }
}

pub open spec fn get_opt_bool(fs: Seq<(Seq<char>, JsonV)>, k: Seq<char>) -> Option<Option<bool>> {
    match lookup(fs, k) {
        None => Some(None),
        Some(JsonV::Null) => Some(None),
        Some(JsonV::Bool(b)) => Some(Some(b)),
        Some(_) => None,
    }
}

pub open spec fn get_opt_str(fs: Seq<(Seq<char>, JsonV)>, k: Seq<char>) -> Option<
    Option<Seq<char>>,
> {
    match lookup(fs, k) {
        None => Some(None),
        Some(JsonV::Null) => Some(None),
        Some(JsonV::Str(s)) => Some(Some(s)),
        Some(_) => None,
    }
}

pub open spec fn get_opt_json(fs: Seq<(Seq<char>, JsonV)>, k: Seq<char>) -> Option<
    Option<JsonV>,
> {
    match lookup(fs, k) {
        None => Some(None),
        Some(JsonV::Null) => Some(None),
        Some(v) => Some(Some(v)),
    }
}

pub open spec fn all_strs(xs: Seq<JsonV>) -> bool {
    forall|i: int| 0 <= i < xs.len() ==> xs[i] is Str
}

pub open spec fn get_vec_json(fs: Seq<(Seq<char>, JsonV)>, k: Seq<char>) -> Option<Seq<JsonV>> {
    match lookup(fs, k) {
        None => Some(Seq::empty()),
        Some(JsonV::Arr(xs)) => Some(xs),
        Some(_) => None,
    }
}

pub open spec fn get_vec_str(fs: Seq<(Seq<char>, JsonV)>, k: Seq<char>) -> Option<
    Seq<Seq<char>>,
> {
    match lookup(fs, k) {
        None => Some(Seq::empty()),
        Some(JsonV::Arr(xs)) => if all_strs(xs) {
            Some(xs.map_values(|x: JsonV| x->Str_0))
        } else {
            None
        },
        Some(_) => None,
    }
}

pub open spec fn oi32(o: Option<Option<i32>>) -> Option<i32> {
    match o {
        Some(x) => x,
        None => None,
    }
}

pub open spec fn obool(o: Option<Option<bool>>) -> Option<bool> {
    match o {
        Some(x) => x,
        None => None,
    }
}

pub open spec fn ostr(o: Option<Option<Seq<char>>>) -> Option<Seq<char>> {
    match o {
        Some(x) => x,
        None => None,
    }
}

pub open spec fn ojson(o: Option<Option<JsonV>>) -> Option<JsonV> {
    match o {
        Some(x) => x,
        None => None,
    }
}

pub open spec fn oseq<T>(o: Option<Seq<T>>) -> Seq<T> {
    match o {
        Some(x) => x,
        None => Seq::empty(),
    }
}

// ---------------------------------------------------------------------
// Executable getters, each pinned to its specification counterpart.
// ---------------------------------------------------------------------

fn dec_opt_i32(fs: &Vec<(String, JsonValue)>, key: &str) -> (r: Option<Option<i32>>)
    ensures
        r == get_opt_i32(jv_fields(fs@), key@),
{
    match crate::json::obj_get(fs, key) {
        None => Some(None),
        Some(v) => match v {
            JsonValue::Null => Some(None),
            JsonValue::Int(i) => {
                if *i >= -2147483648i64 && *i <= 2147483647i64 {
                    Some(Some(*i as i32))
                } else {
                    None
                }
            },
            _ => None,
        },
    }
}

fn dec_opt_bool(fs: &Vec<(String, JsonValue)>, key: &str) -> (r: Option<Option<bool>>)
    ensures
        r == get_opt_bool(jv_fields(fs@), key@),
{
    match crate::json::obj_get(fs, key) {
        None => Some(None),
        Some(v) => match v {
            JsonValue::Null => Some(None),
            JsonValue::Bool(b) => Some(Some(*b)),
            _ => None,
        },
    }
}

fn dec_opt_str(fs: &Vec<(String, JsonValue)>, key: &str) -> (r: Option<Option<String>>)
    ensures
        (r is None) == (get_opt_str(jv_fields(fs@), key@) is None),
        r matches Some(None) ==> get_opt_str(jv_fields(fs@), key@) == Some(None::<Seq<char>>),
        r matches Some(Some(s)) ==> get_opt_str(jv_fields(fs@), key@) == Some(Some(s@)),
{
    match crate::json::obj_get(fs, key) {
        None => Some(None),
        Some(v) => match v {
            JsonValue::Null => Some(None),
            JsonValue::Str(s) => Some(Some(s.clone())),
            _ => None,
        },
    }
}

fn dec_opt_json(fs: &Vec<(String, JsonValue)>, key: &str) -> (r: Option<Option<JsonValue>>)
    ensures
        (r is None) == (get_opt_json(jv_fields(fs@), key@) is None),
        r matches Some(None) ==> get_opt_json(jv_fields(fs@), key@) == Some(None::<JsonV>),
        r matches Some(Some(v)) ==> get_opt_json(jv_fields(fs@), key@) == Some(Some(v@)),
{
    match crate::json::obj_get(fs, key) {
        None => Some(None),
        Some(v) => match v {
            JsonValue::Null => Some(None),
            _ => Some(Some(v.clone())),
        },
    }
}

fn dec_vec_json(fs: &Vec<(String, JsonValue)>, key: &str) -> (r: Option<Vec<JsonValue>>)
    ensures
        (r is None) == (get_vec_json(jv_fields(fs@), key@) is None),
        r matches Some(xs) ==> get_vec_json(jv_fields(fs@), key@) == Some(jv_seq(xs@)),
{
    match crate::json::obj_get(fs, key) {
        None => {
            let out: Vec<JsonValue> = Vec::new();
            proof {
                assert(jv_seq(out@) =~= Seq::<JsonV>::empty());
            }
            Some(out)
        },
        Some(v) => match v {
            JsonValue::Arr(xs) => Some(crate::json::clone_json_vec(xs)),
            _ => None,
        },
    }
}

#[verifier::loop_isolation(false)]
fn dec_vec_str(fs: &Vec<(String, JsonValue)>, key: &str) -> (r: Option<Vec<String>>)
    ensures
        (r is None) == (get_vec_str(jv_fields(fs@), key@) is None),
        r matches Some(ss) ==> get_vec_str(jv_fields(fs@), key@) == Some(
            crate::protocol::strs_v(ss@),
        ),
{
    match crate::json::obj_get(fs, key) {
        None => {
            let out: Vec<String> = Vec::new();
            proof {
                assert(crate::protocol::strs_v(out@) =~= Seq::<Seq<char>>::empty());
            }
            Some(out)
        },
        Some(v) => match v {
            JsonValue::Arr(xs) => {
                let mut out: Vec<String> = Vec::new();
                let n = xs.len();
                for i in 0..n
                    invariant
                        n == xs@.len(),
                        out@.len() == i,
                        forall|k: int| 0 <= k < i ==> jv_seq(xs@)[k] is Str,
                        forall|k: int|
                            0 <= k < i ==> (#[trigger] out@[k])@ == jv_seq(xs@)[k]->Str_0,
                {
                    proof {
                        broadcast use crate::json::lemma_jv_seq_len;

                    }
                    match &xs[i] {
                        JsonValue::Str(s) => {
                            out.push(s.clone());
                        },
                        _ => {
                            proof {
                                broadcast use crate::json::lemma_jv_seq_len;

                                assert(jv_seq(xs@)[i as int] == jv(xs@[i as int]));
                                assert(!(jv_seq(xs@)[i as int] is Str));
                                assert(!all_strs(jv_seq(xs@)));
                            }
                            return None;
                        },
                    }
                }
                proof {
                    broadcast use
                        crate::json::lemma_jv_seq_len,
                        crate::protocol::lemma_strs_v,
                    ;

                    assert(all_strs(jv_seq(xs@)));
                    assert(crate::protocol::strs_v(out@) =~= jv_seq(xs@).map_values(
                        |x: JsonV| x->Str_0,
                    ));
                }
                Some(out)
            },
            _ => None,
        },
    }
}

// ---------------------------------------------------------------------
// Typed server payloads and their decoders.
// ---------------------------------------------------------------------

/// Mathematical model of a setup acknowledgment.
pub ghost struct SetupCompleteV {}

/// Server acknowledgment of a setup frame.
#[derive(Debug, Clone, PartialEq)]
pub struct SetupComplete {}

impl View for SetupComplete {
    type V = SetupCompleteV;

    open spec fn view(&self) -> SetupCompleteV {
        SetupCompleteV {  }
    }
}

/// Whether a value decodes as a setup acknowledgment: any object does.
pub open spec fn spec_setup_complete_ok(v: JsonV) -> bool {
    v is Obj
}

/// Mathematical model of a transcription payload.
pub ghost struct TranscriptionV {
    pub text: Option<Seq<char>>,
}

/// Transcription payload for audio streams.
#[derive(Debug, Clone, PartialEq)]
pub struct Transcription {
    pub text: Option<String>,
}

impl View for Transcription {
    type V = TranscriptionV;

    open spec fn view(&self) -> TranscriptionV {
        TranscriptionV { text: opt_str_v(self.text) }
    }
}

pub open spec fn spec_transcription(v: JsonV) -> Option<TranscriptionV> {
    match v {
        JsonV::Obj(fs) => match get_opt_str(fs, "text"@) {
            Some(t) => Some(TranscriptionV { text: t }),
            None => None,
        },
        _ => None,
    }
}

fn decode_transcription(v: &JsonValue) -> (r: Option<Transcription>)
    ensures
        (r is Some) == (spec_transcription(v@) is Some),
        r matches Some(t) ==> spec_transcription(v@) == Some(t@),
{
    match v {
        JsonValue::Obj(fs) => match dec_opt_str(fs, "text") {
            Some(t) => Some(Transcription { text: t }),
            None => None,
        },
        _ => None,
    }
}

/// Mathematical model of usage metadata.
pub ghost struct UsageMetadataV {
    pub prompt_token_count: Option<i32>,
    pub cached_content_token_count: Option<i32>,
    pub response_token_count: Option<i32>,
    pub tool_use_prompt_token_count: Option<i32>,
    pub thoughts_token_count: Option<i32>,
    pub total_token_count: Option<i32>,
    pub prompt_tokens_details: Seq<JsonV>,
    pub cache_tokens_details: Seq<JsonV>,
    pub response_tokens_details: Seq<JsonV>,
    pub tool_use_prompt_tokens_details: Seq<JsonV>,
}

/// Usage metadata published alongside server responses.
#[derive(Debug, Clone, PartialEq)]
pub struct UsageMetadata {
    pub prompt_token_count: Option<i32>,
    pub cached_content_token_count: Option<i32>,
    pub response_token_count: Option<i32>,
    pub tool_use_prompt_token_count: Option<i32>,
    pub thoughts_token_count: Option<i32>,
    pub total_token_count: Option<i32>,
    pub prompt_tokens_details: Vec<JsonValue>,
    pub cache_tokens_details: Vec<JsonValue>,
    pub response_tokens_details: Vec<JsonValue>,
    pub tool_use_prompt_tokens_details: Vec<JsonValue>,
}

impl View for UsageMetadata {
    type V = UsageMetadataV;

    open spec fn view(&self) -> UsageMetadataV {
        UsageMetadataV {
            prompt_token_count: self.prompt_token_count,
            cached_content_token_count: self.cached_content_token_count,
            response_token_count: self.response_token_count,
            tool_use_prompt_token_count: self.tool_use_prompt_token_count,
            thoughts_token_count: self.thoughts_token_count,
            total_token_count: self.total_token_count,
            prompt_tokens_details: jv_seq(self.prompt_tokens_details@),
            cache_tokens_details: jv_seq(self.cache_tokens_details@),
            response_tokens_details: jv_seq(self.response_tokens_details@),
            tool_use_prompt_tokens_details: jv_seq(self.tool_use_prompt_tokens_details@),
        }
    }
}

pub open spec fn spec_usage(v: JsonV) -> Option<UsageMetadataV> {
    match v {
        JsonV::Obj(fs) => if get_opt_i32(fs, "promptTokenCount"@) is Some && get_opt_i32(
            fs,
            "cachedContentTokenCount"@,
        ) is Some && get_opt_i32(fs, "responseTokenCount"@) is Some && get_opt_i32(
            fs,
            "toolUsePromptTokenCount"@,
        ) is Some && get_opt_i32(fs, "thoughtsTokenCount"@) is Some && get_opt_i32(
            fs,
            "totalTokenCount"@,
        ) is Some && get_vec_json(fs, "promptTokensDetails"@) is Some && get_vec_json(
            fs,
            "cacheTokensDetails"@,
        ) is Some && get_vec_json(fs, "responseTokensDetails"@) is Some && get_vec_json(
            fs,
            "toolUsePromptTokensDetails"@,
        ) is Some {
            Some(
                UsageMetadataV {
                    prompt_token_count: oi32(get_opt_i32(fs, "promptTokenCount"@)),
                    cached_content_token_count: oi32(get_opt_i32(fs, "cachedContentTokenCount"@)),
                    response_token_count: oi32(get_opt_i32(fs, "responseTokenCount"@)),
                    tool_use_prompt_token_count: oi32(get_opt_i32(fs, "toolUsePromptTokenCount"@)),
                    thoughts_token_count: oi32(get_opt_i32(fs, "thoughtsTokenCount"@)),
                    total_token_count: oi32(get_opt_i32(fs, "totalTokenCount"@)),
                    prompt_tokens_details: oseq(get_vec_json(fs, "promptTokensDetails"@)),
                    cache_tokens_details: oseq(get_vec_json(fs, "cacheTokensDetails"@)),
                    response_tokens_details: oseq(get_vec_json(fs, "responseTokensDetails"@)),
                    tool_use_prompt_tokens_details: oseq(
                        get_vec_json(fs, "toolUsePromptTokensDetails"@),
                    ),
                },
            )
        } else {
            None
        },
        _ => None,
    }
}

fn decode_usage(v: &JsonValue) -> (r: Option<UsageMetadata>)
    ensures
        (r is Some) == (spec_usage(v@) is Some),
        r matches Some(u) ==> spec_usage(v@) == Some(u@),
{
    match v {
        JsonValue::Obj(fs) => {
            let prompt_token_count = match dec_opt_i32(fs, "promptTokenCount") {
                Some(x) => x,
                None => {
                    return None;
                },
            };
            let cached_content_token_count = match dec_opt_i32(fs, "cachedContentTokenCount") {
                Some(x) => x,
                None => {
                    return None;
                },
            };
            let response_token_count = match dec_opt_i32(fs, "responseTokenCount") {
                Some(x) => x,
                None => {
                    return None;
                },
            };
            let tool_use_prompt_token_count = match dec_opt_i32(fs, "toolUsePromptTokenCount") {
                Some(x) => x,
                None => {
                    return None;
                },
            };
            let thoughts_token_count = match dec_opt_i32(fs, "thoughtsTokenCount") {
                Some(x) => x,
                None => {
                    return None;
                },
            };
            let total_token_count = match dec_opt_i32(fs, "totalTokenCount") {
                Some(x) => x,
                None => {
                    return None;
                },
            };
            let prompt_tokens_details = match dec_vec_json(fs, "promptTokensDetails") {
                Some(x) => x,
                None => {
                    return None;
                },
            };
            let cache_tokens_details = match dec_vec_json(fs, "cacheTokensDetails") {
                Some(x) => x,
                None => {
                    return None;
                },
            };
            let response_tokens_details = match dec_vec_json(fs, "responseTokensDetails") {
                Some(x) => x,
                None => {
                    return None;
                },
            };
            let tool_use_prompt_tokens_details = match dec_vec_json(
                fs,
                "toolUsePromptTokensDetails",
            ) {
                Some(x) => x,
                None => {
                    return None;
                },
            };
            Some(
                UsageMetadata {
                    prompt_token_count,
                    cached_content_token_count,
                    response_token_count,
                    tool_use_prompt_token_count,
                    thoughts_token_count,
                    total_token_count,
                    prompt_tokens_details,
                    cache_tokens_details,
                    response_tokens_details,
                    tool_use_prompt_tokens_details,
                },
            )
        },
        _ => None,
    }
}

pub open spec fn spec_error_response(v: JsonV) -> Option<ErrorResponseV> {
    match v {
        JsonV::Obj(fs) => if get_opt_i32(fs, "code"@) is Some && get_opt_str(fs, "message"@)
            is Some && get_opt_str(fs, "status"@) is Some && get_vec_json(fs, "details"@)
            is Some {
            Some(
                ErrorResponseV {
                    code: oi32(get_opt_i32(fs, "code"@)),
                    message: ostr(get_opt_str(fs, "message"@)),
                    status: ostr(get_opt_str(fs, "status"@)),
                    details: oseq(get_vec_json(fs, "details"@)),
                },
            )
        } else {
            None
        },
        _ => None,
    }
}

fn decode_error_response(v: &JsonValue) -> (r: Option<ErrorResponse>)
    ensures
        (r is Some) == (spec_error_response(v@) is Some),
        r matches Some(e) ==> spec_error_response(v@) == Some(e@),
{
    match v {
        JsonValue::Obj(fs) => {
            let code = match dec_opt_i32(fs, "code") {
                Some(x) => x,
                None => {
                    return None;
                },
            };
            let message = match dec_opt_str(fs, "message") {
                Some(x) => x,
                None => {
                    return None;
                },
            };
            let status = match dec_opt_str(fs, "status") {
                Some(x) => x,
                None => {
                    return None;
                },
            };
            let details = match dec_vec_json(fs, "details") {
                Some(x) => x,
                None => {
                    return None;
                },
            };
            Some(ErrorResponse { code, message, status, details })
        },
        _ => None,
    }
}

/// How one element of a parts array reads: an object carrying a string
/// "text" member is a text part; anything else is kept as raw JSON.
pub open spec fn spec_dec_part(v: JsonV) -> PartV {
    match v {
        JsonV::Obj(fs) => match lookup(fs, "text"@) {
            Some(JsonV::Str(t)) => PartV::Text(t),
            _ => PartV::Json(v),
        },
        _ => PartV::Json(v),
    }
}

pub open spec fn dec_parts(xs: Seq<JsonV>) -> Seq<PartV> {
    xs.map_values(|x: JsonV| spec_dec_part(x))
}

fn decode_part(v: &JsonValue) -> (r: Part)
    ensures
        r@ == spec_dec_part(v@),
{
    match v {
        JsonValue::Obj(fs) => match crate::json::obj_get(fs, "text") {
            Some(t) => match t {
                JsonValue::Str(s) => Part::Text { text: s.clone() },
                _ => Part::Json(v.clone()),
            },
            None => Part::Json(v.clone()),
        },
        _ => Part::Json(v.clone()),
    }
}

pub open spec fn spec_content(v: JsonV) -> Option<ContentV> {
    match v {
        JsonV::Obj(fs) => if get_opt_str(fs, "role"@) is Some {
            match lookup(fs, "parts"@) {
                None => Some(ContentV { role: ostr(get_opt_str(fs, "role"@)), parts: Seq::empty() }),
                Some(JsonV::Arr(xs)) => Some(
                    ContentV { role: ostr(get_opt_str(fs, "role"@)), parts: dec_parts(xs) },
                ),
                Some(_) => None,
            }
        } else {
            None
        },
        _ => None,
    }
}

#[verifier::loop_isolation(false)]
pub fn decode_content(v: &JsonValue) -> (r: Option<Content>)
    ensures
        (r is Some) == (spec_content(v@) is Some),
        r matches Some(c) ==> spec_content(v@) == Some(c@),
{
    match v {
        JsonValue::Obj(fs) => {
            let role = match dec_opt_str(fs, "role") {
                Some(x) => x,
                None => {
                    return None;
                },
            };
            match crate::json::obj_get(fs, "parts") {
                None => Some(Content { role, parts: Vec::new() }),
                Some(p) => match p {
                    JsonValue::Arr(xs) => {
                        let mut parts: Vec<Part> = Vec::new();
                        let n = xs.len();
                        for i in 0..n
                            invariant
                                n == xs@.len(),
                                parts@.len() == i,
                                forall|k: int|
                                    0 <= k < i ==> (#[trigger] parts@[k])@ == spec_dec_part(
                                        jv_seq(xs@)[k],
                                    ),
                        {
                            proof {
                                broadcast use crate::json::lemma_jv_seq_len;

                            }
                            parts.push(decode_part(&xs[i]));
                        }
                        proof {
                            broadcast use
                                crate::json::lemma_jv_seq_len,
                                crate::protocol::lemma_parts_v,
                            ;

                            assert(parts_v(parts@) =~= dec_parts(jv_seq(xs@)));
                        }
                        Some(Content { role, parts })
                    },
                    _ => None,
                },
            }
        },
        _ => None,
    }
}

pub open spec fn otrans(o: Option<Option<TranscriptionV>>) -> Option<TranscriptionV> {
    match o {
        Some(x) => x,
        None => None,
    }
}

pub open spec fn ocont(o: Option<Option<ContentV>>) -> Option<ContentV> {
    match o {
        Some(x) => x,
        None => None,
    }
}

pub open spec fn get_opt_transcription(fs: Seq<(Seq<char>, JsonV)>, k: Seq<char>) -> Option<
    Option<TranscriptionV>,
> {
    match lookup(fs, k) {
        None => Some(None),
        Some(JsonV::Null) => Some(None),
        Some(v) => match spec_transcription(v) {
            Some(t) => Some(Some(t)),
            None => None,
        },
    }
}

pub open spec fn get_opt_content(fs: Seq<(Seq<char>, JsonV)>, k: Seq<char>) -> Option<
    Option<ContentV>,
> {
    match lookup(fs, k) {
        None => Some(None),
        Some(JsonV::Null) => Some(None),
        Some(v) => match spec_content(v) {
            Some(c) => Some(Some(c)),
            None => None,
        },
    }
}

fn dec_opt_transcription(fs: &Vec<(String, JsonValue)>, key: &str) -> (r: Option<
    Option<Transcription>,
>)
    ensures
        (r is None) == (get_opt_transcription(jv_fields(fs@), key@) is None),
        r matches Some(None) ==> get_opt_transcription(jv_fields(fs@), key@) == Some(
            None::<TranscriptionV>,
        ),
        r matches Some(Some(t)) ==> get_opt_transcription(jv_fields(fs@), key@) == Some(
            Some(t@),
        ),
{
    match crate::json::obj_get(fs, key) {
        None => Some(None),
        Some(v) => match v {
            JsonValue::Null => Some(None),
            _ => match decode_transcription(v) {
                Some(t) => Some(Some(t)),
                None => None,
            },
        },
    }
}

fn dec_opt_content(fs: &Vec<(String, JsonValue)>, key: &str) -> (r: Option<Option<Content>>)
    ensures
        (r is None) == (get_opt_content(jv_fields(fs@), key@) is None),
        r matches Some(None) ==> get_opt_content(jv_fields(fs@), key@) == Some(None::<ContentV>),
        r matches Some(Some(c)) ==> get_opt_content(jv_fields(fs@), key@) == Some(Some(c@)),
{
    match crate::json::obj_get(fs, key) {
        None => Some(None),
        Some(v) => match v {
            JsonValue::Null => Some(None),
            _ => match decode_content(v) {
                Some(c) => Some(Some(c)),
                None => None,
            },
        },
    }
}

/// Mathematical model of incremental server content.
pub ghost struct ServerContentV {
    pub generation_complete: Option<bool>,
    pub turn_complete: Option<bool>,
    pub interrupted: Option<bool>,
    pub grounding_metadata: Option<JsonV>,
    pub input_transcription: Option<TranscriptionV>,
    pub output_transcription: Option<TranscriptionV>,
    pub url_context_metadata: Option<JsonV>,
    pub model_turn: Option<ContentV>,
}

/// Incremental content streamed from the model.
#[derive(Debug, Clone, PartialEq)]
pub struct ServerContent {
    pub generation_complete: Option<bool>,
    pub turn_complete: Option<bool>,
    pub interrupted: Option<bool>,
    pub grounding_metadata: Option<JsonValue>,
    pub input_transcription: Option<Transcription>,
    pub output_transcription: Option<Transcription>,
    pub url_context_metadata: Option<JsonValue>,
    pub model_turn: Option<Content>,
}

impl View for ServerContent {
    type V = ServerContentV;

    open spec fn view(&self) -> ServerContentV {
        ServerContentV {
            generation_complete: self.generation_complete,
            turn_complete: self.turn_complete,
            interrupted: self.interrupted,
            grounding_metadata: opt_json_v(self.grounding_metadata),
            input_transcription: match self.input_transcription {
                Some(ref t) => Some(t@),
                None => None,
            },
            output_transcription: match self.output_transcription {
                Some(ref t) => Some(t@),
                None => None,
            },
            url_context_metadata: opt_json_v(self.url_context_metadata),
            model_turn: match self.model_turn {
                Some(ref c) => Some(c@),
                None => None,
            },
        }
    }
}

pub open spec fn spec_server_content(v: JsonV) -> Option<ServerContentV> {
    match v {
        JsonV::Obj(fs) => if get_opt_bool(fs, "generationComplete"@) is Some && get_opt_bool(
            fs,
            "turnComplete"@,
        ) is Some && get_opt_bool(fs, "interrupted"@) is Some && get_opt_json(
            fs,
            "groundingMetadata"@,
        ) is Some && get_opt_transcription(fs, "inputTranscription"@) is Some
            && get_opt_transcription(fs, "outputTranscription"@) is Some && get_opt_json(
            fs,
            "urlContextMetadata"@,
        ) is Some && get_opt_content(fs, "modelTurn"@) is Some {
            Some(
                ServerContentV {
                    generation_complete: obool(get_opt_bool(fs, "generationComplete"@)),
                    turn_complete: obool(get_opt_bool(fs, "turnComplete"@)),
                    interrupted: obool(get_opt_bool(fs, "interrupted"@)),
                    grounding_metadata: ojson(get_opt_json(fs, "groundingMetadata"@)),
                    input_transcription: otrans(get_opt_transcription(fs, "inputTranscription"@)),
                    output_transcription: otrans(
                        get_opt_transcription(fs, "outputTranscription"@),
                    ),
                    url_context_metadata: ojson(get_opt_json(fs, "urlContextMetadata"@)),
                    model_turn: ocont(get_opt_content(fs, "modelTurn"@)),
                },
            )
        } else {
            None
        },
        _ => None,
    }
}

fn decode_server_content(v: &JsonValue) -> (r: Option<ServerContent>)
    ensures
        (r is Some) == (spec_server_content(v@) is Some),
        r matches Some(c) ==> spec_server_content(v@) == Some(c@),
{
    match v {
        JsonValue::Obj(fs) => {
            let generation_complete = match dec_opt_bool(fs, "generationComplete") {
                Some(x) => x,
                None => {
                    return None;
                },
            };
            let turn_complete = match dec_opt_bool(fs, "turnComplete") {
                Some(x) => x,
                None => {
                    return None;
                },
            };
            let interrupted = match dec_opt_bool(fs, "interrupted") {
                Some(x) => x,
                None => {
                    return None;
                },
            };
            let grounding_metadata = match dec_opt_json(fs, "groundingMetadata") {
                Some(x) => x,
                None => {
                    return None;
                },
            };
            let input_transcription = match dec_opt_transcription(fs, "inputTranscription") {
                Some(x) => x,
                None => {
                    return None;
                },
            };
            let output_transcription = match dec_opt_transcription(fs, "outputTranscription") {
                Some(x) => x,
                None => {
                    return None;
                },
            };
            let url_context_metadata = match dec_opt_json(fs, "urlContextMetadata") {
                Some(x) => x,
                None => {
                    return None;
                },
            };
            let model_turn = match dec_opt_content(fs, "modelTurn") {
                Some(x) => x,
                None => {
                    return None;
                },
            };
            Some(
                ServerContent {
                    generation_complete,
                    turn_complete,
                    interrupted,
                    grounding_metadata,
                    input_transcription,
                    output_transcription,
                    url_context_metadata,
                    model_turn,
                },
            )
        },
        _ => None,
    }
}

/// Mathematical model of one function call issued by the model.
pub ghost struct FunctionCallV {
    pub id: Seq<char>,
    pub name: Seq<char>,
    pub args: Option<JsonV>,
}

/// A single function call issued by the model.
#[derive(Debug, Clone, PartialEq)]
pub struct FunctionCall {
    pub id: String,
    pub name: String,
    pub args: Option<JsonValue>,
}

impl View for FunctionCall {
    type V = FunctionCallV;

    open spec fn view(&self) -> FunctionCallV {
        FunctionCallV { id: self.id@, name: self.name@, args: opt_json_v(self.args) }
    }
}

pub open spec fn spec_function_call(v: JsonV) -> Option<FunctionCallV> {
    match v {
        JsonV::Obj(fs) => match (lookup(fs, "id"@), lookup(fs, "name"@)) {
            (Some(JsonV::Str(id)), Some(JsonV::Str(name))) => if get_opt_json(fs, "args"@)
                is Some {
                Some(FunctionCallV { id, name, args: ojson(get_opt_json(fs, "args"@)) })
            } else {
                None
            },
            _ => None,
        },
        _ => None,
    }
}

fn decode_function_call(v: &JsonValue) -> (r: Option<FunctionCall>)
    ensures
        (r is Some) == (spec_function_call(v@) is Some),
        r matches Some(f) ==> spec_function_call(v@) == Some(f@),
{
    match v {
        JsonValue::Obj(fs) => {
            let id = match crate::json::obj_get(fs, "id") {
                Some(JsonValue::Str(s)) => s.clone(),
                _ => {
                    return None;
                },
            };
            let name = match crate::json::obj_get(fs, "name") {
                Some(JsonValue::Str(s)) => s.clone(),
                _ => {
                    return None;
                },
            };
            let args = match dec_opt_json(fs, "args") {
                Some(x) => x,
                None => {
                    return None;
                },
            };
            Some(FunctionCall { id, name, args })
        },
        _ => None,
    }
}

pub open spec fn fcs_v(s: Seq<FunctionCall>) -> Seq<FunctionCallV>
    decreases s,
{
    if s.len() == 0 {
        Seq::empty()
    } else {
        fcs_v(s.drop_last()).push(s.last()@)
    }
}

pub broadcast proof fn lemma_fcs_v(s: Seq<FunctionCall>)
    ensures
        (#[trigger] fcs_v(s)).len() == s.len(),
        forall|i: int| 0 <= i < s.len() ==> fcs_v(s)[i] == s[i]@,
    decreases s,
{
    if s.len() > 0 {
        lemma_fcs_v(s.drop_last());
    }
}

/// Decodes each element of a function call list, failing if any one
/// fails.
pub open spec fn dec_fcs(xs: Seq<JsonV>) -> Option<Seq<FunctionCallV>>
    decreases xs,
{
    if xs.len() == 0 {
        Some(Seq::empty())
    } else {
        match (dec_fcs(xs.drop_last()), spec_function_call(xs.last())) {
            (Some(a), Some(f)) => Some(a.push(f)),
            _ => None,
        }
    }
}

proof fn lemma_dec_fcs_prefix_fail(xs: Seq<JsonV>, i: int)
    requires
        0 <= i < xs.len(),
        spec_function_call(xs[i]) is None,
    ensures
        dec_fcs(xs) is None,
    decreases xs.len(),
{
    if xs.len() > 0 {
        if i < xs.len() - 1 {
            lemma_dec_fcs_prefix_fail(xs.drop_last(), i);
        }
    }
}

/// Mathematical model of a tool call request.
pub ghost struct ToolCallV {
    pub function_calls: Seq<FunctionCallV>,
}

/// Tool call request emitted by the model.
#[derive(Debug, Clone, PartialEq)]
pub struct ToolCall {
    pub function_calls: Vec<FunctionCall>,
}

impl View for ToolCall {
    type V = ToolCallV;

    open spec fn view(&self) -> ToolCallV {
        ToolCallV { function_calls: fcs_v(self.function_calls@) }
    }
}

pub open spec fn spec_tool_call(v: JsonV) -> Option<ToolCallV> {
    match v {
        JsonV::Obj(fs) => match lookup(fs, "functionCalls"@) {
            None => Some(ToolCallV { function_calls: Seq::empty() }),
            Some(JsonV::Arr(xs)) => match dec_fcs(xs) {
                Some(fcs) => Some(ToolCallV { function_calls: fcs }),
                None => None,
            },
            Some(_) => None,
        },
        _ => None,
    }
}

#[verifier::loop_isolation(false)]
fn decode_tool_call(v: &JsonValue) -> (r: Option<ToolCall>)
    ensures
        (r is Some) == (spec_tool_call(v@) is Some),
        r matches Some(t) ==> spec_tool_call(v@) == Some(t@),
{
    match v {
        JsonValue::Obj(fs) => match crate::json::obj_get(fs, "functionCalls") {
            None => {
                let out: Vec<FunctionCall> = Vec::new();
                proof {
                    assert(fcs_v(out@) =~= Seq::<FunctionCallV>::empty());
                }
                Some(ToolCall { function_calls: out })
            },
            Some(p) => match p {
                JsonValue::Arr(xs) => {
                    let mut out: Vec<FunctionCall> = Vec::new();
                    let n = xs.len();
                    for i in 0..n
                        invariant
                            n == xs@.len(),
                            out@.len() == i,
                            dec_fcs(jv_seq(xs@).subrange(0, i as int)) == Some(fcs_v(out@)),
                    {
                        match decode_function_call(&xs[i]) {
                            Some(f) => {
                                let ghost prev = out@;
                                out.push(f);
                                proof {
                                    broadcast use lemma_fcs_v, crate::json::lemma_jv_seq_len;

                                    assert(jv_seq(xs@).subrange(0, i + 1).drop_last() =~= jv_seq(
                                        xs@,
                                    ).subrange(0, i as int));
                                    assert(jv_seq(xs@).subrange(0, i + 1).last() == jv(
                                        xs@[i as int],
                                    ));
                                    assert(fcs_v(out@) =~= fcs_v(prev).push(f@));
                                }
                            },
                            None => {
                                proof {
                                    broadcast use crate::json::lemma_jv_seq_len;

                                    assert(jv_seq(xs@)[i as int] == jv(xs@[i as int]));
                                    lemma_dec_fcs_prefix_fail(jv_seq(xs@), i as int);
                                }
                                return None;
                            },
                        }
                    }
                    proof {
                        broadcast use crate::json::lemma_jv_seq_len;

                        assert(jv_seq(xs@).subrange(0, jv_seq(xs@).len() as int) =~= jv_seq(xs@));
                    }
                    Some(ToolCall { function_calls: out })
                },
                _ => None,
            },
        },
        _ => None,
    }
}

/// Mathematical model of a tool call cancellation notice.
pub ghost struct ToolCallCancellationV {
    pub ids: Seq<Seq<char>>,
}

/// Notification that previously issued tool calls should be cancelled.
#[derive(Debug, Clone, PartialEq)]
pub struct ToolCallCancellation {
    pub ids: Vec<String>,
}

impl View for ToolCallCancellation {
    type V = ToolCallCancellationV;

    open spec fn view(&self) -> ToolCallCancellationV {
        ToolCallCancellationV { ids: crate::protocol::strs_v(self.ids@) }
    }
}

pub open spec fn spec_cancellation(v: JsonV) -> Option<ToolCallCancellationV> {
    match v {
        JsonV::Obj(fs) => match get_vec_str(fs, "ids"@) {
            Some(ids) => Some(ToolCallCancellationV { ids }),
            None => None,
        },
        _ => None,
    }
}

fn decode_cancellation(v: &JsonValue) -> (r: Option<ToolCallCancellation>)
    ensures
        (r is Some) == (spec_cancellation(v@) is Some),
        r matches Some(c) ==> spec_cancellation(v@) == Some(c@),
{
    match v {
        JsonValue::Obj(fs) => match dec_vec_str(fs, "ids") {
            Some(ids) => Some(ToolCallCancellation { ids }),
            None => None,
        },
        _ => None,
    }
}

/// Mathematical model of a disconnect notice.
pub ghost struct GoAwayV {
    pub time_left: Option<JsonV>,
}

/// Server notice indicating the connection will close.
#[derive(Debug, Clone, PartialEq)]
pub struct GoAway {
    pub time_left: Option<JsonValue>,
}

impl View for GoAway {
    type V = GoAwayV;

    open spec fn view(&self) -> GoAwayV {
        GoAwayV { time_left: opt_json_v(self.time_left) }
    }
}

pub open spec fn spec_go_away(v: JsonV) -> Option<GoAwayV> {
    match v {
        JsonV::Obj(fs) => match get_opt_json(fs, "timeLeft"@) {
            Some(t) => Some(GoAwayV { time_left: t }),
            None => None,
        },
        _ => None,
    }
}

fn decode_go_away(v: &JsonValue) -> (r: Option<GoAway>)
    ensures
        (r is Some) == (spec_go_away(v@) is Some),
        r matches Some(g) ==> spec_go_away(v@) == Some(g@),
{
    match v {
        JsonValue::Obj(fs) => match dec_opt_json(fs, "timeLeft") {
            Some(t) => Some(GoAway { time_left: t }),
            None => None,
        },
        _ => None,
    }
}

/// Mathematical model of a session resumption update.
pub ghost struct SessionResumptionUpdateV {
    pub new_handle: Option<Seq<char>>,
    pub resumable: Option<bool>,
}

/// Session resumption state updates.
#[derive(Debug, Clone, PartialEq)]
pub struct SessionResumptionUpdate {
    pub new_handle: Option<String>,
    pub resumable: Option<bool>,
}

impl View for SessionResumptionUpdate {
    type V = SessionResumptionUpdateV;

    open spec fn view(&self) -> SessionResumptionUpdateV {
        SessionResumptionUpdateV {
            new_handle: opt_str_v(self.new_handle),
            resumable: self.resumable,
        }
    }
}

pub open spec fn spec_resumption(v: JsonV) -> Option<SessionResumptionUpdateV> {
    match v {
        JsonV::Obj(fs) => if get_opt_str(fs, "newHandle"@) is Some && get_opt_bool(
            fs,
            "resumable"@,
        ) is Some {
            Some(
                SessionResumptionUpdateV {
                    new_handle: ostr(get_opt_str(fs, "newHandle"@)),
                    resumable: obool(get_opt_bool(fs, "resumable"@)),
                },
            )
        } else {
            None
        },
        _ => None,
    }
}

fn decode_resumption(v: &JsonValue) -> (r: Option<SessionResumptionUpdate>)
    ensures
        (r is Some) == (spec_resumption(v@) is Some),
        r matches Some(u) ==> spec_resumption(v@) == Some(u@),
{
    match v {
        JsonValue::Obj(fs) => {
            let new_handle = match dec_opt_str(fs, "newHandle") {
                Some(x) => x,
                None => {
                    return None;
                },
            };
            let resumable = match dec_opt_bool(fs, "resumable") {
                Some(x) => x,
                None => {
                    return None;
                },
            };
            Some(SessionResumptionUpdate { new_handle, resumable })
        },
        _ => None,
    }
}

// ---------------------------------------------------------------------
// The classifier.
// ---------------------------------------------------------------------

/// Mathematical model of a classified server event.
pub ghost enum ServerEventV {
    SetupComplete { usage_metadata: Option<UsageMetadataV> },
    ServerContent { usage_metadata: Option<UsageMetadataV>, content: ServerContentV },
    ToolCall { usage_metadata: Option<UsageMetadataV>, tool_call: ToolCallV },
    ToolCallCancellation {
        usage_metadata: Option<UsageMetadataV>,
        cancellation: ToolCallCancellationV,
    },
    GoAway { usage_metadata: Option<UsageMetadataV>, go_away: GoAwayV },
    SessionResumptionUpdate {
        usage_metadata: Option<UsageMetadataV>,
        update: SessionResumptionUpdateV,
    },
    Error { usage_metadata: Option<UsageMetadataV>, error: ErrorResponseV },
    Unknown { usage_metadata: Option<UsageMetadataV>, raw: JsonV },
}

/// Messages broadcast by the server during a live session.
#[derive(Debug, Clone, PartialEq)]
pub enum ServerEvent {
    SetupComplete { usage_metadata: Option<UsageMetadata> },
    ServerContent { usage_metadata: Option<UsageMetadata>, content: ServerContent },
    ToolCall { usage_metadata: Option<UsageMetadata>, tool_call: ToolCall },
    ToolCallCancellation {
        usage_metadata: Option<UsageMetadata>,
        cancellation: ToolCallCancellation,
    },
    GoAway { usage_metadata: Option<UsageMetadata>, go_away: GoAway },
    SessionResumptionUpdate {
        usage_metadata: Option<UsageMetadata>,
        update: SessionResumptionUpdate,
    },
    Error { usage_metadata: Option<UsageMetadata>, error: ErrorResponse },
    Unknown { usage_metadata: Option<UsageMetadata>, raw: JsonValue },
}

pub open spec fn opt_usage_v(o: Option<UsageMetadata>) -> Option<UsageMetadataV> {
    match o {
        Some(u) => Some(u@),
        None => None,
    }
}

impl View for ServerEvent {
    type V = ServerEventV;

    open spec fn view(&self) -> ServerEventV {
        match self {
            ServerEvent::SetupComplete { usage_metadata } => ServerEventV::SetupComplete {
                usage_metadata: opt_usage_v(*usage_metadata),
            },
            ServerEvent::ServerContent { usage_metadata, content } => ServerEventV::ServerContent {
                usage_metadata: opt_usage_v(*usage_metadata),
                content: content@,
            },
            ServerEvent::ToolCall { usage_metadata, tool_call } => ServerEventV::ToolCall {
                usage_metadata: opt_usage_v(*usage_metadata),
                tool_call: tool_call@,
            },
            ServerEvent::ToolCallCancellation { usage_metadata, cancellation } => {
                ServerEventV::ToolCallCancellation {
                    usage_metadata: opt_usage_v(*usage_metadata),
                    cancellation: cancellation@,
                }
            },
            ServerEvent::GoAway { usage_metadata, go_away } => ServerEventV::GoAway {
                usage_metadata: opt_usage_v(*usage_metadata),
                go_away: go_away@,
            },
            ServerEvent::SessionResumptionUpdate { usage_metadata, update } => {
                ServerEventV::SessionResumptionUpdate {
                    usage_metadata: opt_usage_v(*usage_metadata),
                    update: update@,
                }
            },
            ServerEvent::Error { usage_metadata, error } => ServerEventV::Error {
                usage_metadata: opt_usage_v(*usage_metadata),
                error: error@,
            },
            ServerEvent::Unknown { usage_metadata, raw } => ServerEventV::Unknown {
                usage_metadata: opt_usage_v(*usage_metadata),
                raw: raw@,
            },
        }
    }
}

/// The usage metadata member of a message: absent reads as no metadata,
/// present it must decode.
pub open spec fn get_usage(fs: Seq<(Seq<char>, JsonV)>) -> Option<Option<UsageMetadataV>> {
    match lookup(fs, "usageMetadata"@) {
        None => Some(None),
        Some(u) => match spec_usage(u) {
            Some(x) => Some(Some(x)),
            None => None,
        },
    }
}

pub open spec fn ousage(o: Option<Option<UsageMetadataV>>) -> Option<UsageMetadataV> {
    match o {
        Some(x) => x,
        None => None,
    }
}

/// The known event-kind keys a message matched, in the fixed order in
/// which they are inspected.
pub open spec fn matched_keys(fs: Seq<(Seq<char>, JsonV)>) -> Seq<Seq<char>> {
    (if lookup(fs, "setupComplete"@) is Some {
        seq!["setupComplete"@]
    } else {
        Seq::empty()
    }) + (if lookup(fs, "serverContent"@) is Some {
        seq!["serverContent"@]
    } else {
        Seq::empty()
    }) + (if lookup(fs, "toolCall"@) is Some {
        seq!["toolCall"@]
    } else {
        Seq::empty()
    }) + (if lookup(fs, "toolCallCancellation"@) is Some {
        seq!["toolCallCancellation"@]
    } else {
        Seq::empty()
    }) + (if lookup(fs, "goAway"@) is Some {
        seq!["goAway"@]
    } else {
        Seq::empty()
    }) + (if lookup(fs, "sessionResumptionUpdate"@) is Some {
        seq!["sessionResumptionUpdate"@]
    } else {
        Seq::empty()
    })
}

/// Mathematical model of what classification yields for a decoded wire
/// message.
pub ghost enum ClassifiedV {
    /// The message classifies as exactly one event.
    Event(ServerEventV),
    /// The message is not a JSON object.
    NotObject,
    /// The message matched more than one event kind: the matched keys.
    Multiple(Seq<Seq<char>>),
    /// The payload under the named key did not decode.
    BadPayload(Seq<char>),
}

/// The classification rules: usage metadata is read first; an `error`
/// member wins over everything else; then the known event-kind keys are
/// inspected in a fixed order, and exactly one must match — zero matches
/// read as an unknown event carrying the remaining structure.
pub open spec fn spec_classify(v: JsonV) -> ClassifiedV {
    match v {
        JsonV::Obj(fs) => {
            if get_usage(fs) is None {
                ClassifiedV::BadPayload("usageMetadata"@)
            } else {
                let usage_metadata = ousage(get_usage(fs));
                match lookup(fs, "error"@) {
                    Some(e) => match spec_error_response(e) {
                        Some(error) => ClassifiedV::Event(
                            ServerEventV::Error { usage_metadata, error },
                        ),
                        None => ClassifiedV::BadPayload("error"@),
                    },
                    None => {
                        if matched_keys(fs).len() > 1 {
                            ClassifiedV::Multiple(matched_keys(fs))
                        } else {
                            match lookup(fs, "setupComplete"@) {
                                Some(p) => if spec_setup_complete_ok(p) {
                                    ClassifiedV::Event(
                                        ServerEventV::SetupComplete { usage_metadata },
                                    )
                                } else {
                                    ClassifiedV::BadPayload("setupComplete"@)
                                },
                                None => match lookup(fs, "serverContent"@) {
                                    Some(p) => match spec_server_content(p) {
                                        Some(content) => ClassifiedV::Event(
                                            ServerEventV::ServerContent {
                                                usage_metadata,
                                                content,
                                            },
                                        ),
                                        None => ClassifiedV::BadPayload("serverContent"@),
                                    },
                                    None => match lookup(fs, "toolCall"@) {
                                        Some(p) => match spec_tool_call(p) {
                                            Some(tool_call) => ClassifiedV::Event(
                                                ServerEventV::ToolCall {
                                                    usage_metadata,
                                                    tool_call,
                                                },
                                            ),
                                            None => ClassifiedV::BadPayload("toolCall"@),
                                        },
                                        None => match lookup(fs, "toolCallCancellation"@) {
                                            Some(p) => match spec_cancellation(p) {
                                                Some(cancellation) => ClassifiedV::Event(
                                                    ServerEventV::ToolCallCancellation {
                                                        usage_metadata,
                                                        cancellation,
                                                    },
                                                ),
                                                None => ClassifiedV::BadPayload(
                                                    "toolCallCancellation"@,
                                                ),
                                            },
                                            None => match lookup(fs, "goAway"@) {
                                                Some(p) => match spec_go_away(p) {
                                                    Some(go_away) => ClassifiedV::Event(
                                                        ServerEventV::GoAway {
                                                            usage_metadata,
                                                            go_away,
                                                        },
                                                    ),
                                                    None => ClassifiedV::BadPayload("goAway"@),
                                                },
                                                None => match lookup(
                                                    fs,
                                                    "sessionResumptionUpdate"@,
                                                ) {
                                                    Some(p) => match spec_resumption(p) {
                                                        Some(update) => ClassifiedV::Event(
                                                            ServerEventV::SessionResumptionUpdate {
                                                                usage_metadata,
                                                                update,
                                                            },
                                                        ),
                                                        None => ClassifiedV::BadPayload(
                                                            "sessionResumptionUpdate"@,
                                                        ),
                                                    },
                                                    None => ClassifiedV::Event(
                                                        ServerEventV::Unknown {
                                                            usage_metadata,
                                                            raw: JsonV::Obj(
                                                                remove_key(fs, "usageMetadata"@),
                                                            ),
                                                        },
                                                    ),
                                                },
                                            },
                                        },
                                    },
                                },
                            }
                        }
                    },
                }
            }
        },
        _ => ClassifiedV::NotObject,
    }
}

/// Maps a decoded wire message to exactly one server event, or reports
/// how it violates the protocol.
#[verifier::loop_isolation(false)]
#[verifier::rlimit(100)]
pub fn parse_server_event(v: &JsonValue) -> (r: core::result::Result<ServerEvent, GeminiError>)
    ensures
        match spec_classify(v@) {
            ClassifiedV::Event(ev) => r matches Ok(e) && e@ == ev,
            ClassifiedV::NotObject => r matches Err(GeminiError::UnexpectedServerMessage(raw))
                && raw@ == v@,
            ClassifiedV::Multiple(names) => r matches Err(
                GeminiError::MultipleServerMessageTypes(ns),
            ) && crate::protocol::strs_v(ns@) == names,
            ClassifiedV::BadPayload(k) => r matches Err(GeminiError::Decode(key)) && key@ == k,
        },
{
    match v {
        JsonValue::Obj(fs) => {
            let usage_metadata: Option<UsageMetadata> = match crate::json::obj_get(
                fs,
                "usageMetadata",
            ) {
                None => None,
                Some(u) => match decode_usage(u) {
                    Some(x) => Some(x),
                    None => {
                        return Err(GeminiError::Decode(String::from_str("usageMetadata")));
                    },
                },
            };
            match crate::json::obj_get(fs, "error") {
                Some(e) => {
                    return match decode_error_response(e) {
                        Some(error) => Ok(ServerEvent::Error { usage_metadata, error }),
                        None => Err(GeminiError::Decode(String::from_str("error"))),
                    };
                },
                None => {},
            }
            let mut matched: Vec<String> = Vec::new();
            if crate::json::obj_has(fs, "setupComplete") {
                matched.push(String::from_str("setupComplete"));
            }
            if crate::json::obj_has(fs, "serverContent") {
                matched.push(String::from_str("serverContent"));
            }
            if crate::json::obj_has(fs, "toolCall") {
                matched.push(String::from_str("toolCall"));
            }
            if crate::json::obj_has(fs, "toolCallCancellation") {
                matched.push(String::from_str("toolCallCancellation"));
            }
            if crate::json::obj_has(fs, "goAway") {
                matched.push(String::from_str("goAway"));
            }
            if crate::json::obj_has(fs, "sessionResumptionUpdate") {
                matched.push(String::from_str("sessionResumptionUpdate"));
            }
            proof {
                assert(crate::protocol::strs_v(matched@) =~= matched_keys(jv_fields(fs@))) by {
                    broadcast use crate::protocol::lemma_strs_v;

                };
            }
            if matched.len() > 1 {
                return Err(GeminiError::MultipleServerMessageTypes(matched));
            }
            if let Some(p) = crate::json::obj_get(fs, "setupComplete") {
                return match p {
                    JsonValue::Obj(_) => Ok(ServerEvent::SetupComplete { usage_metadata }),
                    _ => Err(GeminiError::Decode(String::from_str("setupComplete"))),
                };
            }
            if let Some(p) = crate::json::obj_get(fs, "serverContent") {
                return match decode_server_content(p) {
                    Some(content) => Ok(ServerEvent::ServerContent { usage_metadata, content }),
                    None => Err(GeminiError::Decode(String::from_str("serverContent"))),
                };
            }
            if let Some(p) = crate::json::obj_get(fs, "toolCall") {
                return match decode_tool_call(p) {
                    Some(tool_call) => Ok(ServerEvent::ToolCall { usage_metadata, tool_call }),
                    None => Err(GeminiError::Decode(String::from_str("toolCall"))),
                };
            }
            if let Some(p) = crate::json::obj_get(fs, "toolCallCancellation") {
                return match decode_cancellation(p) {
                    Some(cancellation) => Ok(
                        ServerEvent::ToolCallCancellation { usage_metadata, cancellation },
                    ),
                    None => Err(GeminiError::Decode(String::from_str("toolCallCancellation"))),
                };
            }
            if let Some(p) = crate::json::obj_get(fs, "goAway") {
                return match decode_go_away(p) {
                    Some(go_away) => Ok(ServerEvent::GoAway { usage_metadata, go_away }),
                    None => Err(GeminiError::Decode(String::from_str("goAway"))),
                };
            }
            if let Some(p) = crate::json::obj_get(fs, "sessionResumptionUpdate") {
                return match decode_resumption(p) {
                    Some(update) => Ok(
                        ServerEvent::SessionResumptionUpdate { usage_metadata, update },
                    ),
                    None => Err(GeminiError::Decode(String::from_str("sessionResumptionUpdate"))),
                };
            }
            let raw_fields = crate::json::obj_remove(fs, "usageMetadata");
            Ok(ServerEvent::Unknown { usage_metadata, raw: JsonValue::Obj(raw_fields) })
        },
        _ => Err(GeminiError::UnexpectedServerMessage(v.clone())),
    }
}

/// A message carrying two or more event-kind keys is always reported as
/// a protocol violation naming every matched key, never resolved to one
/// of them: here, a message with both server content and a tool call.
pub proof fn lemma_multiple_kinds_rejected(fs: Seq<(Seq<char>, JsonV)>)
    requires
        lookup(fs, "serverContent"@) is Some,
        lookup(fs, "toolCall"@) is Some,
        lookup(fs, "error"@) is None,
        get_usage(fs) is Some,
    ensures
        spec_classify(JsonV::Obj(fs)) matches ClassifiedV::Multiple(names)
            && names.contains("serverContent"@) && names.contains("toolCall"@),
{
    let names = matched_keys(fs);
    assert(spec_classify(JsonV::Obj(fs)) == ClassifiedV::Multiple(names));
    let sc_pos: int = if lookup(fs, "setupComplete"@) is Some {
        1
    } else {
        0
    };
    assert(names[sc_pos] == "serverContent"@);
    assert(names[sc_pos + 1] == "toolCall"@);
}

/// An `error` member always wins: whatever other event-kind keys a
/// message carries, it classifies as an error event, built from the
/// error payload alone.
pub proof fn lemma_error_takes_priority(fs: Seq<(Seq<char>, JsonV)>, e: JsonV, err: ErrorResponseV)
    requires
        lookup(fs, "error"@) == Some(e),
        spec_error_response(e) == Some(err),
        get_usage(fs) is Some,
    ensures
        spec_classify(JsonV::Obj(fs)) == ClassifiedV::Event(
            ServerEventV::Error { usage_metadata: ousage(get_usage(fs)), error: err },
        ),
{
}

pub open spec fn events_v(s: Seq<ServerEvent>) -> Seq<ServerEventV>
    decreases s,
{
    if s.len() == 0 {
        Seq::empty()
    } else {
        events_v(s.drop_last()).push(s.last()@)
    }
}

pub broadcast proof fn lemma_events_v(s: Seq<ServerEvent>)
    ensures
        (#[trigger] events_v(s)).len() == s.len(),
        forall|i: int| 0 <= i < s.len() ==> events_v(s)[i] == s[i]@,
    decreases s,
{
    if s.len() > 0 {
        lemma_events_v(s.drop_last());
    }
}

// ---------------------------------------------------------------------
// Decoding client content, and the round trip through the wire
// encoding.
// ---------------------------------------------------------------------

/// Decodes each element of a turns array, failing if any one fails.
pub open spec fn dec_contents(xs: Seq<JsonV>) -> Option<Seq<ContentV>>
    decreases xs,
{
    if xs.len() == 0 {
        Some(Seq::empty())
    } else {
        match (dec_contents(xs.drop_last()), spec_content(xs.last())) {
            (Some(a), Some(c)) => Some(a.push(c)),
            _ => None,
        }
    }
}

proof fn lemma_dec_contents_prefix_fail(xs: Seq<JsonV>, i: int)
    requires
        0 <= i < xs.len(),
        spec_content(xs[i]) is None,
    ensures
        dec_contents(xs) is None,
    decreases xs.len(),
{
    if xs.len() > 0 {
        if i < xs.len() - 1 {
            lemma_dec_contents_prefix_fail(xs.drop_last(), i);
        }
    }
}

/// How a client content message reads back from its decoded structure.
pub open spec fn spec_client_content(v: JsonV) -> Option<ClientContentV> {
    match v {
        JsonV::Obj(fs) => if get_opt_bool(fs, "turnComplete"@) is Some {
            match lookup(fs, "turns"@) {
                None => Some(
                    ClientContentV {
                        turns: Seq::empty(),
                        turn_complete: obool(get_opt_bool(fs, "turnComplete"@)),
                    },
                ),
                Some(JsonV::Arr(xs)) => match dec_contents(xs) {
                    Some(ts) => Some(
                        ClientContentV {
                            turns: ts,
                            turn_complete: obool(get_opt_bool(fs, "turnComplete"@)),
                        },
                    ),
                    None => None,
                },
                Some(_) => None,
            }
        } else {
            None
        },
        _ => None,
    }
}

/// Decodes a client content message from its wire structure.
#[verifier::loop_isolation(false)]
pub fn decode_client_content(v: &JsonValue) -> (r: Option<ClientContent>)
    ensures
        (r is Some) == (spec_client_content(v@) is Some),
        r matches Some(c) ==> spec_client_content(v@) == Some(c@),
{
    match v {
        JsonValue::Obj(fs) => {
            let turn_complete = match dec_opt_bool(fs, "turnComplete") {
                Some(x) => x,
                None => {
                    return None;
                },
            };
            match crate::json::obj_get(fs, "turns") {
                None => Some(ClientContent { turns: Vec::new(), turn_complete }),
                Some(p) => match p {
                    JsonValue::Arr(xs) => {
                        let mut turns: Vec<Content> = Vec::new();
                        let n = xs.len();
                        for i in 0..n
                            invariant
                                n == xs@.len(),
                                turns@.len() == i,
                                dec_contents(jv_seq(xs@).subrange(0, i as int)) == Some(
                                    contents_v(turns@),
                                ),
                        {
                            match decode_content(&xs[i]) {
                                Some(c) => {
                                    let ghost prev = turns@;
                                    turns.push(c);
                                    proof {
                                        broadcast use
                                            lemma_contents_v,
                                            crate::json::lemma_jv_seq_len,
                                        ;

                                        assert(jv_seq(xs@).subrange(0, i + 1).drop_last()
                                            =~= jv_seq(xs@).subrange(0, i as int));
                                        assert(jv_seq(xs@).subrange(0, i + 1).last() == jv(
                                            xs@[i as int],
                                        ));
                                        assert(contents_v(turns@) =~= contents_v(prev).push(
                                            turns@.last()@,
                                        ));
                                    }
                                },
                                None => {
                                    proof {
                                        broadcast use crate::json::lemma_jv_seq_len;

                                        assert(jv_seq(xs@)[i as int] == jv(xs@[i as int]));
                                        lemma_dec_contents_prefix_fail(jv_seq(xs@), i as int);
                                    }
                                    return None;
                                },
                            }
                        }
                        proof {
                            broadcast use crate::json::lemma_jv_seq_len;

                            assert(jv_seq(xs@).subrange(0, jv_seq(xs@).len() as int) =~= jv_seq(
                                xs@,
                            ));
                        }
                        Some(ClientContent { turns, turn_complete })
                    },
                    _ => None,
                },
            }
        },
        _ => None,
    }
}

/// A part reads back as itself: always for a text part; for a raw JSON
/// part, whenever the value does not itself look like a text part.
pub open spec fn wf_part(p: PartV) -> bool {
    match p {
        PartV::Text(_) => true,
        PartV::Json(v) => spec_dec_part(v) == p,
    }
}

pub open spec fn wf_content(c: ContentV) -> bool {
    forall|i: int| 0 <= i < c.parts.len() ==> wf_part(#[trigger] c.parts[i])
}

pub open spec fn wf_client_content(w: ClientContentV) -> bool {
    forall|i: int| 0 <= i < w.turns.len() ==> wf_content(#[trigger] w.turns[i])
}

proof fn lemma_lookup1(a: (Seq<char>, JsonV), k: Seq<char>)
    ensures
        lookup(seq![a], k) == if a.0 == k {
            Some(a.1)
        } else {
            None::<JsonV>
        },
{
    assert(seq![a].drop_first() =~= Seq::<(Seq<char>, JsonV)>::empty());
    assert(lookup(Seq::<(Seq<char>, JsonV)>::empty(), k) is None);
}

proof fn lemma_lookup2(a: (Seq<char>, JsonV), b: (Seq<char>, JsonV), k: Seq<char>)
    ensures
        lookup(seq![a, b], k) == if a.0 == k {
            Some(a.1)
        } else if b.0 == k {
            Some(b.1)
        } else {
            None::<JsonV>
        },
{
    assert(seq![a, b].drop_first() =~= seq![b]);
    lemma_lookup1(b, k);
}

proof fn lemma_part_round_trip(p: PartV)
    requires
        wf_part(p),
    ensures
        spec_dec_part(enc_part(p)) == p,
{
    broadcast use vstd::string::group_string_axioms;

    reveal_strlit("text");
    match p {
        PartV::Text(t) => {
            assert(lookup(seq![("text"@, JsonV::Str(t))], "text"@) == Some(JsonV::Str(t)));
        },
        PartV::Json(v) => {},
    }
}

proof fn lemma_parts_round_trip(ps: Seq<PartV>)
    requires
        forall|i: int| 0 <= i < ps.len() ==> wf_part(#[trigger] ps[i]),
    ensures
        dec_parts(enc_parts(ps)) == ps,
{
    broadcast use crate::protocol::lemma_enc_parts;

    assert forall|i: int| 0 <= i < ps.len() implies #[trigger] dec_parts(enc_parts(ps))[i]
        == ps[i] by {
        lemma_part_round_trip(ps[i]);
    };
    assert(dec_parts(enc_parts(ps)) =~= ps);
}

/// A content turn reads back from its wire encoding unchanged.
proof fn lemma_content_round_trip(c: ContentV)
    requires
        wf_content(c),
    ensures
        spec_content(enc_content(c)) == Some(c),
{
    broadcast use vstd::string::group_string_axioms;

    reveal_strlit("role");
    reveal_strlit("parts");
    assert("role"@.len() == 4);
    assert("parts"@.len() == 5);
    assert("role"@ != "parts"@);
    lemma_parts_round_trip(c.parts);
    let fs = enc_content(c)->Obj_0;
    match c.role {
        Some(r) => {
            let ra = ("role"@, JsonV::Str(r));
            if c.parts.len() == 0 {
                assert(c.parts =~= Seq::<PartV>::empty());
                assert(fs =~= seq![ra]);
                lemma_lookup1(ra, "role"@);
                lemma_lookup1(ra, "parts"@);
            } else {
                let pa = ("parts"@, JsonV::Arr(enc_parts(c.parts)));
                assert(fs =~= seq![ra, pa]);
                lemma_lookup2(ra, pa, "role"@);
                lemma_lookup2(ra, pa, "parts"@);
            }
        },
        None => {
            if c.parts.len() == 0 {
                assert(c.parts =~= Seq::<PartV>::empty());
                assert(fs =~= Seq::<(Seq<char>, JsonV)>::empty());
                assert(lookup(fs, "role"@) is None);
                assert(lookup(fs, "parts"@) is None);
            } else {
                let pa = ("parts"@, JsonV::Arr(enc_parts(c.parts)));
                assert(fs =~= seq![pa]);
                lemma_lookup1(pa, "role"@);
                lemma_lookup1(pa, "parts"@);
            }
        },
    }
}

proof fn lemma_contents_round_trip(ts: Seq<ContentV>)
    requires
        forall|i: int| 0 <= i < ts.len() ==> wf_content(#[trigger] ts[i]),
    ensures
        dec_contents(crate::protocol::enc_contents(ts)) == Some(ts),
    decreases ts.len(),
{
    broadcast use crate::protocol::lemma_enc_contents;

    if ts.len() == 0 {
        assert(crate::protocol::enc_contents(ts).len() == 0);
    } else {
        lemma_contents_round_trip(ts.drop_last());
        lemma_content_round_trip(ts.last());
        let xs = crate::protocol::enc_contents(ts);
        assert(xs.drop_last() =~= crate::protocol::enc_contents(ts.drop_last()));
        assert(xs.last() == enc_content(ts.last()));
        assert(ts.drop_last().push(ts.last()) =~= ts);
    }
}

/// Round trip: a client content message, serialized to its wire
/// structure and decoded back, yields an equal turn list and
/// turn-complete flag. The one proviso is that no raw JSON part may
/// itself look like a text part — an object carrying a string "text"
/// member always reads back as a text part.
pub proof fn lemma_client_content_round_trip(w: ClientContentV)
    requires
        wf_client_content(w),
    ensures
        spec_client_content(enc_client_content(w)) == Some(w),
{
    broadcast use vstd::string::group_string_axioms;

    reveal_strlit("turns");
    reveal_strlit("turnComplete");
    assert("turns"@.len() == 5);
    assert("turnComplete"@.len() == 12);
    assert("turns"@ != "turnComplete"@);
    lemma_contents_round_trip(w.turns);
    let fs = enc_client_content(w)->Obj_0;
    let ta = ("turns"@, JsonV::Arr(crate::protocol::enc_contents(w.turns)));
    match w.turn_complete {
        Some(b) => {
            let ca = ("turnComplete"@, JsonV::Bool(b));
            if w.turns.len() == 0 {
                assert(w.turns =~= Seq::<ContentV>::empty());
                assert(fs =~= seq![ca]);
                lemma_lookup1(ca, "turns"@);
                lemma_lookup1(ca, "turnComplete"@);
            } else {
                assert(fs =~= seq![ta, ca]);
                lemma_lookup2(ta, ca, "turns"@);
                lemma_lookup2(ta, ca, "turnComplete"@);
            }
        },
        None => {
            if w.turns.len() == 0 {
                assert(w.turns =~= Seq::<ContentV>::empty());
                assert(fs =~= Seq::<(Seq<char>, JsonV)>::empty());
                assert(lookup(fs, "turns"@) is None);
                assert(lookup(fs, "turnComplete"@) is None);
            } else {
                assert(fs =~= seq![ta]);
                lemma_lookup1(ta, "turns"@);
                lemma_lookup1(ta, "turnComplete"@);
            }
        },
    }
}

} // verus!
