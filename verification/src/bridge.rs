//! The capture-to-session bridge's message building: each captured
//! frame, already compressed, becomes one client content message with
//! the image inline and a prompt part, marked turn-complete.

use vstd::prelude::*;
use vstd::string::StringExecFns;

use crate::json::{jv_fields, JsonV, JsonValue};
use crate::protocol::{
    spec_base64, ClientContent, ClientContentV, Content, ContentV, Part, PartV,
};

verus! {

/// The inline image payload: a raw JSON part carrying the media type
/// and the base64 image text.
pub open spec fn inline_image_json(img: Seq<char>) -> JsonV {
    JsonV::Obj(
        seq![
            (
                "inline_data"@,
                JsonV::Obj(
                    seq![
                        ("mime_type"@, JsonV::Str("image/jpeg"@)),
                        ("data"@, JsonV::Str(img)),
                    ],
                ),
            ),
        ],
    )
}

/// The message sent for one captured frame: a single user turn holding
/// the inline image and the prompt, marked turn-complete.
pub open spec fn frame_content_v(img: Seq<char>, prompt: Seq<char>) -> ClientContentV {
    ClientContentV {
        turns: seq![
            ContentV {
                role: Some("user"@),
                parts: seq![PartV::Json(inline_image_json(img)), PartV::Text(prompt)],
            },
        ],
        turn_complete: Some(true),
    }
}

/// Builds the client content message for one frame from its base64
/// image text and the prompt to send with it.
pub fn frame_client_content(base64_image: String, prompt: String) -> (r: ClientContent)
    ensures
        r@ == frame_content_v(base64_image@, prompt@),
{
    let mut inner: Vec<(String, JsonValue)> = Vec::new();
    inner.push((String::from_str("mime_type"), JsonValue::Str(String::from_str("image/jpeg"))));
    inner.push((String::from_str("data"), JsonValue::Str(base64_image)));
    let ghost inner_snapshot = inner@;
    let mut outer: Vec<(String, JsonValue)> = Vec::new();
    outer.push((String::from_str("inline_data"), JsonValue::Obj(inner)));
    proof {
        broadcast use crate::json::lemma_jv_fields_len;

        assert(jv_fields(inner_snapshot) =~= inline_image_json(
            inner_snapshot[1].1->Str_0@,
        )->Obj_0[0].1->Obj_0);
        assert(jv_fields(outer@) =~= inline_image_json(inner_snapshot[1].1->Str_0@)->Obj_0);
    }
    let mut parts: Vec<Part> = Vec::new();
    parts.push(Part::Json(JsonValue::Obj(outer)));
    parts.push(Part::text(prompt));
    let ghost img = inner_snapshot[1].1->Str_0@;
    proof {
        broadcast use crate::protocol::lemma_parts_v;

        assert(crate::protocol::parts_v(parts@) =~= frame_content_v(img, parts@[1]->text@)
            .turns[0].parts);
    }
    let mut turns: Vec<Content> = Vec::new();
    turns.push(Content { role: Some(String::from_str("user")), parts });
    proof {
        broadcast use crate::protocol::lemma_contents_v;

        assert(crate::protocol::contents_v(turns@) =~= frame_content_v(
            img,
            turns@[0].parts@[1]->text@,
        ).turns);
    }
    ClientContent { turns, turn_complete: Some(true) }
}

/// Builds the client content message for one frame straight from its
/// compressed bytes: the image text is the standard base64 of the
/// bytes.
pub fn frame_message_from_jpeg(jpeg_bytes: &[u8], prompt: String) -> (r: ClientContent)
    ensures
        r@ == frame_content_v(spec_base64(jpeg_bytes@), prompt@),
{
    let data = crate::protocol::base64_standard(jpeg_bytes);
    frame_client_content(data, prompt)
}

} // verus!
