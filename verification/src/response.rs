//! Rendering of model responses for a command-line sink.
//!
//! The printer here only decides what each line of output says; writing
//! the lines to a terminal is the caller's business.

use vstd::prelude::*;
use vstd::string::StringExecFns;

use crate::events::{ServerEvent, ServerEventV};
use crate::json::{json_to_string, ser};
use crate::protocol::{lemma_strs_v, strs_v, Content, ContentV, ErrorResponse, ErrorResponseV, Part, PartV};

verus! {

/// Mathematical model of a sink action.
pub ghost enum SinkStepV {
    Respond { turn: Option<ContentV>, generation_complete: bool },
    Ready,
    Report(ErrorResponseV),
    Ignore,
}

/// What a response sink does with one received server event.
#[derive(Debug, Clone, PartialEq)]
pub enum SinkStep {
    /// Print the model turn, if one came, then a blank line when the
    /// generation finished.
    Respond { turn: Option<Content>, generation_complete: bool },
    /// Announce that the session is ready.
    Ready,
    /// Report this server error.
    Report(ErrorResponse),
    /// Nothing for the sink.
    Ignore,
}

impl View for SinkStep {
    type V = SinkStepV;

    open spec fn view(&self) -> SinkStepV {
        match self {
            SinkStep::Respond { turn, generation_complete } => SinkStepV::Respond {
                turn: match turn {
                    Some(c) => Some(c@),
                    None => None,
                },
                generation_complete: *generation_complete,
            },
            SinkStep::Ready => SinkStepV::Ready,
            SinkStep::Report(e) => SinkStepV::Report(e@),
            SinkStep::Ignore => SinkStepV::Ignore,
        }
    }
}

/// The dispatch rule of the receive loop: server content reaches the
/// sink, the setup acknowledgment is announced, a server error is
/// reported, and every other event is ignored.
pub open spec fn spec_sink_step(ev: ServerEventV) -> SinkStepV {
    match ev {
        ServerEventV::ServerContent { content, .. } => SinkStepV::Respond {
            turn: content.model_turn,
            generation_complete: content.generation_complete == Some(true),
        },
        ServerEventV::SetupComplete { .. } => SinkStepV::Ready,
        ServerEventV::Error { error, .. } => SinkStepV::Report(error),
        _ => SinkStepV::Ignore,
    }
}

/// Maps one received server event to the sink action it calls for.
pub fn sink_step(event: ServerEvent) -> (r: SinkStep)
    ensures
        r@ == spec_sink_step(event@),
{
    match event {
        ServerEvent::ServerContent { content, .. } => SinkStep::Respond {
            generation_complete: match content.generation_complete {
                Some(true) => true,
                _ => false,
            },
            turn: content.model_turn,
        },
        ServerEvent::SetupComplete { .. } => SinkStep::Ready,
        ServerEvent::Error { error, .. } => SinkStep::Report(error),
        _ => SinkStep::Ignore,
    }
}

/// The line printed for one content part.
pub open spec fn response_line(p: PartV) -> Seq<char> {
    match p {
        PartV::Text(t) => "Gemini: "@ + t,
        PartV::Json(v) => "Gemini (json): "@ + ser(v),
    }
}

/// The lines printed for a content turn: one per part, in order.
pub open spec fn response_lines(c: ContentV) -> Seq<Seq<char>> {
    c.parts.map_values(|p: PartV| response_line(p))
}

/// Renders model responses as lines of terminal output.
#[derive(Debug, Clone, PartialEq, Eq)]
pub struct CliResponsePrinter;

impl CliResponsePrinter {
    /// Creates a printer.
    pub fn new() -> (r: Self)
        ensures
            r == (CliResponsePrinter {  }),
    {
        CliResponsePrinter {  }
    }

    /// The lines to print for one content turn, one per part, in order.
    #[verifier::loop_isolation(false)]
    pub fn render_response(&self, content: &Content) -> (r: Vec<String>)
        ensures
            strs_v(r@) == response_lines(content@),
    {
        let mut out: Vec<String> = Vec::new();
        let n = content.parts.len();
        for i in 0..n
            invariant
                n == content.parts@.len(),
                out@.len() == i,
                forall|k: int|
                    0 <= k < i ==> (#[trigger] out@[k])@ == response_line(content.parts@[k]@),
        {
            let mut line: Vec<char> = Vec::new();
            match &content.parts[i] {
                Part::Text { text } => {
                    crate::protocol::push_str_chars(&mut line, "Gemini: ");
                    crate::protocol::push_str_chars(&mut line, text.as_str());
                },
                Part::Json(v) => {
                    crate::protocol::push_str_chars(&mut line, "Gemini (json): ");
                    let rendered = json_to_string(v);
                    crate::protocol::push_str_chars(&mut line, rendered.as_str());
                },
            }
            out.push(crate::text::chars_string(&line));
        }
        proof {
            broadcast use lemma_strs_v, crate::protocol::lemma_parts_v;

            assert(strs_v(out@) =~= response_lines(content@));
        }
        out
    }
}

impl Default for CliResponsePrinter {
    /// The one printer value.
    fn default() -> (r: Self)
        ensures
            r == (CliResponsePrinter {  }),
    {
        CliResponsePrinter::new()
    }
}

} // verus!
