//! The framed text protocol between client and session: reading the
//! `payload` field out of an inbound frame, and rendering outbound frames.
//!
//! The frame text is structured as JSON; encoding and decoding are done by
//! the `json` crate behind trusted items, and everything the session decides
//! about a frame is verified against the named results of those calls.

use vstd::prelude::*;

verus! {

/// The kind of an outbound frame.
#[derive(Clone, Copy, PartialEq, Eq, Structural, Debug)]
pub enum FrameKind {
    /// Acknowledgment echoing the received question.
    UserMessage,
    /// One incremental fragment of the generated answer.
    BotStreamChunk,
    /// The final fragment of the generated answer.
    BotStreamEnd,
    /// A visible failure indication.
    ErrorMessage,
}

/// One outbound frame before encoding.
#[derive(Debug)]
pub struct OutboundFrame {
    pub kind: FrameKind,
    pub payload: String,
}

/// The wire name of a frame kind.
pub open spec fn kind_name(k: FrameKind) -> Seq<char> {
    match k {
        FrameKind::UserMessage => "user_message"@,
        FrameKind::BotStreamChunk => "bot_stream_chunk"@,
        FrameKind::BotStreamEnd => "bot_stream_end"@,
        FrameKind::ErrorMessage => "error"@,
    }
}

/// The `payload` string field of an inbound frame text, when the text is a
/// structured frame carrying one; the field depends on the frame text
/// alone.
pub uninterp spec fn frame_payload_of(text: Seq<char>) -> Option<Seq<char>>;

/// Relies on `json::parse` and `JsonValue::as_str`: whether a text parses,
/// and what its `payload` string member holds, depend on the text alone.
#[verifier::external_body]
pub(crate) fn extract_payload(text: &str) -> (r: Option<String>)
    ensures
        r matches Some(p) ==> frame_payload_of(text@) == Some(p@),
        r is None ==> frame_payload_of(text@) is None,
{
    match json::parse(text) {
        Ok(parsed) => parsed["payload"].as_str().map(|s| s.to_string()),
        Err(_) => None,
    }
}

/// The encoded text of an outbound frame with the given kind name and
/// payload; it depends on the two fields alone.
pub uninterp spec fn frame_text_of(kind: Seq<char>, payload: Seq<char>) -> Seq<char>;

/// Relies on `json::stringify` and `JsonValue::insert`: the rendering of an
/// object holding the two string members `type` and `payload`, in that
/// order, depends on the two values alone.
#[verifier::external_body]
fn stringify_frame(kind: &str, payload: &str) -> (r: String)
    ensures
        r@ == frame_text_of(kind@, payload@),
{
    let mut obj = json::JsonValue::new_object();
    let _ = obj.insert("type", kind);
    let _ = obj.insert("payload", payload);
    json::stringify(obj)
}

/// The wire name of a frame kind.
pub fn kind_name_str(k: FrameKind) -> (r: &'static str)
    ensures
        r@ == kind_name(k),
{
    match k {
        FrameKind::UserMessage => "user_message",
        FrameKind::BotStreamChunk => "bot_stream_chunk",
        FrameKind::BotStreamEnd => "bot_stream_end",
        FrameKind::ErrorMessage => "error",
    }
}

/// Encodes an outbound frame into its wire text.
pub fn encode_frame(f: &OutboundFrame) -> (r: String)
    ensures
        r@ == frame_text_of(kind_name(f.kind), f.payload@),
{
    stringify_frame(kind_name_str(f.kind), f.payload.as_str())
}

} // verus!
