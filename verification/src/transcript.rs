//! Extraction of transcript events from the remote service's frames.
//!
//! An inbound text frame carries a JSON document whose interesting part is
//! `channel.alternatives[0].transcript` together with a top-level `is_final`
//! flag. Extraction is deliberately lossy-tolerant: any structural deviation
//! from that shape yields no event, never an error, and a frame whose
//! extracted text is empty is discarded.

use vstd::prelude::*;

use crate::json::JsonValue;
use crate::json::json_of;
use crate::json::parse_json;

verus! {

/// One transcript notification for the caller: a non-empty piece of text and
/// whether the remote service considers it final.
#[derive(Debug, Clone, PartialEq, Eq)]
pub struct TranscriptEvent {
    pub text: String,
    pub is_final: bool,
}

/// One inbound frame, as the listener sees it. Binary frames are never
/// expected from the remote service and are ignored.
pub enum InboundFrame {
    Binary(Vec<u8>),
    Text(String),
}

/// The first alternative of the document's channel, when the document has the
/// expected shape down to that depth.
pub open spec fn spec_first_alternative(doc: JsonValue) -> Option<JsonValue> {
    match doc.spec_get("channel"@) {
        Some(channel) => match channel.spec_get("alternatives"@) {
            Some(alternatives) => alternatives.spec_at(0),
            None => None,
        },
        None => None,
    }
}

/// The transcript text that the document carries: the first alternative's
/// `transcript` string, or empty when that field is absent or not a string,
/// or when there is no first alternative at all.
pub open spec fn spec_extracted_text(doc: JsonValue) -> Seq<char> {
    match spec_first_alternative(doc) {
        Some(alternative) => match alternative.spec_get("transcript"@) {
            Some(JsonValue::Text(t)) => t@,
            _ => Seq::empty(),
        },
        None => Seq::empty(),
    }
}

/// The document's finality flag: its top-level `is_final` boolean, defaulting
/// to false when absent or not a boolean.
pub open spec fn spec_extracted_final(doc: JsonValue) -> bool {
    match doc.spec_get("is_final"@) {
        Some(JsonValue::Bool(b)) => b,
        _ => false,
    }
}

/// The event a parsed document gives rise to: the extracted text with the
/// finality flag when that text is non-empty, and nothing otherwise.
pub open spec fn spec_extract(doc: JsonValue) -> Option<(Seq<char>, bool)> {
    if spec_first_alternative(doc) is Some && spec_extracted_text(doc).len() > 0 {
        Some((spec_extracted_text(doc), spec_extracted_final(doc)))
    } else {
        None
    }
}

/// The event an inbound piece of text gives rise to: nothing when it is not
/// valid JSON, and otherwise what its document extracts to.
pub open spec fn spec_frame_event(s: Seq<char>) -> Option<(Seq<char>, bool)> {
    match json_of(s) {
        Some(doc) => spec_extract(doc),
        None => None,
    }
}

/// An event is extracted from a document exactly when the text extracted from
/// it is non-empty; the event then carries that text and the document's
/// finality flag.
pub proof fn lemma_event_iff_nonempty_text(doc: JsonValue)
    ensures
        spec_extract(doc) is Some <==> spec_extracted_text(doc).len() > 0,
        spec_extract(doc) is Some ==> spec_extract(doc) == Some(
            (spec_extracted_text(doc), spec_extracted_final(doc)),
        ),
{
    if spec_extracted_text(doc).len() > 0 {
        assert(spec_first_alternative(doc) is Some);
    }
}

/// Extracts the transcript event that a parsed document carries, if any.
pub fn extract_event(doc: &JsonValue) -> (r: Option<TranscriptEvent>)
    ensures
        match r {
            Some(ev) => spec_extract(*doc) == Some((ev.text@, ev.is_final)) && ev.text@.len()
                > 0,
            None => spec_extract(*doc) is None,
        },
{
    let alternative = match doc.get_field("channel") {
        Some(channel) => match channel.get_field("alternatives") {
            Some(alternatives) => alternatives.get_at(0),
            None => None,
        },
        None => None,
    };
    match alternative {
        Some(alt) => {
            let text: String = match alt.get_field("transcript") {
                Some(v) => match v.as_text() {
                    Some(s) => s.clone(),
                    None => String::new(),
                },
                None => String::new(),
            };
            let is_final: bool = match doc.get_field("is_final") {
                Some(v) => match v.as_boolean() {
                    Some(b) => b,
                    None => false,
                },
                None => false,
            };
            if text.as_str().is_empty() {
                None
            } else {
                Some(TranscriptEvent { text, is_final })
            }
        },
        None => None,
    }
}

/// Parses one inbound text frame and extracts its transcript event: nothing
/// for malformed JSON or an empty transcript, per `spec_frame_event`.
pub fn handle_text_frame(s: &str) -> (r: Option<TranscriptEvent>)
    ensures
        match r {
            Some(ev) => spec_frame_event(s@) == Some((ev.text@, ev.is_final)) && ev.text@.len()
                > 0,
            None => spec_frame_event(s@) is None,
        },
{
    match parse_json(s) {
        Some(doc) => extract_event(&doc),
        None => None,
    }
}

/// Handles one inbound frame: a binary frame is ignored, a text frame yields
/// its transcript event, if it has one.
pub fn handle_frame(frame: &InboundFrame) -> (r: Option<TranscriptEvent>)
    ensures
        match frame {
            InboundFrame::Binary(_) => r is None,
            InboundFrame::Text(s) => match r {
                Some(ev) => spec_frame_event(s@) == Some((ev.text@, ev.is_final))
                    && ev.text@.len() > 0,
                None => spec_frame_event(s@) is None,
            },
        },
{
    match frame {
        InboundFrame::Binary(_) => None,
        InboundFrame::Text(s) => handle_text_frame(s.as_str()),
    }
}

} // verus!
