//! The frame decoder: turns one frame's payload into a typed stream event,
//! the end-of-stream signal, or a structured decode error.
//!
//! The payload text is read through the trusted boundary in [`crate::json`],
//! whose named, deterministic field readings let every contract here say
//! exactly when decoding succeeds and what it returns: which discriminator
//! selects which event, which fields are required, and the exact path and
//! cause recorded for the first field that does not read back.  An
//! unrecognized discriminator is a hard error, never skipped, so schema
//! drift surfaces at the first drifted frame.

use vstd::prelude::*;
use vstd::string::StringSliceAdditionalSpecFns;
use serde_json::Value;

use crate::json::bytes_to_string_lossy;
use crate::json::get_field_exists;
use crate::json::get_nested_field_exists;
use crate::json::get_nested_str_field;
use crate::json::get_null_field;
use crate::json::get_str_field;
use crate::json::get_u64_field;
use crate::json::get_value_field;
use crate::json::json_has_field;
use crate::json::json_nested_has_field;
use crate::json::json_nested_str_field;
use crate::json::json_null_field;
use crate::json::json_parses;
use crate::json::json_str_field;
use crate::json::json_u64_field;
use crate::json::lossy_decode;
use crate::json::text_parses;
use crate::path::DecodePath;
use crate::path::PathSegView;
use crate::path::path_render;
use crate::sse::is_sentinel_payload;
use crate::sse::sentinel;
use crate::models::ResponseStreamEvent;
use crate::models::ResponseAudioDeltaEvent;
use crate::models::ResponseAudioDoneEvent;
use crate::models::ResponseAudioTranscriptDeltaEvent;
use crate::models::ResponseAudioTranscriptDoneEvent;
use crate::models::ResponseCodeInterpreterCallCodeDeltaEvent;
use crate::models::ResponseCodeInterpreterCallCodeDoneEvent;
use crate::models::ResponseCodeInterpreterCallCompletedEvent;
use crate::models::ResponseCodeInterpreterCallInProgressEvent;
use crate::models::ResponseCodeInterpreterCallInterpretingEvent;
use crate::models::ResponseCompletedEvent;
use crate::models::ResponseContentPartAddedEvent;
use crate::models::ResponseContentPartDoneEvent;
use crate::models::ResponseCreatedEvent;
use crate::models::ResponseErrorEvent;
use crate::models::ResponseFailedEvent;
use crate::models::ResponseFileSearchCallCompletedEvent;
use crate::models::ResponseFileSearchCallInProgressEvent;
use crate::models::ResponseFileSearchCallSearchingEvent;
use crate::models::ResponseFunctionCallArgumentsDeltaEvent;
use crate::models::ResponseFunctionCallArgumentsDoneEvent;
use crate::models::ResponseImageGenCallCompletedEvent;
use crate::models::ResponseImageGenCallGeneratingEvent;
use crate::models::ResponseImageGenCallInProgressEvent;
use crate::models::ResponseImageGenCallPartialImageEvent;
use crate::models::ResponseInProgressEvent;
use crate::models::ResponseIncompleteEvent;
use crate::models::ResponseMcpCallArgumentsDeltaEvent;
use crate::models::ResponseMcpCallArgumentsDoneEvent;
use crate::models::ResponseMcpCallCompletedEvent;
use crate::models::ResponseMcpCallFailedEvent;
use crate::models::ResponseMcpCallInProgressEvent;
use crate::models::ResponseMcpListToolsCompletedEvent;
use crate::models::ResponseMcpListToolsFailedEvent;
use crate::models::ResponseMcpListToolsInProgressEvent;
use crate::models::ResponseOutputItemAddedEvent;
use crate::models::ResponseOutputItemDoneEvent;
use crate::models::ResponseOutputTextAnnotationAddedEvent;
use crate::models::ResponseQueuedEvent;
use crate::models::ResponseReasoningDeltaEvent;
use crate::models::ResponseReasoningDoneEvent;
use crate::models::ResponseReasoningSummaryDeltaEvent;
use crate::models::ResponseReasoningSummaryDoneEvent;
use crate::models::ResponseReasoningSummaryPartAddedEvent;
use crate::models::ResponseReasoningSummaryPartAddedEventPart;
use crate::models::ResponseReasoningSummaryPartDoneEvent;
use crate::models::ResponseReasoningSummaryPartDoneEventPart;
use crate::models::ResponseReasoningSummaryTextDeltaEvent;
use crate::models::ResponseReasoningSummaryTextDoneEvent;
use crate::models::ResponseRefusalDeltaEvent;
use crate::models::ResponseRefusalDoneEvent;
use crate::models::ResponseTextDeltaEvent;
use crate::models::ResponseTextDoneEvent;
use crate::models::ResponseWebSearchCallCompletedEvent;
use crate::models::ResponseWebSearchCallInProgressEvent;
use crate::models::ResponseWebSearchCallSearchingEvent;

verus! {

/// The structural reason a payload failed to decode.
#[derive(Debug, Clone, PartialEq)]
pub enum DecodeCause {
    /// The payload text is not well-formed JSON.
    Syntax,
    /// A required field is absent.
    MissingField,
    /// A field is present but has the wrong JSON shape.
    WrongType,
    /// The `type` discriminator names no known event kind.
    UnknownVariant,
}

/// A decode failure: the path into the document at which decoding failed,
/// the structural cause, and the raw payload text for diagnostics.
#[derive(Debug, Clone, PartialEq)]
pub struct DecodeError {
    /// The dotted and bracketed path to the point of failure.
    pub path: String,
    /// The structural cause.
    pub cause: DecodeCause,
    /// The payload text that failed to decode.
    pub raw: String,
}

/// Byte-for-byte equality of two slices.
fn bytes_eq(a: &[u8], b: &[u8]) -> (r: bool)
    ensures
        r == (a@ == b@),
{
    if a.len() != b.len() {
        proof {
            if a@ == b@ {
                assert(a@.len() == b@.len());
            }
        }
        return false;
    }
    let mut i: usize = 0;
    while i < a.len()
        invariant
            a@.len() == b@.len(),
            i <= a@.len(),
            forall|j: int| 0 <= j < i ==> a@[j] == b@[j],
        decreases a@.len() - i,
    {
        if a[i] != b[i] {
            proof {
                if a@ == b@ {
                    assert(a@[i as int] == b@[i as int]);
                }
            }
            return false;
        }
        i = i + 1;
    }
    proof {
        assert(a@ =~= b@);
    }
    true
}

/// String equality as equality of the character sequences.
pub fn str_eq(a: &str, b: &str) -> (r: bool)
    ensures
        r == (a@ == b@),
{
    let r = bytes_eq(a.as_bytes(), b.as_bytes());
    proof {
        if a.spec_bytes() == b.spec_bytes() {
            vstd::utf8::encode_utf8_decode_utf8(a@);
            vstd::utf8::encode_utf8_decode_utf8(b@);
        }
    }
    r
}

/// Builds the error for one field of the document's top-level object.
fn field_error(key: &str, cause: DecodeCause, raw: &String) -> (e: DecodeError)
    ensures
        e.path@ == key@,
        e.cause == cause,
        e.raw@ == raw@,
{
    let mut p = DecodePath::new();
    p.push_field(key);
    let rendered = p.render();
    proof {
        let segs = Seq::<PathSegView>::empty().push(PathSegView::Field(key@));
        assert(segs.drop_last() =~= Seq::<PathSegView>::empty());
        assert(path_render(Seq::<PathSegView>::empty()) == Seq::<char>::empty());
        assert(Seq::<char>::empty() + key@ =~= key@);
        assert(rendered@ == key@);
    }
    DecodeError { path: rendered, cause, raw: raw.clone() }
}

/// Builds the error for a field one object below the top level.
fn nested_field_error(outer: &str, inner: &str, cause: DecodeCause, raw: &String) -> (e:
    DecodeError)
    ensures
        e.path@ == outer@ + "."@ + inner@,
        e.cause == cause,
        e.raw@ == raw@,
{
    let mut p = DecodePath::new();
    p.push_field(outer);
    p.push_field(inner);
    let rendered = p.render();
    proof {
        let s1 = Seq::<PathSegView>::empty().push(PathSegView::Field(outer@));
        let s2 = s1.push(PathSegView::Field(inner@));
        assert(s2.drop_last() =~= s1);
        assert(s1.drop_last() =~= Seq::<PathSegView>::empty());
        assert(path_render(Seq::<PathSegView>::empty()) == Seq::<char>::empty());
        assert(seq!['.'] =~= "."@) by {
            reveal_strlit(".");
        }
        assert(Seq::<char>::empty() + outer@ =~= outer@);
        assert(path_render(s1) == outer@);
        assert(path_render(s2) == outer@ + (seq!['.'] + inner@));
        assert(outer@ + (seq!['.'] + inner@) =~= outer@ + "."@ + inner@);
        assert(rendered@ == outer@ + "."@ + inner@);
    }
    DecodeError { path: rendered, cause, raw: raw.clone() }
}

/// The cause recorded for a top-level field that did not read back: absent
/// fields are missing, present ones have the wrong shape.
pub open spec fn field_fault_cause(t: Seq<char>, key: Seq<char>) -> DecodeCause {
    if json_has_field(t, key) {
        DecodeCause::WrongType
    } else {
        DecodeCause::MissingField
    }
}

/// An optional string field faults only when it is present, not `null`, and
/// still not a string.
pub open spec fn opt_str_fault(t: Seq<char>, key: Seq<char>) -> bool {
    json_has_field(t, key) && !json_null_field(t, key) && json_str_field(t, key) is None
}

/// The path and cause recorded when the nested `part.text` chain does not
/// read back.
pub open spec fn part_fault_info(e: DecodeError, t: Seq<char>) -> bool {
    if !json_has_field(t, "part"@) {
        e.path@ == "part"@ && e.cause == DecodeCause::MissingField
    } else if !json_nested_has_field(t, "part"@, "text"@) {
        e.path@ == "part"@ + "."@ + "text"@ && e.cause == DecodeCause::MissingField
    } else {
        e.path@ == "part"@ + "."@ + "text"@ && e.cause == DecodeCause::WrongType
    }
}

/// Reads a required string field.
fn req_string(text: &String, key: &str) -> (r: Result<String, DecodeError>)
    ensures
        (r is Ok) == (json_str_field(text@, key@) is Some),
        r matches Ok(s) ==> json_str_field(text@, key@) == Some(s@),
        r matches Err(e) ==> e.raw@ == text@ && e.path@ == key@ && e.cause == field_fault_cause(
            text@,
            key@,
        ),
{
    match get_str_field(text.as_str(), key) {
        Some(s) => Ok(s),
        None => {
            if get_field_exists(text.as_str(), key) {
                Err(field_error(key, DecodeCause::WrongType, text))
            } else {
                Err(field_error(key, DecodeCause::MissingField, text))
            }
        },
    }
}

/// Reads a required unsigned number field.
fn req_u64(text: &String, key: &str) -> (r: Result<u64, DecodeError>)
    ensures
        (r is Ok) == (json_u64_field(text@, key@) is Some),
        r matches Ok(n) ==> json_u64_field(text@, key@) == Some(n),
        r matches Err(e) ==> e.raw@ == text@ && e.path@ == key@ && e.cause == field_fault_cause(
            text@,
            key@,
        ),
{
    match get_u64_field(text.as_str(), key) {
        Some(n) => Ok(n),
        None => {
            if get_field_exists(text.as_str(), key) {
                Err(field_error(key, DecodeCause::WrongType, text))
            } else {
                Err(field_error(key, DecodeCause::MissingField, text))
            }
        },
    }
}

/// Reads an optional string field: absent or `null` is `None`.
fn opt_string(text: &String, key: &str) -> (r: Result<Option<String>, DecodeError>)
    ensures
        (r is Err) == opt_str_fault(text@, key@),
        r matches Ok(o) ==> (o matches Some(s) ==> json_str_field(text@, key@) == Some(s@)),
        r matches Ok(o) ==> ((o is Some) <==> json_str_field(text@, key@) is Some),
        r matches Err(e) ==> e.raw@ == text@ && e.path@ == key@ && e.cause
            == DecodeCause::WrongType,
{
    if !get_field_exists(text.as_str(), key) {
        Ok(None)
    } else if get_null_field(text.as_str(), key) {
        Ok(None)
    } else {
        match get_str_field(text.as_str(), key) {
            Some(s) => Ok(Some(s)),
            None => Err(field_error(key, DecodeCause::WrongType, text)),
        }
    }
}

/// Reads a required field of arbitrary JSON shape, kept as a raw document.
fn req_value(text: &String, key: &str) -> (r: Result<Value, DecodeError>)
    ensures
        (r is Ok) == json_has_field(text@, key@),
        r matches Err(e) ==> e.raw@ == text@ && e.path@ == key@ && e.cause
            == DecodeCause::MissingField,
{
    match get_value_field(text.as_str(), key) {
        Some(v) => Ok(v),
        None => Err(field_error(key, DecodeCause::MissingField, text)),
    }
}

/// Reads the `text` field of a nested summary `part` object.
fn req_part_text(text: &String) -> (r: Result<String, DecodeError>)
    ensures
        (r is Ok) == (json_nested_str_field(text@, "part"@, "text"@) is Some),
        r matches Ok(s) ==> json_nested_str_field(text@, "part"@, "text"@) == Some(s@),
        r matches Err(e) ==> e.raw@ == text@ && part_fault_info(e, text@),
{
    match get_nested_str_field(text.as_str(), "part", "text") {
        Some(s) => Ok(s),
        None => {
            if !get_field_exists(text.as_str(), "part") {
                Err(field_error("part", DecodeCause::MissingField, text))
            } else if get_nested_field_exists(text.as_str(), "part", "text") {
                Err(nested_field_error("part", "text", DecodeCause::WrongType, text))
            } else {
                Err(nested_field_error("part", "text", DecodeCause::MissingField, text))
            }
        },
    }
}

/// Decodes the fields of a `ResponseAudioDeltaEvent` payload; on failure the error
/// carries the first field, in declaration order, that did not read back.
fn decode_response_audio_delta(text: &String) -> (r: Result<ResponseAudioDeltaEvent, DecodeError>)
    ensures
        (r is Ok) == (json_str_field(text@, "delta"@) is Some && json_u64_field(text@, "sequence_number"@) is Some),
        r matches Ok(ev) ==> json_str_field(text@, "delta"@) == Some(ev.delta@),
        r matches Ok(ev) ==> json_u64_field(text@, "sequence_number"@) == Some(ev.sequence_number),
        r matches Err(e) ==> e.raw@ == text@ && (if json_str_field(text@, "delta"@) is None {
                e.path@ == "delta"@ && e.cause == field_fault_cause(text@, "delta"@)
            } else if json_u64_field(text@, "sequence_number"@) is None {
                e.path@ == "sequence_number"@ && e.cause == field_fault_cause(text@, "sequence_number"@)
            } else {
                false
            }),
{
    Ok(ResponseAudioDeltaEvent {
        delta: req_string(text, "delta")?,
        sequence_number: req_u64(text, "sequence_number")?,
    })
}

/// Decodes the fields of a `ResponseAudioDoneEvent` payload; on failure the error
/// carries the first field, in declaration order, that did not read back.
fn decode_response_audio_done(text: &String) -> (r: Result<ResponseAudioDoneEvent, DecodeError>)
    ensures
        (r is Ok) == (json_u64_field(text@, "sequence_number"@) is Some),
        r matches Ok(ev) ==> json_u64_field(text@, "sequence_number"@) == Some(ev.sequence_number),
        r matches Err(e) ==> e.raw@ == text@ && (if json_u64_field(text@, "sequence_number"@) is None {
                e.path@ == "sequence_number"@ && e.cause == field_fault_cause(text@, "sequence_number"@)
            } else {
                false
            }),
{
    Ok(ResponseAudioDoneEvent {
        sequence_number: req_u64(text, "sequence_number")?,
    })
}

/// Decodes the fields of a `ResponseAudioTranscriptDeltaEvent` payload; on failure the error
/// carries the first field, in declaration order, that did not read back.
fn decode_response_audio_transcript_delta(text: &String) -> (r: Result<ResponseAudioTranscriptDeltaEvent, DecodeError>)
    ensures
        (r is Ok) == (json_str_field(text@, "delta"@) is Some && json_u64_field(text@, "sequence_number"@) is Some),
        r matches Ok(ev) ==> json_str_field(text@, "delta"@) == Some(ev.delta@),
        r matches Ok(ev) ==> json_u64_field(text@, "sequence_number"@) == Some(ev.sequence_number),
        r matches Err(e) ==> e.raw@ == text@ && (if json_str_field(text@, "delta"@) is None {
                e.path@ == "delta"@ && e.cause == field_fault_cause(text@, "delta"@)
            } else if json_u64_field(text@, "sequence_number"@) is None {
                e.path@ == "sequence_number"@ && e.cause == field_fault_cause(text@, "sequence_number"@)
            } else {
                false
            }),
{
    Ok(ResponseAudioTranscriptDeltaEvent {
        delta: req_string(text, "delta")?,
        sequence_number: req_u64(text, "sequence_number")?,
    })
}

/// Decodes the fields of a `ResponseAudioTranscriptDoneEvent` payload; on failure the error
/// carries the first field, in declaration order, that did not read back.
fn decode_response_audio_transcript_done(text: &String) -> (r: Result<ResponseAudioTranscriptDoneEvent, DecodeError>)
    ensures
        (r is Ok) == (json_u64_field(text@, "sequence_number"@) is Some),
        r matches Ok(ev) ==> json_u64_field(text@, "sequence_number"@) == Some(ev.sequence_number),
        r matches Err(e) ==> e.raw@ == text@ && (if json_u64_field(text@, "sequence_number"@) is None {
                e.path@ == "sequence_number"@ && e.cause == field_fault_cause(text@, "sequence_number"@)
            } else {
                false
            }),
{
    Ok(ResponseAudioTranscriptDoneEvent {
        sequence_number: req_u64(text, "sequence_number")?,
    })
}

/// Decodes the fields of a `ResponseCodeInterpreterCallCodeDeltaEvent` payload; on failure the error
/// carries the first field, in declaration order, that did not read back.
fn decode_response_code_interpreter_call_code_delta(text: &String) -> (r: Result<ResponseCodeInterpreterCallCodeDeltaEvent, DecodeError>)
    ensures
        (r is Ok) == (json_str_field(text@, "delta"@) is Some && json_str_field(text@, "item_id"@) is Some && json_u64_field(text@, "output_index"@) is Some && json_u64_field(text@, "sequence_number"@) is Some),
        r matches Ok(ev) ==> json_str_field(text@, "delta"@) == Some(ev.delta@),
        r matches Ok(ev) ==> json_str_field(text@, "item_id"@) == Some(ev.item_id@),
        r matches Ok(ev) ==> json_u64_field(text@, "output_index"@) == Some(ev.output_index),
        r matches Ok(ev) ==> json_u64_field(text@, "sequence_number"@) == Some(ev.sequence_number),
        r matches Err(e) ==> e.raw@ == text@ && (if json_str_field(text@, "delta"@) is None {
                e.path@ == "delta"@ && e.cause == field_fault_cause(text@, "delta"@)
            } else if json_str_field(text@, "item_id"@) is None {
                e.path@ == "item_id"@ && e.cause == field_fault_cause(text@, "item_id"@)
            } else if json_u64_field(text@, "output_index"@) is None {
                e.path@ == "output_index"@ && e.cause == field_fault_cause(text@, "output_index"@)
            } else if json_u64_field(text@, "sequence_number"@) is None {
                e.path@ == "sequence_number"@ && e.cause == field_fault_cause(text@, "sequence_number"@)
            } else {
                false
            }),
{
    Ok(ResponseCodeInterpreterCallCodeDeltaEvent {
        delta: req_string(text, "delta")?,
        item_id: req_string(text, "item_id")?,
        output_index: req_u64(text, "output_index")?,
        sequence_number: req_u64(text, "sequence_number")?,
    })
}

/// Decodes the fields of a `ResponseCodeInterpreterCallCodeDoneEvent` payload; on failure the error
/// carries the first field, in declaration order, that did not read back.
fn decode_response_code_interpreter_call_code_done(text: &String) -> (r: Result<ResponseCodeInterpreterCallCodeDoneEvent, DecodeError>)
    ensures
        (r is Ok) == (json_str_field(text@, "code"@) is Some && json_str_field(text@, "item_id"@) is Some && json_u64_field(text@, "output_index"@) is Some && json_u64_field(text@, "sequence_number"@) is Some),
        r matches Ok(ev) ==> json_str_field(text@, "code"@) == Some(ev.code@),
        r matches Ok(ev) ==> json_str_field(text@, "item_id"@) == Some(ev.item_id@),
        r matches Ok(ev) ==> json_u64_field(text@, "output_index"@) == Some(ev.output_index),
        r matches Ok(ev) ==> json_u64_field(text@, "sequence_number"@) == Some(ev.sequence_number),
        r matches Err(e) ==> e.raw@ == text@ && (if json_str_field(text@, "code"@) is None {
                e.path@ == "code"@ && e.cause == field_fault_cause(text@, "code"@)
            } else if json_str_field(text@, "item_id"@) is None {
                e.path@ == "item_id"@ && e.cause == field_fault_cause(text@, "item_id"@)
            } else if json_u64_field(text@, "output_index"@) is None {
                e.path@ == "output_index"@ && e.cause == field_fault_cause(text@, "output_index"@)
            } else if json_u64_field(text@, "sequence_number"@) is None {
                e.path@ == "sequence_number"@ && e.cause == field_fault_cause(text@, "sequence_number"@)
            } else {
                false
            }),
{
    Ok(ResponseCodeInterpreterCallCodeDoneEvent {
        code: req_string(text, "code")?,
        item_id: req_string(text, "item_id")?,
        output_index: req_u64(text, "output_index")?,
        sequence_number: req_u64(text, "sequence_number")?,
    })
}

/// Decodes the fields of a `ResponseCodeInterpreterCallCompletedEvent` payload; on failure the error
/// carries the first field, in declaration order, that did not read back.
fn decode_response_code_interpreter_call_completed(text: &String) -> (r: Result<ResponseCodeInterpreterCallCompletedEvent, DecodeError>)
    ensures
        (r is Ok) == (json_str_field(text@, "item_id"@) is Some && json_u64_field(text@, "output_index"@) is Some && json_u64_field(text@, "sequence_number"@) is Some),
        r matches Ok(ev) ==> json_str_field(text@, "item_id"@) == Some(ev.item_id@),
        r matches Ok(ev) ==> json_u64_field(text@, "output_index"@) == Some(ev.output_index),
        r matches Ok(ev) ==> json_u64_field(text@, "sequence_number"@) == Some(ev.sequence_number),
        r matches Err(e) ==> e.raw@ == text@ && (if json_str_field(text@, "item_id"@) is None {
                e.path@ == "item_id"@ && e.cause == field_fault_cause(text@, "item_id"@)
            } else if json_u64_field(text@, "output_index"@) is None {
                e.path@ == "output_index"@ && e.cause == field_fault_cause(text@, "output_index"@)
            } else if json_u64_field(text@, "sequence_number"@) is None {
                e.path@ == "sequence_number"@ && e.cause == field_fault_cause(text@, "sequence_number"@)
            } else {
                false
            }),
{
    Ok(ResponseCodeInterpreterCallCompletedEvent {
        item_id: req_string(text, "item_id")?,
        output_index: req_u64(text, "output_index")?,
        sequence_number: req_u64(text, "sequence_number")?,
    })
}

/// Decodes the fields of a `ResponseCodeInterpreterCallInProgressEvent` payload; on failure the error
/// carries the first field, in declaration order, that did not read back.
fn decode_response_code_interpreter_call_in_progress(text: &String) -> (r: Result<ResponseCodeInterpreterCallInProgressEvent, DecodeError>)
    ensures
        (r is Ok) == (json_str_field(text@, "item_id"@) is Some && json_u64_field(text@, "output_index"@) is Some && json_u64_field(text@, "sequence_number"@) is Some),
        r matches Ok(ev) ==> json_str_field(text@, "item_id"@) == Some(ev.item_id@),
        r matches Ok(ev) ==> json_u64_field(text@, "output_index"@) == Some(ev.output_index),
        r matches Ok(ev) ==> json_u64_field(text@, "sequence_number"@) == Some(ev.sequence_number),
        r matches Err(e) ==> e.raw@ == text@ && (if json_str_field(text@, "item_id"@) is None {
                e.path@ == "item_id"@ && e.cause == field_fault_cause(text@, "item_id"@)
            } else if json_u64_field(text@, "output_index"@) is None {
                e.path@ == "output_index"@ && e.cause == field_fault_cause(text@, "output_index"@)
            } else if json_u64_field(text@, "sequence_number"@) is None {
                e.path@ == "sequence_number"@ && e.cause == field_fault_cause(text@, "sequence_number"@)
            } else {
                false
            }),
{
    Ok(ResponseCodeInterpreterCallInProgressEvent {
        item_id: req_string(text, "item_id")?,
        output_index: req_u64(text, "output_index")?,
        sequence_number: req_u64(text, "sequence_number")?,
    })
}

/// Decodes the fields of a `ResponseCodeInterpreterCallInterpretingEvent` payload; on failure the error
/// carries the first field, in declaration order, that did not read back.
fn decode_response_code_interpreter_call_interpreting(text: &String) -> (r: Result<ResponseCodeInterpreterCallInterpretingEvent, DecodeError>)
    ensures
        (r is Ok) == (json_str_field(text@, "item_id"@) is Some && json_u64_field(text@, "output_index"@) is Some && json_u64_field(text@, "sequence_number"@) is Some),
        r matches Ok(ev) ==> json_str_field(text@, "item_id"@) == Some(ev.item_id@),
        r matches Ok(ev) ==> json_u64_field(text@, "output_index"@) == Some(ev.output_index),
        r matches Ok(ev) ==> json_u64_field(text@, "sequence_number"@) == Some(ev.sequence_number),
        r matches Err(e) ==> e.raw@ == text@ && (if json_str_field(text@, "item_id"@) is None {
                e.path@ == "item_id"@ && e.cause == field_fault_cause(text@, "item_id"@)
            } else if json_u64_field(text@, "output_index"@) is None {
                e.path@ == "output_index"@ && e.cause == field_fault_cause(text@, "output_index"@)
            } else if json_u64_field(text@, "sequence_number"@) is None {
                e.path@ == "sequence_number"@ && e.cause == field_fault_cause(text@, "sequence_number"@)
            } else {
                false
            }),
{
    Ok(ResponseCodeInterpreterCallInterpretingEvent {
        item_id: req_string(text, "item_id")?,
        output_index: req_u64(text, "output_index")?,
        sequence_number: req_u64(text, "sequence_number")?,
    })
}

/// Decodes the fields of a `ResponseCompletedEvent` payload; on failure the error
/// carries the first field, in declaration order, that did not read back.
fn decode_response_completed(text: &String) -> (r: Result<ResponseCompletedEvent, DecodeError>)
    ensures
        (r is Ok) == (json_has_field(text@, "response"@) && json_u64_field(text@, "sequence_number"@) is Some),
        r matches Ok(ev) ==> json_has_field(text@, "response"@),
        r matches Ok(ev) ==> json_u64_field(text@, "sequence_number"@) == Some(ev.sequence_number),
        r matches Err(e) ==> e.raw@ == text@ && (if !json_has_field(text@, "response"@) {
                e.path@ == "response"@ && e.cause == DecodeCause::MissingField
            } else if json_u64_field(text@, "sequence_number"@) is None {
                e.path@ == "sequence_number"@ && e.cause == field_fault_cause(text@, "sequence_number"@)
            } else {
                false
            }),
{
    Ok(ResponseCompletedEvent {
        response: req_value(text, "response")?,
        sequence_number: req_u64(text, "sequence_number")?,
    })
}

/// Decodes the fields of a `ResponseContentPartAddedEvent` payload; on failure the error
/// carries the first field, in declaration order, that did not read back.
fn decode_response_content_part_added(text: &String) -> (r: Result<ResponseContentPartAddedEvent, DecodeError>)
    ensures
        (r is Ok) == (json_u64_field(text@, "content_index"@) is Some && json_str_field(text@, "item_id"@) is Some && json_u64_field(text@, "output_index"@) is Some && json_has_field(text@, "part"@) && json_u64_field(text@, "sequence_number"@) is Some),
        r matches Ok(ev) ==> json_u64_field(text@, "content_index"@) == Some(ev.content_index),
        r matches Ok(ev) ==> json_str_field(text@, "item_id"@) == Some(ev.item_id@),
        r matches Ok(ev) ==> json_u64_field(text@, "output_index"@) == Some(ev.output_index),
        r matches Ok(ev) ==> json_has_field(text@, "part"@),
        r matches Ok(ev) ==> json_u64_field(text@, "sequence_number"@) == Some(ev.sequence_number),
        r matches Err(e) ==> e.raw@ == text@ && (if json_u64_field(text@, "content_index"@) is None {
                e.path@ == "content_index"@ && e.cause == field_fault_cause(text@, "content_index"@)
            } else if json_str_field(text@, "item_id"@) is None {
                e.path@ == "item_id"@ && e.cause == field_fault_cause(text@, "item_id"@)
            } else if json_u64_field(text@, "output_index"@) is None {
                e.path@ == "output_index"@ && e.cause == field_fault_cause(text@, "output_index"@)
            } else if !json_has_field(text@, "part"@) {
                e.path@ == "part"@ && e.cause == DecodeCause::MissingField
            } else if json_u64_field(text@, "sequence_number"@) is None {
                e.path@ == "sequence_number"@ && e.cause == field_fault_cause(text@, "sequence_number"@)
            } else {
                false
            }),
{
    Ok(ResponseContentPartAddedEvent {
        content_index: req_u64(text, "content_index")?,
        item_id: req_string(text, "item_id")?,
        output_index: req_u64(text, "output_index")?,
        part: req_value(text, "part")?,
        sequence_number: req_u64(text, "sequence_number")?,
    })
}

/// Decodes the fields of a `ResponseContentPartDoneEvent` payload; on failure the error
/// carries the first field, in declaration order, that did not read back.
fn decode_response_content_part_done(text: &String) -> (r: Result<ResponseContentPartDoneEvent, DecodeError>)
    ensures
        (r is Ok) == (json_u64_field(text@, "content_index"@) is Some && json_str_field(text@, "item_id"@) is Some && json_u64_field(text@, "output_index"@) is Some && json_has_field(text@, "part"@) && json_u64_field(text@, "sequence_number"@) is Some),
        r matches Ok(ev) ==> json_u64_field(text@, "content_index"@) == Some(ev.content_index),
        r matches Ok(ev) ==> json_str_field(text@, "item_id"@) == Some(ev.item_id@),
        r matches Ok(ev) ==> json_u64_field(text@, "output_index"@) == Some(ev.output_index),
        r matches Ok(ev) ==> json_has_field(text@, "part"@),
        r matches Ok(ev) ==> json_u64_field(text@, "sequence_number"@) == Some(ev.sequence_number),
        r matches Err(e) ==> e.raw@ == text@ && (if json_u64_field(text@, "content_index"@) is None {
                e.path@ == "content_index"@ && e.cause == field_fault_cause(text@, "content_index"@)
            } else if json_str_field(text@, "item_id"@) is None {
                e.path@ == "item_id"@ && e.cause == field_fault_cause(text@, "item_id"@)
            } else if json_u64_field(text@, "output_index"@) is None {
                e.path@ == "output_index"@ && e.cause == field_fault_cause(text@, "output_index"@)
            } else if !json_has_field(text@, "part"@) {
                e.path@ == "part"@ && e.cause == DecodeCause::MissingField
            } else if json_u64_field(text@, "sequence_number"@) is None {
                e.path@ == "sequence_number"@ && e.cause == field_fault_cause(text@, "sequence_number"@)
            } else {
                false
            }),
{
    Ok(ResponseContentPartDoneEvent {
        content_index: req_u64(text, "content_index")?,
        item_id: req_string(text, "item_id")?,
        output_index: req_u64(text, "output_index")?,
        part: req_value(text, "part")?,
        sequence_number: req_u64(text, "sequence_number")?,
    })
}

/// Decodes the fields of a `ResponseCreatedEvent` payload; on failure the error
/// carries the first field, in declaration order, that did not read back.
fn decode_response_created(text: &String) -> (r: Result<ResponseCreatedEvent, DecodeError>)
    ensures
        (r is Ok) == (!opt_str_fault(text@, "nonce"@) && json_has_field(text@, "response"@) && json_u64_field(text@, "sequence_number"@) is Some),
        r matches Ok(ev) ==> (ev.nonce matches Some(s) ==> json_str_field(text@, "nonce"@) == Some(s@)),
        r matches Ok(ev) ==> ((ev.nonce is Some) <==> json_str_field(text@, "nonce"@) is Some),
        r matches Ok(ev) ==> json_has_field(text@, "response"@),
        r matches Ok(ev) ==> json_u64_field(text@, "sequence_number"@) == Some(ev.sequence_number),
        r matches Err(e) ==> e.raw@ == text@ && (if opt_str_fault(text@, "nonce"@) {
                e.path@ == "nonce"@ && e.cause == DecodeCause::WrongType
            } else if !json_has_field(text@, "response"@) {
                e.path@ == "response"@ && e.cause == DecodeCause::MissingField
            } else if json_u64_field(text@, "sequence_number"@) is None {
                e.path@ == "sequence_number"@ && e.cause == field_fault_cause(text@, "sequence_number"@)
            } else {
                false
            }),
{
    Ok(ResponseCreatedEvent {
        nonce: opt_string(text, "nonce")?,
        response: req_value(text, "response")?,
        sequence_number: req_u64(text, "sequence_number")?,
    })
}

/// Decodes the fields of a `ResponseErrorEvent` payload; on failure the error
/// carries the first field, in declaration order, that did not read back.
fn decode_response_error(text: &String) -> (r: Result<ResponseErrorEvent, DecodeError>)
    ensures
        (r is Ok) == (!opt_str_fault(text@, "code"@) && json_str_field(text@, "message"@) is Some && !opt_str_fault(text@, "param"@) && json_u64_field(text@, "sequence_number"@) is Some),
        r matches Ok(ev) ==> (ev.code matches Some(s) ==> json_str_field(text@, "code"@) == Some(s@)),
        r matches Ok(ev) ==> ((ev.code is Some) <==> json_str_field(text@, "code"@) is Some),
        r matches Ok(ev) ==> json_str_field(text@, "message"@) == Some(ev.message@),
        r matches Ok(ev) ==> (ev.param matches Some(s) ==> json_str_field(text@, "param"@) == Some(s@)),
        r matches Ok(ev) ==> ((ev.param is Some) <==> json_str_field(text@, "param"@) is Some),
        r matches Ok(ev) ==> json_u64_field(text@, "sequence_number"@) == Some(ev.sequence_number),
        r matches Err(e) ==> e.raw@ == text@ && (if opt_str_fault(text@, "code"@) {
                e.path@ == "code"@ && e.cause == DecodeCause::WrongType
            } else if json_str_field(text@, "message"@) is None {
                e.path@ == "message"@ && e.cause == field_fault_cause(text@, "message"@)
            } else if opt_str_fault(text@, "param"@) {
                e.path@ == "param"@ && e.cause == DecodeCause::WrongType
            } else if json_u64_field(text@, "sequence_number"@) is None {
                e.path@ == "sequence_number"@ && e.cause == field_fault_cause(text@, "sequence_number"@)
            } else {
                false
            }),
{
    Ok(ResponseErrorEvent {
        code: opt_string(text, "code")?,
        message: req_string(text, "message")?,
        param: opt_string(text, "param")?,
        sequence_number: req_u64(text, "sequence_number")?,
    })
}

/// Decodes the fields of a `ResponseFileSearchCallCompletedEvent` payload; on failure the error
/// carries the first field, in declaration order, that did not read back.
fn decode_response_file_search_call_completed(text: &String) -> (r: Result<ResponseFileSearchCallCompletedEvent, DecodeError>)
    ensures
        (r is Ok) == (json_str_field(text@, "item_id"@) is Some && json_u64_field(text@, "output_index"@) is Some && json_u64_field(text@, "sequence_number"@) is Some),
        r matches Ok(ev) ==> json_str_field(text@, "item_id"@) == Some(ev.item_id@),
        r matches Ok(ev) ==> json_u64_field(text@, "output_index"@) == Some(ev.output_index),
        r matches Ok(ev) ==> json_u64_field(text@, "sequence_number"@) == Some(ev.sequence_number),
        r matches Err(e) ==> e.raw@ == text@ && (if json_str_field(text@, "item_id"@) is None {
                e.path@ == "item_id"@ && e.cause == field_fault_cause(text@, "item_id"@)
            } else if json_u64_field(text@, "output_index"@) is None {
                e.path@ == "output_index"@ && e.cause == field_fault_cause(text@, "output_index"@)
            } else if json_u64_field(text@, "sequence_number"@) is None {
                e.path@ == "sequence_number"@ && e.cause == field_fault_cause(text@, "sequence_number"@)
            } else {
                false
            }),
{
    Ok(ResponseFileSearchCallCompletedEvent {
        item_id: req_string(text, "item_id")?,
        output_index: req_u64(text, "output_index")?,
        sequence_number: req_u64(text, "sequence_number")?,
    })
}

/// Decodes the fields of a `ResponseFileSearchCallInProgressEvent` payload; on failure the error
/// carries the first field, in declaration order, that did not read back.
fn decode_response_file_search_call_in_progress(text: &String) -> (r: Result<ResponseFileSearchCallInProgressEvent, DecodeError>)
    ensures
        (r is Ok) == (json_str_field(text@, "item_id"@) is Some && json_u64_field(text@, "output_index"@) is Some && json_u64_field(text@, "sequence_number"@) is Some),
        r matches Ok(ev) ==> json_str_field(text@, "item_id"@) == Some(ev.item_id@),
        r matches Ok(ev) ==> json_u64_field(text@, "output_index"@) == Some(ev.output_index),
        r matches Ok(ev) ==> json_u64_field(text@, "sequence_number"@) == Some(ev.sequence_number),
        r matches Err(e) ==> e.raw@ == text@ && (if json_str_field(text@, "item_id"@) is None {
                e.path@ == "item_id"@ && e.cause == field_fault_cause(text@, "item_id"@)
            } else if json_u64_field(text@, "output_index"@) is None {
                e.path@ == "output_index"@ && e.cause == field_fault_cause(text@, "output_index"@)
            } else if json_u64_field(text@, "sequence_number"@) is None {
                e.path@ == "sequence_number"@ && e.cause == field_fault_cause(text@, "sequence_number"@)
            } else {
                false
            }),
{
    Ok(ResponseFileSearchCallInProgressEvent {
        item_id: req_string(text, "item_id")?,
        output_index: req_u64(text, "output_index")?,
        sequence_number: req_u64(text, "sequence_number")?,
    })
}

/// Decodes the fields of a `ResponseFileSearchCallSearchingEvent` payload; on failure the error
/// carries the first field, in declaration order, that did not read back.
fn decode_response_file_search_call_searching(text: &String) -> (r: Result<ResponseFileSearchCallSearchingEvent, DecodeError>)
    ensures
        (r is Ok) == (json_str_field(text@, "item_id"@) is Some && json_u64_field(text@, "output_index"@) is Some && json_u64_field(text@, "sequence_number"@) is Some),
        r matches Ok(ev) ==> json_str_field(text@, "item_id"@) == Some(ev.item_id@),
        r matches Ok(ev) ==> json_u64_field(text@, "output_index"@) == Some(ev.output_index),
        r matches Ok(ev) ==> json_u64_field(text@, "sequence_number"@) == Some(ev.sequence_number),
        r matches Err(e) ==> e.raw@ == text@ && (if json_str_field(text@, "item_id"@) is None {
                e.path@ == "item_id"@ && e.cause == field_fault_cause(text@, "item_id"@)
            } else if json_u64_field(text@, "output_index"@) is None {
                e.path@ == "output_index"@ && e.cause == field_fault_cause(text@, "output_index"@)
            } else if json_u64_field(text@, "sequence_number"@) is None {
                e.path@ == "sequence_number"@ && e.cause == field_fault_cause(text@, "sequence_number"@)
            } else {
                false
            }),
{
    Ok(ResponseFileSearchCallSearchingEvent {
        item_id: req_string(text, "item_id")?,
        output_index: req_u64(text, "output_index")?,
        sequence_number: req_u64(text, "sequence_number")?,
    })
}

/// Decodes the fields of a `ResponseFunctionCallArgumentsDeltaEvent` payload; on failure the error
/// carries the first field, in declaration order, that did not read back.
fn decode_response_function_call_arguments_delta(text: &String) -> (r: Result<ResponseFunctionCallArgumentsDeltaEvent, DecodeError>)
    ensures
        (r is Ok) == (json_str_field(text@, "delta"@) is Some && json_str_field(text@, "item_id"@) is Some && json_u64_field(text@, "output_index"@) is Some && json_u64_field(text@, "sequence_number"@) is Some),
        r matches Ok(ev) ==> json_str_field(text@, "delta"@) == Some(ev.delta@),
        r matches Ok(ev) ==> json_str_field(text@, "item_id"@) == Some(ev.item_id@),
        r matches Ok(ev) ==> json_u64_field(text@, "output_index"@) == Some(ev.output_index),
        r matches Ok(ev) ==> json_u64_field(text@, "sequence_number"@) == Some(ev.sequence_number),
        r matches Err(e) ==> e.raw@ == text@ && (if json_str_field(text@, "delta"@) is None {
                e.path@ == "delta"@ && e.cause == field_fault_cause(text@, "delta"@)
            } else if json_str_field(text@, "item_id"@) is None {
                e.path@ == "item_id"@ && e.cause == field_fault_cause(text@, "item_id"@)
            } else if json_u64_field(text@, "output_index"@) is None {
                e.path@ == "output_index"@ && e.cause == field_fault_cause(text@, "output_index"@)
            } else if json_u64_field(text@, "sequence_number"@) is None {
                e.path@ == "sequence_number"@ && e.cause == field_fault_cause(text@, "sequence_number"@)
            } else {
                false
            }),
{
    Ok(ResponseFunctionCallArgumentsDeltaEvent {
        delta: req_string(text, "delta")?,
        item_id: req_string(text, "item_id")?,
        output_index: req_u64(text, "output_index")?,
        sequence_number: req_u64(text, "sequence_number")?,
    })
}

/// Decodes the fields of a `ResponseFunctionCallArgumentsDoneEvent` payload; on failure the error
/// carries the first field, in declaration order, that did not read back.
fn decode_response_function_call_arguments_done(text: &String) -> (r: Result<ResponseFunctionCallArgumentsDoneEvent, DecodeError>)
    ensures
        (r is Ok) == (json_str_field(text@, "arguments"@) is Some && json_str_field(text@, "item_id"@) is Some && json_u64_field(text@, "output_index"@) is Some && json_u64_field(text@, "sequence_number"@) is Some),
        r matches Ok(ev) ==> json_str_field(text@, "arguments"@) == Some(ev.arguments@),
        r matches Ok(ev) ==> json_str_field(text@, "item_id"@) == Some(ev.item_id@),
        r matches Ok(ev) ==> json_u64_field(text@, "output_index"@) == Some(ev.output_index),
        r matches Ok(ev) ==> json_u64_field(text@, "sequence_number"@) == Some(ev.sequence_number),
        r matches Err(e) ==> e.raw@ == text@ && (if json_str_field(text@, "arguments"@) is None {
                e.path@ == "arguments"@ && e.cause == field_fault_cause(text@, "arguments"@)
            } else if json_str_field(text@, "item_id"@) is None {
                e.path@ == "item_id"@ && e.cause == field_fault_cause(text@, "item_id"@)
            } else if json_u64_field(text@, "output_index"@) is None {
                e.path@ == "output_index"@ && e.cause == field_fault_cause(text@, "output_index"@)
            } else if json_u64_field(text@, "sequence_number"@) is None {
                e.path@ == "sequence_number"@ && e.cause == field_fault_cause(text@, "sequence_number"@)
            } else {
                false
            }),
{
    Ok(ResponseFunctionCallArgumentsDoneEvent {
        arguments: req_string(text, "arguments")?,
        item_id: req_string(text, "item_id")?,
        output_index: req_u64(text, "output_index")?,
        sequence_number: req_u64(text, "sequence_number")?,
    })
}

/// Decodes the fields of a `ResponseInProgressEvent` payload; on failure the error
/// carries the first field, in declaration order, that did not read back.
fn decode_response_in_progress(text: &String) -> (r: Result<ResponseInProgressEvent, DecodeError>)
    ensures
        (r is Ok) == (json_has_field(text@, "response"@) && json_u64_field(text@, "sequence_number"@) is Some),
        r matches Ok(ev) ==> json_has_field(text@, "response"@),
        r matches Ok(ev) ==> json_u64_field(text@, "sequence_number"@) == Some(ev.sequence_number),
        r matches Err(e) ==> e.raw@ == text@ && (if !json_has_field(text@, "response"@) {
                e.path@ == "response"@ && e.cause == DecodeCause::MissingField
            } else if json_u64_field(text@, "sequence_number"@) is None {
                e.path@ == "sequence_number"@ && e.cause == field_fault_cause(text@, "sequence_number"@)
            } else {
                false
            }),
{
    Ok(ResponseInProgressEvent {
        response: req_value(text, "response")?,
        sequence_number: req_u64(text, "sequence_number")?,
    })
}

/// Decodes the fields of a `ResponseFailedEvent` payload; on failure the error
/// carries the first field, in declaration order, that did not read back.
fn decode_response_failed(text: &String) -> (r: Result<ResponseFailedEvent, DecodeError>)
    ensures
        (r is Ok) == (json_has_field(text@, "response"@) && json_u64_field(text@, "sequence_number"@) is Some),
        r matches Ok(ev) ==> json_has_field(text@, "response"@),
        r matches Ok(ev) ==> json_u64_field(text@, "sequence_number"@) == Some(ev.sequence_number),
        r matches Err(e) ==> e.raw@ == text@ && (if !json_has_field(text@, "response"@) {
                e.path@ == "response"@ && e.cause == DecodeCause::MissingField
            } else if json_u64_field(text@, "sequence_number"@) is None {
                e.path@ == "sequence_number"@ && e.cause == field_fault_cause(text@, "sequence_number"@)
            } else {
                false
            }),
{
    Ok(ResponseFailedEvent {
        response: req_value(text, "response")?,
        sequence_number: req_u64(text, "sequence_number")?,
    })
}

/// Decodes the fields of a `ResponseIncompleteEvent` payload; on failure the error
/// carries the first field, in declaration order, that did not read back.
fn decode_response_incomplete(text: &String) -> (r: Result<ResponseIncompleteEvent, DecodeError>)
    ensures
        (r is Ok) == (json_has_field(text@, "response"@) && json_u64_field(text@, "sequence_number"@) is Some),
        r matches Ok(ev) ==> json_has_field(text@, "response"@),
        r matches Ok(ev) ==> json_u64_field(text@, "sequence_number"@) == Some(ev.sequence_number),
        r matches Err(e) ==> e.raw@ == text@ && (if !json_has_field(text@, "response"@) {
                e.path@ == "response"@ && e.cause == DecodeCause::MissingField
            } else if json_u64_field(text@, "sequence_number"@) is None {
                e.path@ == "sequence_number"@ && e.cause == field_fault_cause(text@, "sequence_number"@)
            } else {
                false
            }),
{
    Ok(ResponseIncompleteEvent {
        response: req_value(text, "response")?,
        sequence_number: req_u64(text, "sequence_number")?,
    })
}

/// Decodes the fields of a `ResponseOutputItemAddedEvent` payload; on failure the error
/// carries the first field, in declaration order, that did not read back.
fn decode_response_output_item_added(text: &String) -> (r: Result<ResponseOutputItemAddedEvent, DecodeError>)
    ensures
        (r is Ok) == (json_has_field(text@, "item"@) && json_u64_field(text@, "output_index"@) is Some && json_u64_field(text@, "sequence_number"@) is Some),
        r matches Ok(ev) ==> json_has_field(text@, "item"@),
        r matches Ok(ev) ==> json_u64_field(text@, "output_index"@) == Some(ev.output_index),
        r matches Ok(ev) ==> json_u64_field(text@, "sequence_number"@) == Some(ev.sequence_number),
        r matches Err(e) ==> e.raw@ == text@ && (if !json_has_field(text@, "item"@) {
                e.path@ == "item"@ && e.cause == DecodeCause::MissingField
            } else if json_u64_field(text@, "output_index"@) is None {
                e.path@ == "output_index"@ && e.cause == field_fault_cause(text@, "output_index"@)
            } else if json_u64_field(text@, "sequence_number"@) is None {
                e.path@ == "sequence_number"@ && e.cause == field_fault_cause(text@, "sequence_number"@)
            } else {
                false
            }),
{
    Ok(ResponseOutputItemAddedEvent {
        item: req_value(text, "item")?,
        output_index: req_u64(text, "output_index")?,
        sequence_number: req_u64(text, "sequence_number")?,
    })
}

/// Decodes the fields of a `ResponseOutputItemDoneEvent` payload; on failure the error
/// carries the first field, in declaration order, that did not read back.
fn decode_response_output_item_done(text: &String) -> (r: Result<ResponseOutputItemDoneEvent, DecodeError>)
    ensures
        (r is Ok) == (json_has_field(text@, "item"@) && json_u64_field(text@, "output_index"@) is Some && json_u64_field(text@, "sequence_number"@) is Some),
        r matches Ok(ev) ==> json_has_field(text@, "item"@),
        r matches Ok(ev) ==> json_u64_field(text@, "output_index"@) == Some(ev.output_index),
        r matches Ok(ev) ==> json_u64_field(text@, "sequence_number"@) == Some(ev.sequence_number),
        r matches Err(e) ==> e.raw@ == text@ && (if !json_has_field(text@, "item"@) {
                e.path@ == "item"@ && e.cause == DecodeCause::MissingField
            } else if json_u64_field(text@, "output_index"@) is None {
                e.path@ == "output_index"@ && e.cause == field_fault_cause(text@, "output_index"@)
            } else if json_u64_field(text@, "sequence_number"@) is None {
                e.path@ == "sequence_number"@ && e.cause == field_fault_cause(text@, "sequence_number"@)
            } else {
                false
            }),
{
    Ok(ResponseOutputItemDoneEvent {
        item: req_value(text, "item")?,
        output_index: req_u64(text, "output_index")?,
        sequence_number: req_u64(text, "sequence_number")?,
    })
}

/// Decodes the fields of a `ResponseReasoningSummaryPartAddedEvent` payload; on failure the error
/// carries the first field, in declaration order, that did not read back.
fn decode_response_reasoning_summary_part_added(text: &String) -> (r: Result<ResponseReasoningSummaryPartAddedEvent, DecodeError>)
    ensures
        (r is Ok) == (json_str_field(text@, "item_id"@) is Some && json_u64_field(text@, "output_index"@) is Some && json_nested_str_field(text@, "part"@, "text"@) is Some && json_u64_field(text@, "sequence_number"@) is Some && json_u64_field(text@, "summary_index"@) is Some),
        r matches Ok(ev) ==> json_str_field(text@, "item_id"@) == Some(ev.item_id@),
        r matches Ok(ev) ==> json_u64_field(text@, "output_index"@) == Some(ev.output_index),
        r matches Ok(ev) ==> json_nested_str_field(text@, "part"@, "text"@) == Some(ev.part.text@),
        r matches Ok(ev) ==> json_u64_field(text@, "sequence_number"@) == Some(ev.sequence_number),
        r matches Ok(ev) ==> json_u64_field(text@, "summary_index"@) == Some(ev.summary_index),
        r matches Err(e) ==> e.raw@ == text@ && (if json_str_field(text@, "item_id"@) is None {
                e.path@ == "item_id"@ && e.cause == field_fault_cause(text@, "item_id"@)
            } else if json_u64_field(text@, "output_index"@) is None {
                e.path@ == "output_index"@ && e.cause == field_fault_cause(text@, "output_index"@)
            } else if json_nested_str_field(text@, "part"@, "text"@) is None {
                part_fault_info(e, text@)
            } else if json_u64_field(text@, "sequence_number"@) is None {
                e.path@ == "sequence_number"@ && e.cause == field_fault_cause(text@, "sequence_number"@)
            } else if json_u64_field(text@, "summary_index"@) is None {
                e.path@ == "summary_index"@ && e.cause == field_fault_cause(text@, "summary_index"@)
            } else {
                false
            }),
{
    Ok(ResponseReasoningSummaryPartAddedEvent {
        item_id: req_string(text, "item_id")?,
        output_index: req_u64(text, "output_index")?,
        part: ResponseReasoningSummaryPartAddedEventPart { text: req_part_text(text)? },
        sequence_number: req_u64(text, "sequence_number")?,
        summary_index: req_u64(text, "summary_index")?,
    })
}

/// Decodes the fields of a `ResponseReasoningSummaryPartDoneEvent` payload; on failure the error
/// carries the first field, in declaration order, that did not read back.
fn decode_response_reasoning_summary_part_done(text: &String) -> (r: Result<ResponseReasoningSummaryPartDoneEvent, DecodeError>)
    ensures
        (r is Ok) == (json_str_field(text@, "item_id"@) is Some && json_u64_field(text@, "output_index"@) is Some && json_nested_str_field(text@, "part"@, "text"@) is Some && json_u64_field(text@, "sequence_number"@) is Some && json_u64_field(text@, "summary_index"@) is Some),
        r matches Ok(ev) ==> json_str_field(text@, "item_id"@) == Some(ev.item_id@),
        r matches Ok(ev) ==> json_u64_field(text@, "output_index"@) == Some(ev.output_index),
        r matches Ok(ev) ==> json_nested_str_field(text@, "part"@, "text"@) == Some(ev.part.text@),
        r matches Ok(ev) ==> json_u64_field(text@, "sequence_number"@) == Some(ev.sequence_number),
        r matches Ok(ev) ==> json_u64_field(text@, "summary_index"@) == Some(ev.summary_index),
        r matches Err(e) ==> e.raw@ == text@ && (if json_str_field(text@, "item_id"@) is None {
                e.path@ == "item_id"@ && e.cause == field_fault_cause(text@, "item_id"@)
            } else if json_u64_field(text@, "output_index"@) is None {
                e.path@ == "output_index"@ && e.cause == field_fault_cause(text@, "output_index"@)
            } else if json_nested_str_field(text@, "part"@, "text"@) is None {
                part_fault_info(e, text@)
            } else if json_u64_field(text@, "sequence_number"@) is None {
                e.path@ == "sequence_number"@ && e.cause == field_fault_cause(text@, "sequence_number"@)
            } else if json_u64_field(text@, "summary_index"@) is None {
                e.path@ == "summary_index"@ && e.cause == field_fault_cause(text@, "summary_index"@)
            } else {
                false
            }),
{
    Ok(ResponseReasoningSummaryPartDoneEvent {
        item_id: req_string(text, "item_id")?,
        output_index: req_u64(text, "output_index")?,
        part: ResponseReasoningSummaryPartDoneEventPart { text: req_part_text(text)? },
        sequence_number: req_u64(text, "sequence_number")?,
        summary_index: req_u64(text, "summary_index")?,
    })
}

/// Decodes the fields of a `ResponseReasoningSummaryTextDeltaEvent` payload; on failure the error
/// carries the first field, in declaration order, that did not read back.
fn decode_response_reasoning_summary_text_delta(text: &String) -> (r: Result<ResponseReasoningSummaryTextDeltaEvent, DecodeError>)
    ensures
        (r is Ok) == (json_str_field(text@, "delta"@) is Some && json_str_field(text@, "item_id"@) is Some && json_u64_field(text@, "output_index"@) is Some && json_u64_field(text@, "sequence_number"@) is Some && json_u64_field(text@, "summary_index"@) is Some),
        r matches Ok(ev) ==> json_str_field(text@, "delta"@) == Some(ev.delta@),
        r matches Ok(ev) ==> json_str_field(text@, "item_id"@) == Some(ev.item_id@),
        r matches Ok(ev) ==> json_u64_field(text@, "output_index"@) == Some(ev.output_index),
        r matches Ok(ev) ==> json_u64_field(text@, "sequence_number"@) == Some(ev.sequence_number),
        r matches Ok(ev) ==> json_u64_field(text@, "summary_index"@) == Some(ev.summary_index),
        r matches Err(e) ==> e.raw@ == text@ && (if json_str_field(text@, "delta"@) is None {
                e.path@ == "delta"@ && e.cause == field_fault_cause(text@, "delta"@)
            } else if json_str_field(text@, "item_id"@) is None {
                e.path@ == "item_id"@ && e.cause == field_fault_cause(text@, "item_id"@)
            } else if json_u64_field(text@, "output_index"@) is None {
                e.path@ == "output_index"@ && e.cause == field_fault_cause(text@, "output_index"@)
            } else if json_u64_field(text@, "sequence_number"@) is None {
                e.path@ == "sequence_number"@ && e.cause == field_fault_cause(text@, "sequence_number"@)
            } else if json_u64_field(text@, "summary_index"@) is None {
                e.path@ == "summary_index"@ && e.cause == field_fault_cause(text@, "summary_index"@)
            } else {
                false
            }),
{
    Ok(ResponseReasoningSummaryTextDeltaEvent {
        delta: req_string(text, "delta")?,
        item_id: req_string(text, "item_id")?,
        output_index: req_u64(text, "output_index")?,
        sequence_number: req_u64(text, "sequence_number")?,
        summary_index: req_u64(text, "summary_index")?,
    })
}

/// Decodes the fields of a `ResponseReasoningSummaryTextDoneEvent` payload; on failure the error
/// carries the first field, in declaration order, that did not read back.
fn decode_response_reasoning_summary_text_done(text: &String) -> (r: Result<ResponseReasoningSummaryTextDoneEvent, DecodeError>)
    ensures
        (r is Ok) == (json_str_field(text@, "item_id"@) is Some && json_u64_field(text@, "output_index"@) is Some && json_u64_field(text@, "sequence_number"@) is Some && json_u64_field(text@, "summary_index"@) is Some && json_str_field(text@, "text"@) is Some),
        r matches Ok(ev) ==> json_str_field(text@, "item_id"@) == Some(ev.item_id@),
        r matches Ok(ev) ==> json_u64_field(text@, "output_index"@) == Some(ev.output_index),
        r matches Ok(ev) ==> json_u64_field(text@, "sequence_number"@) == Some(ev.sequence_number),
        r matches Ok(ev) ==> json_u64_field(text@, "summary_index"@) == Some(ev.summary_index),
        r matches Ok(ev) ==> json_str_field(text@, "text"@) == Some(ev.text@),
        r matches Err(e) ==> e.raw@ == text@ && (if json_str_field(text@, "item_id"@) is None {
                e.path@ == "item_id"@ && e.cause == field_fault_cause(text@, "item_id"@)
            } else if json_u64_field(text@, "output_index"@) is None {
                e.path@ == "output_index"@ && e.cause == field_fault_cause(text@, "output_index"@)
            } else if json_u64_field(text@, "sequence_number"@) is None {
                e.path@ == "sequence_number"@ && e.cause == field_fault_cause(text@, "sequence_number"@)
            } else if json_u64_field(text@, "summary_index"@) is None {
                e.path@ == "summary_index"@ && e.cause == field_fault_cause(text@, "summary_index"@)
            } else if json_str_field(text@, "text"@) is None {
                e.path@ == "text"@ && e.cause == field_fault_cause(text@, "text"@)
            } else {
                false
            }),
{
    Ok(ResponseReasoningSummaryTextDoneEvent {
        item_id: req_string(text, "item_id")?,
        output_index: req_u64(text, "output_index")?,
        sequence_number: req_u64(text, "sequence_number")?,
        summary_index: req_u64(text, "summary_index")?,
        text: req_string(text, "text")?,
    })
}

/// Decodes the fields of a `ResponseRefusalDeltaEvent` payload; on failure the error
/// carries the first field, in declaration order, that did not read back.
fn decode_response_refusal_delta(text: &String) -> (r: Result<ResponseRefusalDeltaEvent, DecodeError>)
    ensures
        (r is Ok) == (json_u64_field(text@, "content_index"@) is Some && json_str_field(text@, "delta"@) is Some && json_str_field(text@, "item_id"@) is Some && json_u64_field(text@, "output_index"@) is Some && json_u64_field(text@, "sequence_number"@) is Some),
        r matches Ok(ev) ==> json_u64_field(text@, "content_index"@) == Some(ev.content_index),
        r matches Ok(ev) ==> json_str_field(text@, "delta"@) == Some(ev.delta@),
        r matches Ok(ev) ==> json_str_field(text@, "item_id"@) == Some(ev.item_id@),
        r matches Ok(ev) ==> json_u64_field(text@, "output_index"@) == Some(ev.output_index),
        r matches Ok(ev) ==> json_u64_field(text@, "sequence_number"@) == Some(ev.sequence_number),
        r matches Err(e) ==> e.raw@ == text@ && (if json_u64_field(text@, "content_index"@) is None {
                e.path@ == "content_index"@ && e.cause == field_fault_cause(text@, "content_index"@)
            } else if json_str_field(text@, "delta"@) is None {
                e.path@ == "delta"@ && e.cause == field_fault_cause(text@, "delta"@)
            } else if json_str_field(text@, "item_id"@) is None {
                e.path@ == "item_id"@ && e.cause == field_fault_cause(text@, "item_id"@)
            } else if json_u64_field(text@, "output_index"@) is None {
                e.path@ == "output_index"@ && e.cause == field_fault_cause(text@, "output_index"@)
            } else if json_u64_field(text@, "sequence_number"@) is None {
                e.path@ == "sequence_number"@ && e.cause == field_fault_cause(text@, "sequence_number"@)
            } else {
                false
            }),
{
    Ok(ResponseRefusalDeltaEvent {
        content_index: req_u64(text, "content_index")?,
        delta: req_string(text, "delta")?,
        item_id: req_string(text, "item_id")?,
        output_index: req_u64(text, "output_index")?,
        sequence_number: req_u64(text, "sequence_number")?,
    })
}

/// Decodes the fields of a `ResponseRefusalDoneEvent` payload; on failure the error
/// carries the first field, in declaration order, that did not read back.
fn decode_response_refusal_done(text: &String) -> (r: Result<ResponseRefusalDoneEvent, DecodeError>)
    ensures
        (r is Ok) == (json_u64_field(text@, "content_index"@) is Some && json_str_field(text@, "item_id"@) is Some && json_u64_field(text@, "output_index"@) is Some && json_str_field(text@, "refusal"@) is Some && json_u64_field(text@, "sequence_number"@) is Some),
        r matches Ok(ev) ==> json_u64_field(text@, "content_index"@) == Some(ev.content_index),
        r matches Ok(ev) ==> json_str_field(text@, "item_id"@) == Some(ev.item_id@),
        r matches Ok(ev) ==> json_u64_field(text@, "output_index"@) == Some(ev.output_index),
        r matches Ok(ev) ==> json_str_field(text@, "refusal"@) == Some(ev.refusal@),
        r matches Ok(ev) ==> json_u64_field(text@, "sequence_number"@) == Some(ev.sequence_number),
        r matches Err(e) ==> e.raw@ == text@ && (if json_u64_field(text@, "content_index"@) is None {
                e.path@ == "content_index"@ && e.cause == field_fault_cause(text@, "content_index"@)
            } else if json_str_field(text@, "item_id"@) is None {
                e.path@ == "item_id"@ && e.cause == field_fault_cause(text@, "item_id"@)
            } else if json_u64_field(text@, "output_index"@) is None {
                e.path@ == "output_index"@ && e.cause == field_fault_cause(text@, "output_index"@)
            } else if json_str_field(text@, "refusal"@) is None {
                e.path@ == "refusal"@ && e.cause == field_fault_cause(text@, "refusal"@)
            } else if json_u64_field(text@, "sequence_number"@) is None {
                e.path@ == "sequence_number"@ && e.cause == field_fault_cause(text@, "sequence_number"@)
            } else {
                false
            }),
{
    Ok(ResponseRefusalDoneEvent {
        content_index: req_u64(text, "content_index")?,
        item_id: req_string(text, "item_id")?,
        output_index: req_u64(text, "output_index")?,
        refusal: req_string(text, "refusal")?,
        sequence_number: req_u64(text, "sequence_number")?,
    })
}

/// Decodes the fields of a `ResponseReasoningDeltaEvent` payload; on failure the error
/// carries the first field, in declaration order, that did not read back.
fn decode_response_reasoning_delta(text: &String) -> (r: Result<ResponseReasoningDeltaEvent, DecodeError>)
    ensures
        (r is Ok) == (json_u64_field(text@, "content_index"@) is Some && json_has_field(text@, "delta"@) && json_str_field(text@, "item_id"@) is Some && json_u64_field(text@, "output_index"@) is Some && json_u64_field(text@, "sequence_number"@) is Some),
        r matches Ok(ev) ==> json_u64_field(text@, "content_index"@) == Some(ev.content_index),
        r matches Ok(ev) ==> json_has_field(text@, "delta"@),
        r matches Ok(ev) ==> json_str_field(text@, "item_id"@) == Some(ev.item_id@),
        r matches Ok(ev) ==> json_u64_field(text@, "output_index"@) == Some(ev.output_index),
        r matches Ok(ev) ==> json_u64_field(text@, "sequence_number"@) == Some(ev.sequence_number),
        r matches Err(e) ==> e.raw@ == text@ && (if json_u64_field(text@, "content_index"@) is None {
                e.path@ == "content_index"@ && e.cause == field_fault_cause(text@, "content_index"@)
            } else if !json_has_field(text@, "delta"@) {
                e.path@ == "delta"@ && e.cause == DecodeCause::MissingField
            } else if json_str_field(text@, "item_id"@) is None {
                e.path@ == "item_id"@ && e.cause == field_fault_cause(text@, "item_id"@)
            } else if json_u64_field(text@, "output_index"@) is None {
                e.path@ == "output_index"@ && e.cause == field_fault_cause(text@, "output_index"@)
            } else if json_u64_field(text@, "sequence_number"@) is None {
                e.path@ == "sequence_number"@ && e.cause == field_fault_cause(text@, "sequence_number"@)
            } else {
                false
            }),
{
    Ok(ResponseReasoningDeltaEvent {
        content_index: req_u64(text, "content_index")?,
        delta: req_value(text, "delta")?,
        item_id: req_string(text, "item_id")?,
        output_index: req_u64(text, "output_index")?,
        sequence_number: req_u64(text, "sequence_number")?,
    })
}

/// Decodes the fields of a `ResponseReasoningDoneEvent` payload; on failure the error
/// carries the first field, in declaration order, that did not read back.
fn decode_response_reasoning_done(text: &String) -> (r: Result<ResponseReasoningDoneEvent, DecodeError>)
    ensures
        (r is Ok) == (json_u64_field(text@, "content_index"@) is Some && json_str_field(text@, "item_id"@) is Some && json_u64_field(text@, "output_index"@) is Some && json_u64_field(text@, "sequence_number"@) is Some && json_str_field(text@, "text"@) is Some),
        r matches Ok(ev) ==> json_u64_field(text@, "content_index"@) == Some(ev.content_index),
        r matches Ok(ev) ==> json_str_field(text@, "item_id"@) == Some(ev.item_id@),
        r matches Ok(ev) ==> json_u64_field(text@, "output_index"@) == Some(ev.output_index),
        r matches Ok(ev) ==> json_u64_field(text@, "sequence_number"@) == Some(ev.sequence_number),
        r matches Ok(ev) ==> json_str_field(text@, "text"@) == Some(ev.text@),
        r matches Err(e) ==> e.raw@ == text@ && (if json_u64_field(text@, "content_index"@) is None {
                e.path@ == "content_index"@ && e.cause == field_fault_cause(text@, "content_index"@)
            } else if json_str_field(text@, "item_id"@) is None {
                e.path@ == "item_id"@ && e.cause == field_fault_cause(text@, "item_id"@)
            } else if json_u64_field(text@, "output_index"@) is None {
                e.path@ == "output_index"@ && e.cause == field_fault_cause(text@, "output_index"@)
            } else if json_u64_field(text@, "sequence_number"@) is None {
                e.path@ == "sequence_number"@ && e.cause == field_fault_cause(text@, "sequence_number"@)
            } else if json_str_field(text@, "text"@) is None {
                e.path@ == "text"@ && e.cause == field_fault_cause(text@, "text"@)
            } else {
                false
            }),
{
    Ok(ResponseReasoningDoneEvent {
        content_index: req_u64(text, "content_index")?,
        item_id: req_string(text, "item_id")?,
        output_index: req_u64(text, "output_index")?,
        sequence_number: req_u64(text, "sequence_number")?,
        text: req_string(text, "text")?,
    })
}

/// Decodes the fields of a `ResponseReasoningSummaryDeltaEvent` payload; on failure the error
/// carries the first field, in declaration order, that did not read back.
fn decode_response_reasoning_summary_delta(text: &String) -> (r: Result<ResponseReasoningSummaryDeltaEvent, DecodeError>)
    ensures
        (r is Ok) == (json_has_field(text@, "delta"@) && json_str_field(text@, "item_id"@) is Some && json_u64_field(text@, "output_index"@) is Some && json_u64_field(text@, "sequence_number"@) is Some && json_u64_field(text@, "summary_index"@) is Some),
        r matches Ok(ev) ==> json_has_field(text@, "delta"@),
        r matches Ok(ev) ==> json_str_field(text@, "item_id"@) == Some(ev.item_id@),
        r matches Ok(ev) ==> json_u64_field(text@, "output_index"@) == Some(ev.output_index),
        r matches Ok(ev) ==> json_u64_field(text@, "sequence_number"@) == Some(ev.sequence_number),
        r matches Ok(ev) ==> json_u64_field(text@, "summary_index"@) == Some(ev.summary_index),
        r matches Err(e) ==> e.raw@ == text@ && (if !json_has_field(text@, "delta"@) {
                e.path@ == "delta"@ && e.cause == DecodeCause::MissingField
            } else if json_str_field(text@, "item_id"@) is None {
                e.path@ == "item_id"@ && e.cause == field_fault_cause(text@, "item_id"@)
            } else if json_u64_field(text@, "output_index"@) is None {
                e.path@ == "output_index"@ && e.cause == field_fault_cause(text@, "output_index"@)
            } else if json_u64_field(text@, "sequence_number"@) is None {
                e.path@ == "sequence_number"@ && e.cause == field_fault_cause(text@, "sequence_number"@)
            } else if json_u64_field(text@, "summary_index"@) is None {
                e.path@ == "summary_index"@ && e.cause == field_fault_cause(text@, "summary_index"@)
            } else {
                false
            }),
{
    Ok(ResponseReasoningSummaryDeltaEvent {
        delta: req_value(text, "delta")?,
        item_id: req_string(text, "item_id")?,
        output_index: req_u64(text, "output_index")?,
        sequence_number: req_u64(text, "sequence_number")?,
        summary_index: req_u64(text, "summary_index")?,
    })
}

/// Decodes the fields of a `ResponseReasoningSummaryDoneEvent` payload; on failure the error
/// carries the first field, in declaration order, that did not read back.
fn decode_response_reasoning_summary_done(text: &String) -> (r: Result<ResponseReasoningSummaryDoneEvent, DecodeError>)
    ensures
        (r is Ok) == (json_str_field(text@, "item_id"@) is Some && json_u64_field(text@, "output_index"@) is Some && json_u64_field(text@, "sequence_number"@) is Some && json_u64_field(text@, "summary_index"@) is Some && json_str_field(text@, "text"@) is Some),
        r matches Ok(ev) ==> json_str_field(text@, "item_id"@) == Some(ev.item_id@),
        r matches Ok(ev) ==> json_u64_field(text@, "output_index"@) == Some(ev.output_index),
        r matches Ok(ev) ==> json_u64_field(text@, "sequence_number"@) == Some(ev.sequence_number),
        r matches Ok(ev) ==> json_u64_field(text@, "summary_index"@) == Some(ev.summary_index),
        r matches Ok(ev) ==> json_str_field(text@, "text"@) == Some(ev.text@),
        r matches Err(e) ==> e.raw@ == text@ && (if json_str_field(text@, "item_id"@) is None {
                e.path@ == "item_id"@ && e.cause == field_fault_cause(text@, "item_id"@)
            } else if json_u64_field(text@, "output_index"@) is None {
                e.path@ == "output_index"@ && e.cause == field_fault_cause(text@, "output_index"@)
            } else if json_u64_field(text@, "sequence_number"@) is None {
                e.path@ == "sequence_number"@ && e.cause == field_fault_cause(text@, "sequence_number"@)
            } else if json_u64_field(text@, "summary_index"@) is None {
                e.path@ == "summary_index"@ && e.cause == field_fault_cause(text@, "summary_index"@)
            } else if json_str_field(text@, "text"@) is None {
                e.path@ == "text"@ && e.cause == field_fault_cause(text@, "text"@)
            } else {
                false
            }),
{
    Ok(ResponseReasoningSummaryDoneEvent {
        item_id: req_string(text, "item_id")?,
        output_index: req_u64(text, "output_index")?,
        sequence_number: req_u64(text, "sequence_number")?,
        summary_index: req_u64(text, "summary_index")?,
        text: req_string(text, "text")?,
    })
}

/// Decodes the fields of a `ResponseTextDeltaEvent` payload; on failure the error
/// carries the first field, in declaration order, that did not read back.
fn decode_response_text_delta(text: &String) -> (r: Result<ResponseTextDeltaEvent, DecodeError>)
    ensures
        (r is Ok) == (json_u64_field(text@, "content_index"@) is Some && json_str_field(text@, "delta"@) is Some && json_str_field(text@, "item_id"@) is Some && json_u64_field(text@, "output_index"@) is Some && json_u64_field(text@, "sequence_number"@) is Some),
        r matches Ok(ev) ==> json_u64_field(text@, "content_index"@) == Some(ev.content_index),
        r matches Ok(ev) ==> json_str_field(text@, "delta"@) == Some(ev.delta@),
        r matches Ok(ev) ==> json_str_field(text@, "item_id"@) == Some(ev.item_id@),
        r matches Ok(ev) ==> json_u64_field(text@, "output_index"@) == Some(ev.output_index),
        r matches Ok(ev) ==> json_u64_field(text@, "sequence_number"@) == Some(ev.sequence_number),
        r matches Err(e) ==> e.raw@ == text@ && (if json_u64_field(text@, "content_index"@) is None {
                e.path@ == "content_index"@ && e.cause == field_fault_cause(text@, "content_index"@)
            } else if json_str_field(text@, "delta"@) is None {
                e.path@ == "delta"@ && e.cause == field_fault_cause(text@, "delta"@)
            } else if json_str_field(text@, "item_id"@) is None {
                e.path@ == "item_id"@ && e.cause == field_fault_cause(text@, "item_id"@)
            } else if json_u64_field(text@, "output_index"@) is None {
                e.path@ == "output_index"@ && e.cause == field_fault_cause(text@, "output_index"@)
            } else if json_u64_field(text@, "sequence_number"@) is None {
                e.path@ == "sequence_number"@ && e.cause == field_fault_cause(text@, "sequence_number"@)
            } else {
                false
            }),
{
    Ok(ResponseTextDeltaEvent {
        content_index: req_u64(text, "content_index")?,
        delta: req_string(text, "delta")?,
        item_id: req_string(text, "item_id")?,
        output_index: req_u64(text, "output_index")?,
        sequence_number: req_u64(text, "sequence_number")?,
    })
}

/// Decodes the fields of a `ResponseTextDoneEvent` payload; on failure the error
/// carries the first field, in declaration order, that did not read back.
fn decode_response_text_done(text: &String) -> (r: Result<ResponseTextDoneEvent, DecodeError>)
    ensures
        (r is Ok) == (json_u64_field(text@, "content_index"@) is Some && json_str_field(text@, "item_id"@) is Some && json_u64_field(text@, "output_index"@) is Some && json_u64_field(text@, "sequence_number"@) is Some && json_str_field(text@, "text"@) is Some),
        r matches Ok(ev) ==> json_u64_field(text@, "content_index"@) == Some(ev.content_index),
        r matches Ok(ev) ==> json_str_field(text@, "item_id"@) == Some(ev.item_id@),
        r matches Ok(ev) ==> json_u64_field(text@, "output_index"@) == Some(ev.output_index),
        r matches Ok(ev) ==> json_u64_field(text@, "sequence_number"@) == Some(ev.sequence_number),
        r matches Ok(ev) ==> json_str_field(text@, "text"@) == Some(ev.text@),
        r matches Err(e) ==> e.raw@ == text@ && (if json_u64_field(text@, "content_index"@) is None {
                e.path@ == "content_index"@ && e.cause == field_fault_cause(text@, "content_index"@)
            } else if json_str_field(text@, "item_id"@) is None {
                e.path@ == "item_id"@ && e.cause == field_fault_cause(text@, "item_id"@)
            } else if json_u64_field(text@, "output_index"@) is None {
                e.path@ == "output_index"@ && e.cause == field_fault_cause(text@, "output_index"@)
            } else if json_u64_field(text@, "sequence_number"@) is None {
                e.path@ == "sequence_number"@ && e.cause == field_fault_cause(text@, "sequence_number"@)
            } else if json_str_field(text@, "text"@) is None {
                e.path@ == "text"@ && e.cause == field_fault_cause(text@, "text"@)
            } else {
                false
            }),
{
    Ok(ResponseTextDoneEvent {
        content_index: req_u64(text, "content_index")?,
        item_id: req_string(text, "item_id")?,
        output_index: req_u64(text, "output_index")?,
        sequence_number: req_u64(text, "sequence_number")?,
        text: req_string(text, "text")?,
    })
}

/// Decodes the fields of a `ResponseWebSearchCallCompletedEvent` payload; on failure the error
/// carries the first field, in declaration order, that did not read back.
fn decode_response_web_search_call_completed(text: &String) -> (r: Result<ResponseWebSearchCallCompletedEvent, DecodeError>)
    ensures
        (r is Ok) == (json_str_field(text@, "item_id"@) is Some && json_u64_field(text@, "output_index"@) is Some && json_u64_field(text@, "sequence_number"@) is Some),
        r matches Ok(ev) ==> json_str_field(text@, "item_id"@) == Some(ev.item_id@),
        r matches Ok(ev) ==> json_u64_field(text@, "output_index"@) == Some(ev.output_index),
        r matches Ok(ev) ==> json_u64_field(text@, "sequence_number"@) == Some(ev.sequence_number),
        r matches Err(e) ==> e.raw@ == text@ && (if json_str_field(text@, "item_id"@) is None {
                e.path@ == "item_id"@ && e.cause == field_fault_cause(text@, "item_id"@)
            } else if json_u64_field(text@, "output_index"@) is None {
                e.path@ == "output_index"@ && e.cause == field_fault_cause(text@, "output_index"@)
            } else if json_u64_field(text@, "sequence_number"@) is None {
                e.path@ == "sequence_number"@ && e.cause == field_fault_cause(text@, "sequence_number"@)
            } else {
                false
            }),
{
    Ok(ResponseWebSearchCallCompletedEvent {
        item_id: req_string(text, "item_id")?,
        output_index: req_u64(text, "output_index")?,
        sequence_number: req_u64(text, "sequence_number")?,
    })
}

/// Decodes the fields of a `ResponseWebSearchCallInProgressEvent` payload; on failure the error
/// carries the first field, in declaration order, that did not read back.
fn decode_response_web_search_call_in_progress(text: &String) -> (r: Result<ResponseWebSearchCallInProgressEvent, DecodeError>)
    ensures
        (r is Ok) == (json_str_field(text@, "item_id"@) is Some && json_u64_field(text@, "output_index"@) is Some && json_u64_field(text@, "sequence_number"@) is Some),
        r matches Ok(ev) ==> json_str_field(text@, "item_id"@) == Some(ev.item_id@),
        r matches Ok(ev) ==> json_u64_field(text@, "output_index"@) == Some(ev.output_index),
        r matches Ok(ev) ==> json_u64_field(text@, "sequence_number"@) == Some(ev.sequence_number),
        r matches Err(e) ==> e.raw@ == text@ && (if json_str_field(text@, "item_id"@) is None {
                e.path@ == "item_id"@ && e.cause == field_fault_cause(text@, "item_id"@)
            } else if json_u64_field(text@, "output_index"@) is None {
                e.path@ == "output_index"@ && e.cause == field_fault_cause(text@, "output_index"@)
            } else if json_u64_field(text@, "sequence_number"@) is None {
                e.path@ == "sequence_number"@ && e.cause == field_fault_cause(text@, "sequence_number"@)
            } else {
                false
            }),
{
    Ok(ResponseWebSearchCallInProgressEvent {
        item_id: req_string(text, "item_id")?,
        output_index: req_u64(text, "output_index")?,
        sequence_number: req_u64(text, "sequence_number")?,
    })
}

/// Decodes the fields of a `ResponseWebSearchCallSearchingEvent` payload; on failure the error
/// carries the first field, in declaration order, that did not read back.
fn decode_response_web_search_call_searching(text: &String) -> (r: Result<ResponseWebSearchCallSearchingEvent, DecodeError>)
    ensures
        (r is Ok) == (json_str_field(text@, "item_id"@) is Some && json_u64_field(text@, "output_index"@) is Some && json_u64_field(text@, "sequence_number"@) is Some),
        r matches Ok(ev) ==> json_str_field(text@, "item_id"@) == Some(ev.item_id@),
        r matches Ok(ev) ==> json_u64_field(text@, "output_index"@) == Some(ev.output_index),
        r matches Ok(ev) ==> json_u64_field(text@, "sequence_number"@) == Some(ev.sequence_number),
        r matches Err(e) ==> e.raw@ == text@ && (if json_str_field(text@, "item_id"@) is None {
                e.path@ == "item_id"@ && e.cause == field_fault_cause(text@, "item_id"@)
            } else if json_u64_field(text@, "output_index"@) is None {
                e.path@ == "output_index"@ && e.cause == field_fault_cause(text@, "output_index"@)
            } else if json_u64_field(text@, "sequence_number"@) is None {
                e.path@ == "sequence_number"@ && e.cause == field_fault_cause(text@, "sequence_number"@)
            } else {
                false
            }),
{
    Ok(ResponseWebSearchCallSearchingEvent {
        item_id: req_string(text, "item_id")?,
        output_index: req_u64(text, "output_index")?,
        sequence_number: req_u64(text, "sequence_number")?,
    })
}

/// Decodes the fields of a `ResponseImageGenCallCompletedEvent` payload; on failure the error
/// carries the first field, in declaration order, that did not read back.
fn decode_response_image_gen_call_completed(text: &String) -> (r: Result<ResponseImageGenCallCompletedEvent, DecodeError>)
    ensures
        (r is Ok) == (json_str_field(text@, "item_id"@) is Some && json_u64_field(text@, "output_index"@) is Some && json_u64_field(text@, "sequence_number"@) is Some),
        r matches Ok(ev) ==> json_str_field(text@, "item_id"@) == Some(ev.item_id@),
        r matches Ok(ev) ==> json_u64_field(text@, "output_index"@) == Some(ev.output_index),
        r matches Ok(ev) ==> json_u64_field(text@, "sequence_number"@) == Some(ev.sequence_number),
        r matches Err(e) ==> e.raw@ == text@ && (if json_str_field(text@, "item_id"@) is None {
                e.path@ == "item_id"@ && e.cause == field_fault_cause(text@, "item_id"@)
            } else if json_u64_field(text@, "output_index"@) is None {
                e.path@ == "output_index"@ && e.cause == field_fault_cause(text@, "output_index"@)
            } else if json_u64_field(text@, "sequence_number"@) is None {
                e.path@ == "sequence_number"@ && e.cause == field_fault_cause(text@, "sequence_number"@)
            } else {
                false
            }),
{
    Ok(ResponseImageGenCallCompletedEvent {
        item_id: req_string(text, "item_id")?,
        output_index: req_u64(text, "output_index")?,
        sequence_number: req_u64(text, "sequence_number")?,
    })
}

/// Decodes the fields of a `ResponseImageGenCallGeneratingEvent` payload; on failure the error
/// carries the first field, in declaration order, that did not read back.
fn decode_response_image_gen_call_generating(text: &String) -> (r: Result<ResponseImageGenCallGeneratingEvent, DecodeError>)
    ensures
        (r is Ok) == (json_str_field(text@, "item_id"@) is Some && json_u64_field(text@, "output_index"@) is Some && json_u64_field(text@, "sequence_number"@) is Some),
        r matches Ok(ev) ==> json_str_field(text@, "item_id"@) == Some(ev.item_id@),
        r matches Ok(ev) ==> json_u64_field(text@, "output_index"@) == Some(ev.output_index),
        r matches Ok(ev) ==> json_u64_field(text@, "sequence_number"@) == Some(ev.sequence_number),
        r matches Err(e) ==> e.raw@ == text@ && (if json_str_field(text@, "item_id"@) is None {
                e.path@ == "item_id"@ && e.cause == field_fault_cause(text@, "item_id"@)
            } else if json_u64_field(text@, "output_index"@) is None {
                e.path@ == "output_index"@ && e.cause == field_fault_cause(text@, "output_index"@)
            } else if json_u64_field(text@, "sequence_number"@) is None {
                e.path@ == "sequence_number"@ && e.cause == field_fault_cause(text@, "sequence_number"@)
            } else {
                false
            }),
{
    Ok(ResponseImageGenCallGeneratingEvent {
        item_id: req_string(text, "item_id")?,
        output_index: req_u64(text, "output_index")?,
        sequence_number: req_u64(text, "sequence_number")?,
    })
}

/// Decodes the fields of a `ResponseImageGenCallInProgressEvent` payload; on failure the error
/// carries the first field, in declaration order, that did not read back.
fn decode_response_image_gen_call_in_progress(text: &String) -> (r: Result<ResponseImageGenCallInProgressEvent, DecodeError>)
    ensures
        (r is Ok) == (json_str_field(text@, "item_id"@) is Some && json_u64_field(text@, "output_index"@) is Some && json_u64_field(text@, "sequence_number"@) is Some),
        r matches Ok(ev) ==> json_str_field(text@, "item_id"@) == Some(ev.item_id@),
        r matches Ok(ev) ==> json_u64_field(text@, "output_index"@) == Some(ev.output_index),
        r matches Ok(ev) ==> json_u64_field(text@, "sequence_number"@) == Some(ev.sequence_number),
        r matches Err(e) ==> e.raw@ == text@ && (if json_str_field(text@, "item_id"@) is None {
                e.path@ == "item_id"@ && e.cause == field_fault_cause(text@, "item_id"@)
            } else if json_u64_field(text@, "output_index"@) is None {
                e.path@ == "output_index"@ && e.cause == field_fault_cause(text@, "output_index"@)
            } else if json_u64_field(text@, "sequence_number"@) is None {
                e.path@ == "sequence_number"@ && e.cause == field_fault_cause(text@, "sequence_number"@)
            } else {
                false
            }),
{
    Ok(ResponseImageGenCallInProgressEvent {
        item_id: req_string(text, "item_id")?,
        output_index: req_u64(text, "output_index")?,
        sequence_number: req_u64(text, "sequence_number")?,
    })
}

/// Decodes the fields of a `ResponseImageGenCallPartialImageEvent` payload; on failure the error
/// carries the first field, in declaration order, that did not read back.
fn decode_response_image_gen_call_partial_image(text: &String) -> (r: Result<ResponseImageGenCallPartialImageEvent, DecodeError>)
    ensures
        (r is Ok) == (json_str_field(text@, "item_id"@) is Some && json_u64_field(text@, "output_index"@) is Some && json_str_field(text@, "partial_image_b64"@) is Some && json_u64_field(text@, "partial_image_index"@) is Some && json_u64_field(text@, "sequence_number"@) is Some),
        r matches Ok(ev) ==> json_str_field(text@, "item_id"@) == Some(ev.item_id@),
        r matches Ok(ev) ==> json_u64_field(text@, "output_index"@) == Some(ev.output_index),
        r matches Ok(ev) ==> json_str_field(text@, "partial_image_b64"@) == Some(ev.partial_image_b64@),
        r matches Ok(ev) ==> json_u64_field(text@, "partial_image_index"@) == Some(ev.partial_image_index),
        r matches Ok(ev) ==> json_u64_field(text@, "sequence_number"@) == Some(ev.sequence_number),
        r matches Err(e) ==> e.raw@ == text@ && (if json_str_field(text@, "item_id"@) is None {
                e.path@ == "item_id"@ && e.cause == field_fault_cause(text@, "item_id"@)
            } else if json_u64_field(text@, "output_index"@) is None {
                e.path@ == "output_index"@ && e.cause == field_fault_cause(text@, "output_index"@)
            } else if json_str_field(text@, "partial_image_b64"@) is None {
                e.path@ == "partial_image_b64"@ && e.cause == field_fault_cause(text@, "partial_image_b64"@)
            } else if json_u64_field(text@, "partial_image_index"@) is None {
                e.path@ == "partial_image_index"@ && e.cause == field_fault_cause(text@, "partial_image_index"@)
            } else if json_u64_field(text@, "sequence_number"@) is None {
                e.path@ == "sequence_number"@ && e.cause == field_fault_cause(text@, "sequence_number"@)
            } else {
                false
            }),
{
    Ok(ResponseImageGenCallPartialImageEvent {
        item_id: req_string(text, "item_id")?,
        output_index: req_u64(text, "output_index")?,
        partial_image_b64: req_string(text, "partial_image_b64")?,
        partial_image_index: req_u64(text, "partial_image_index")?,
        sequence_number: req_u64(text, "sequence_number")?,
    })
}

/// Decodes the fields of a `ResponseMcpCallArgumentsDeltaEvent` payload; on failure the error
/// carries the first field, in declaration order, that did not read back.
fn decode_response_mcp_call_arguments_delta(text: &String) -> (r: Result<ResponseMcpCallArgumentsDeltaEvent, DecodeError>)
    ensures
        (r is Ok) == (json_has_field(text@, "delta"@) && json_str_field(text@, "item_id"@) is Some && json_u64_field(text@, "output_index"@) is Some && json_u64_field(text@, "sequence_number"@) is Some),
        r matches Ok(ev) ==> json_has_field(text@, "delta"@),
        r matches Ok(ev) ==> json_str_field(text@, "item_id"@) == Some(ev.item_id@),
        r matches Ok(ev) ==> json_u64_field(text@, "output_index"@) == Some(ev.output_index),
        r matches Ok(ev) ==> json_u64_field(text@, "sequence_number"@) == Some(ev.sequence_number),
        r matches Err(e) ==> e.raw@ == text@ && (if !json_has_field(text@, "delta"@) {
                e.path@ == "delta"@ && e.cause == DecodeCause::MissingField
            } else if json_str_field(text@, "item_id"@) is None {
                e.path@ == "item_id"@ && e.cause == field_fault_cause(text@, "item_id"@)
            } else if json_u64_field(text@, "output_index"@) is None {
                e.path@ == "output_index"@ && e.cause == field_fault_cause(text@, "output_index"@)
            } else if json_u64_field(text@, "sequence_number"@) is None {
                e.path@ == "sequence_number"@ && e.cause == field_fault_cause(text@, "sequence_number"@)
            } else {
                false
            }),
{
    Ok(ResponseMcpCallArgumentsDeltaEvent {
        delta: req_value(text, "delta")?,
        item_id: req_string(text, "item_id")?,
        output_index: req_u64(text, "output_index")?,
        sequence_number: req_u64(text, "sequence_number")?,
    })
}

/// Decodes the fields of a `ResponseMcpCallArgumentsDoneEvent` payload; on failure the error
/// carries the first field, in declaration order, that did not read back.
fn decode_response_mcp_call_arguments_done(text: &String) -> (r: Result<ResponseMcpCallArgumentsDoneEvent, DecodeError>)
    ensures
        (r is Ok) == (json_has_field(text@, "arguments"@) && json_str_field(text@, "item_id"@) is Some && json_u64_field(text@, "output_index"@) is Some && json_u64_field(text@, "sequence_number"@) is Some),
        r matches Ok(ev) ==> json_has_field(text@, "arguments"@),
        r matches Ok(ev) ==> json_str_field(text@, "item_id"@) == Some(ev.item_id@),
        r matches Ok(ev) ==> json_u64_field(text@, "output_index"@) == Some(ev.output_index),
        r matches Ok(ev) ==> json_u64_field(text@, "sequence_number"@) == Some(ev.sequence_number),
        r matches Err(e) ==> e.raw@ == text@ && (if !json_has_field(text@, "arguments"@) {
                e.path@ == "arguments"@ && e.cause == DecodeCause::MissingField
            } else if json_str_field(text@, "item_id"@) is None {
                e.path@ == "item_id"@ && e.cause == field_fault_cause(text@, "item_id"@)
            } else if json_u64_field(text@, "output_index"@) is None {
                e.path@ == "output_index"@ && e.cause == field_fault_cause(text@, "output_index"@)
            } else if json_u64_field(text@, "sequence_number"@) is None {
                e.path@ == "sequence_number"@ && e.cause == field_fault_cause(text@, "sequence_number"@)
            } else {
                false
            }),
{
    Ok(ResponseMcpCallArgumentsDoneEvent {
        arguments: req_value(text, "arguments")?,
        item_id: req_string(text, "item_id")?,
        output_index: req_u64(text, "output_index")?,
        sequence_number: req_u64(text, "sequence_number")?,
    })
}

/// Decodes the fields of a `ResponseMcpCallCompletedEvent` payload; on failure the error
/// carries the first field, in declaration order, that did not read back.
fn decode_response_mcp_call_completed(text: &String) -> (r: Result<ResponseMcpCallCompletedEvent, DecodeError>)
    ensures
        (r is Ok) == (json_u64_field(text@, "sequence_number"@) is Some),
        r matches Ok(ev) ==> json_u64_field(text@, "sequence_number"@) == Some(ev.sequence_number),
        r matches Err(e) ==> e.raw@ == text@ && (if json_u64_field(text@, "sequence_number"@) is None {
                e.path@ == "sequence_number"@ && e.cause == field_fault_cause(text@, "sequence_number"@)
            } else {
                false
            }),
{
    Ok(ResponseMcpCallCompletedEvent {
        sequence_number: req_u64(text, "sequence_number")?,
    })
}

/// Decodes the fields of a `ResponseMcpCallFailedEvent` payload; on failure the error
/// carries the first field, in declaration order, that did not read back.
fn decode_response_mcp_call_failed(text: &String) -> (r: Result<ResponseMcpCallFailedEvent, DecodeError>)
    ensures
        (r is Ok) == (json_u64_field(text@, "sequence_number"@) is Some),
        r matches Ok(ev) ==> json_u64_field(text@, "sequence_number"@) == Some(ev.sequence_number),
        r matches Err(e) ==> e.raw@ == text@ && (if json_u64_field(text@, "sequence_number"@) is None {
                e.path@ == "sequence_number"@ && e.cause == field_fault_cause(text@, "sequence_number"@)
            } else {
                false
            }),
{
    Ok(ResponseMcpCallFailedEvent {
        sequence_number: req_u64(text, "sequence_number")?,
    })
}

/// Decodes the fields of a `ResponseMcpCallInProgressEvent` payload; on failure the error
/// carries the first field, in declaration order, that did not read back.
fn decode_response_mcp_call_in_progress(text: &String) -> (r: Result<ResponseMcpCallInProgressEvent, DecodeError>)
    ensures
        (r is Ok) == (json_str_field(text@, "item_id"@) is Some && json_u64_field(text@, "output_index"@) is Some && json_u64_field(text@, "sequence_number"@) is Some),
        r matches Ok(ev) ==> json_str_field(text@, "item_id"@) == Some(ev.item_id@),
        r matches Ok(ev) ==> json_u64_field(text@, "output_index"@) == Some(ev.output_index),
        r matches Ok(ev) ==> json_u64_field(text@, "sequence_number"@) == Some(ev.sequence_number),
        r matches Err(e) ==> e.raw@ == text@ && (if json_str_field(text@, "item_id"@) is None {
                e.path@ == "item_id"@ && e.cause == field_fault_cause(text@, "item_id"@)
            } else if json_u64_field(text@, "output_index"@) is None {
                e.path@ == "output_index"@ && e.cause == field_fault_cause(text@, "output_index"@)
            } else if json_u64_field(text@, "sequence_number"@) is None {
                e.path@ == "sequence_number"@ && e.cause == field_fault_cause(text@, "sequence_number"@)
            } else {
                false
            }),
{
    Ok(ResponseMcpCallInProgressEvent {
        item_id: req_string(text, "item_id")?,
        output_index: req_u64(text, "output_index")?,
        sequence_number: req_u64(text, "sequence_number")?,
    })
}

/// Decodes the fields of a `ResponseMcpListToolsCompletedEvent` payload; on failure the error
/// carries the first field, in declaration order, that did not read back.
fn decode_response_mcp_list_tools_completed(text: &String) -> (r: Result<ResponseMcpListToolsCompletedEvent, DecodeError>)
    ensures
        (r is Ok) == (json_u64_field(text@, "sequence_number"@) is Some),
        r matches Ok(ev) ==> json_u64_field(text@, "sequence_number"@) == Some(ev.sequence_number),
        r matches Err(e) ==> e.raw@ == text@ && (if json_u64_field(text@, "sequence_number"@) is None {
                e.path@ == "sequence_number"@ && e.cause == field_fault_cause(text@, "sequence_number"@)
            } else {
                false
            }),
{
    Ok(ResponseMcpListToolsCompletedEvent {
        sequence_number: req_u64(text, "sequence_number")?,
    })
}

/// Decodes the fields of a `ResponseMcpListToolsFailedEvent` payload; on failure the error
/// carries the first field, in declaration order, that did not read back.
fn decode_response_mcp_list_tools_failed(text: &String) -> (r: Result<ResponseMcpListToolsFailedEvent, DecodeError>)
    ensures
        (r is Ok) == (json_u64_field(text@, "sequence_number"@) is Some),
        r matches Ok(ev) ==> json_u64_field(text@, "sequence_number"@) == Some(ev.sequence_number),
        r matches Err(e) ==> e.raw@ == text@ && (if json_u64_field(text@, "sequence_number"@) is None {
                e.path@ == "sequence_number"@ && e.cause == field_fault_cause(text@, "sequence_number"@)
            } else {
                false
            }),
{
    Ok(ResponseMcpListToolsFailedEvent {
        sequence_number: req_u64(text, "sequence_number")?,
    })
}

/// Decodes the fields of a `ResponseMcpListToolsInProgressEvent` payload; on failure the error
/// carries the first field, in declaration order, that did not read back.
fn decode_response_mcp_list_tools_in_progress(text: &String) -> (r: Result<ResponseMcpListToolsInProgressEvent, DecodeError>)
    ensures
        (r is Ok) == (json_u64_field(text@, "sequence_number"@) is Some),
        r matches Ok(ev) ==> json_u64_field(text@, "sequence_number"@) == Some(ev.sequence_number),
        r matches Err(e) ==> e.raw@ == text@ && (if json_u64_field(text@, "sequence_number"@) is None {
                e.path@ == "sequence_number"@ && e.cause == field_fault_cause(text@, "sequence_number"@)
            } else {
                false
            }),
{
    Ok(ResponseMcpListToolsInProgressEvent {
        sequence_number: req_u64(text, "sequence_number")?,
    })
}

/// Decodes the fields of a `ResponseOutputTextAnnotationAddedEvent` payload; on failure the error
/// carries the first field, in declaration order, that did not read back.
fn decode_response_output_text_annotation_added(text: &String) -> (r: Result<ResponseOutputTextAnnotationAddedEvent, DecodeError>)
    ensures
        (r is Ok) == (json_has_field(text@, "annotation"@) && json_u64_field(text@, "annotation_index"@) is Some && json_u64_field(text@, "content_index"@) is Some && json_str_field(text@, "item__id"@) is Some && json_u64_field(text@, "output_index"@) is Some && json_u64_field(text@, "sequence_number"@) is Some),
        r matches Ok(ev) ==> json_has_field(text@, "annotation"@),
        r matches Ok(ev) ==> json_u64_field(text@, "annotation_index"@) == Some(ev.annotation_index),
        r matches Ok(ev) ==> json_u64_field(text@, "content_index"@) == Some(ev.content_index),
        r matches Ok(ev) ==> json_str_field(text@, "item__id"@) == Some(ev.item_id@),
        r matches Ok(ev) ==> json_u64_field(text@, "output_index"@) == Some(ev.output_index),
        r matches Ok(ev) ==> json_u64_field(text@, "sequence_number"@) == Some(ev.sequence_number),
        r matches Err(e) ==> e.raw@ == text@ && (if !json_has_field(text@, "annotation"@) {
                e.path@ == "annotation"@ && e.cause == DecodeCause::MissingField
            } else if json_u64_field(text@, "annotation_index"@) is None {
                e.path@ == "annotation_index"@ && e.cause == field_fault_cause(text@, "annotation_index"@)
            } else if json_u64_field(text@, "content_index"@) is None {
                e.path@ == "content_index"@ && e.cause == field_fault_cause(text@, "content_index"@)
            } else if json_str_field(text@, "item__id"@) is None {
                e.path@ == "item__id"@ && e.cause == field_fault_cause(text@, "item__id"@)
            } else if json_u64_field(text@, "output_index"@) is None {
                e.path@ == "output_index"@ && e.cause == field_fault_cause(text@, "output_index"@)
            } else if json_u64_field(text@, "sequence_number"@) is None {
                e.path@ == "sequence_number"@ && e.cause == field_fault_cause(text@, "sequence_number"@)
            } else {
                false
            }),
{
    Ok(ResponseOutputTextAnnotationAddedEvent {
        annotation: req_value(text, "annotation")?,
        annotation_index: req_u64(text, "annotation_index")?,
        content_index: req_u64(text, "content_index")?,
        item_id: req_string(text, "item__id")?,
        output_index: req_u64(text, "output_index")?,
        sequence_number: req_u64(text, "sequence_number")?,
    })
}

/// Decodes the fields of a `ResponseQueuedEvent` payload; on failure the error
/// carries the first field, in declaration order, that did not read back.
fn decode_response_queued(text: &String) -> (r: Result<ResponseQueuedEvent, DecodeError>)
    ensures
        (r is Ok) == (json_has_field(text@, "response"@) && json_u64_field(text@, "sequence_number"@) is Some),
        r matches Ok(ev) ==> json_has_field(text@, "response"@),
        r matches Ok(ev) ==> json_u64_field(text@, "sequence_number"@) == Some(ev.sequence_number),
        r matches Err(e) ==> e.raw@ == text@ && (if !json_has_field(text@, "response"@) {
                e.path@ == "response"@ && e.cause == DecodeCause::MissingField
            } else if json_u64_field(text@, "sequence_number"@) is None {
                e.path@ == "sequence_number"@ && e.cause == field_fault_cause(text@, "sequence_number"@)
            } else {
                false
            }),
{
    Ok(ResponseQueuedEvent {
        response: req_value(text, "response")?,
        sequence_number: req_u64(text, "sequence_number")?,
    })
}

/// One slice of the closed discriminator set; the slices exist only to keep
/// each dispatch function small enough to check.
pub open spec fn event_type_group_a(s: Seq<char>) -> bool {
    ||| s == "response.audio.delta"@
    ||| s == "response.audio.done"@
    ||| s == "response.audio_transcript.delta"@
    ||| s == "response.audio_transcript.done"@
    ||| s == "response.code_interpreter.code.delta"@
    ||| s == "response.code_interpreter.code.done"@
    ||| s == "response.code_interpreter.completed"@
    ||| s == "response.code_interpreter.in_progress"@
    ||| s == "response.code_interpreter.interpreting"@
    ||| s == "response.completed"@
    ||| s == "response.content_part.added"@
    ||| s == "response.content_part.done"@
    ||| s == "response.created"@
    ||| s == "error"@
    ||| s == "response.file_search.completed"@
    ||| s == "response.file_search.in_progress"@
    ||| s == "response.file_search.searching"@
    ||| s == "response.function_call_arguments.delta"@
}


/// One slice of the closed discriminator set; the slices exist only to keep
/// each dispatch function small enough to check.
pub open spec fn event_type_group_b(s: Seq<char>) -> bool {
    ||| s == "response.function_call_arguments.done"@
    ||| s == "response.in_progress"@
    ||| s == "response.failed"@
    ||| s == "response.incomplete"@
    ||| s == "response.output_item.added"@
    ||| s == "response.output_item.done"@
    ||| s == "response.reasoning_summary_part.added"@
    ||| s == "response.reasoning_summary_part.done"@
    ||| s == "response.reasoning_summary_text.delta"@
    ||| s == "response.reasoning_summary_text.done"@
    ||| s == "response.refusal.delta"@
    ||| s == "response.refusal.done"@
    ||| s == "response.reasoning_delta"@
    ||| s == "response.reasoning_done"@
    ||| s == "response.reasoning_summary_delta"@
    ||| s == "response.reasoning_summary_done"@
    ||| s == "response.output_text.delta"@
    ||| s == "response.output_text.done"@
}



/// One slice of the closed discriminator set; the slices exist only to keep
/// each dispatch function small enough to check.
pub open spec fn event_type_group_c(s: Seq<char>) -> bool {
    ||| s == "response.web_search.completed"@
    ||| s == "response.web_search.in_progress"@
    ||| s == "response.web_search.searching"@
    ||| s == "response.image_generation.completed"@
    ||| s == "response.image_generation.generating"@
    ||| s == "response.image_generation.in_progress"@
    ||| s == "response.image_generation.partial_image"@
    ||| s == "response.mcp.arguments.delta"@
    ||| s == "response.mcp.arguments.done"@
    ||| s == "response.mcp.completed"@
    ||| s == "response.mcp.failed"@
    ||| s == "response.mcp.in_progress"@
    ||| s == "response.mcp.list_tools.completed"@
    ||| s == "response.mcp.list_tools.failed"@
    ||| s == "response.mcp.list_tools.in_progress"@
    ||| s == "response.output_text.annotation.added"@
    ||| s == "response.queued"@
}

/// The wire discriminator of a decoded event.
pub open spec fn event_type_of(ev: ResponseStreamEvent) -> Seq<char> {
    match ev {
        ResponseStreamEvent::ResponseAudioDelta(_) => "response.audio.delta"@,
        ResponseStreamEvent::ResponseAudioDone(_) => "response.audio.done"@,
        ResponseStreamEvent::ResponseAudioTranscriptDelta(_) => "response.audio_transcript.delta"@,
        ResponseStreamEvent::ResponseAudioTranscriptDone(_) => "response.audio_transcript.done"@,
        ResponseStreamEvent::ResponseCodeInterpreterCallCodeDelta(_) => "response.code_interpreter.code.delta"@,
        ResponseStreamEvent::ResponseCodeInterpreterCallCodeDone(_) => "response.code_interpreter.code.done"@,
        ResponseStreamEvent::ResponseCodeInterpreterCallCompleted(_) => "response.code_interpreter.completed"@,
        ResponseStreamEvent::ResponseCodeInterpreterCallInProgress(_) => "response.code_interpreter.in_progress"@,
        ResponseStreamEvent::ResponseCodeInterpreterCallInterpreting(_) => "response.code_interpreter.interpreting"@,
        ResponseStreamEvent::ResponseCompleted(_) => "response.completed"@,
        ResponseStreamEvent::ResponseContentPartAdded(_) => "response.content_part.added"@,
        ResponseStreamEvent::ResponseContentPartDone(_) => "response.content_part.done"@,
        ResponseStreamEvent::ResponseCreated(_) => "response.created"@,
        ResponseStreamEvent::Error(_) => "error"@,
        ResponseStreamEvent::ResponseFileSearchCallCompleted(_) => "response.file_search.completed"@,
        ResponseStreamEvent::ResponseFileSearchCallInProgress(_) => "response.file_search.in_progress"@,
        ResponseStreamEvent::ResponseFileSearchCallSearching(_) => "response.file_search.searching"@,
        ResponseStreamEvent::ResponseFunctionCallArgumentsDelta(_) => "response.function_call_arguments.delta"@,
        ResponseStreamEvent::ResponseFunctionCallArgumentsDone(_) => "response.function_call_arguments.done"@,
        ResponseStreamEvent::ResponseInProgress(_) => "response.in_progress"@,
        ResponseStreamEvent::ResponseFailed(_) => "response.failed"@,
        ResponseStreamEvent::ResponseIncomplete(_) => "response.incomplete"@,
        ResponseStreamEvent::ResponseOutputItemAdded(_) => "response.output_item.added"@,
        ResponseStreamEvent::ResponseOutputItemDone(_) => "response.output_item.done"@,
        ResponseStreamEvent::ResponseReasoningSummaryPartAdded(_) => "response.reasoning_summary_part.added"@,
        ResponseStreamEvent::ResponseReasoningSummaryPartDone(_) => "response.reasoning_summary_part.done"@,
        ResponseStreamEvent::ResponseReasoningSummaryTextDelta(_) => "response.reasoning_summary_text.delta"@,
        ResponseStreamEvent::ResponseReasoningSummaryTextDone(_) => "response.reasoning_summary_text.done"@,
        ResponseStreamEvent::ResponseRefusalDelta(_) => "response.refusal.delta"@,
        ResponseStreamEvent::ResponseRefusalDone(_) => "response.refusal.done"@,
        ResponseStreamEvent::ResponseReasoningDelta(_) => "response.reasoning_delta"@,
        ResponseStreamEvent::ResponseReasoningDone(_) => "response.reasoning_done"@,
        ResponseStreamEvent::ResponseReasoningSummaryDelta(_) => "response.reasoning_summary_delta"@,
        ResponseStreamEvent::ResponseReasoningSummaryDone(_) => "response.reasoning_summary_done"@,
        ResponseStreamEvent::ResponseTextDelta(_) => "response.output_text.delta"@,
        ResponseStreamEvent::ResponseTextDone(_) => "response.output_text.done"@,
        ResponseStreamEvent::ResponseWebSearchCallCompleted(_) => "response.web_search.completed"@,
        ResponseStreamEvent::ResponseWebSearchCallInProgress(_) => "response.web_search.in_progress"@,
        ResponseStreamEvent::ResponseWebSearchCallSearching(_) => "response.web_search.searching"@,
        ResponseStreamEvent::ResponseImageGenerationCallCompleted(_) => "response.image_generation.completed"@,
        ResponseStreamEvent::ResponseImageGenerationCallGenerating(_) => "response.image_generation.generating"@,
        ResponseStreamEvent::ResponseImageGenerationCallInProgress(_) => "response.image_generation.in_progress"@,
        ResponseStreamEvent::ResponseImageGenerationCallPartialImage(_) => "response.image_generation.partial_image"@,
        ResponseStreamEvent::ResponseMcpCallArgumentsDelta(_) => "response.mcp.arguments.delta"@,
        ResponseStreamEvent::ResponseMcpCallArgumentsDone(_) => "response.mcp.arguments.done"@,
        ResponseStreamEvent::ResponseMcpCallCompleted(_) => "response.mcp.completed"@,
        ResponseStreamEvent::ResponseMcpCallFailed(_) => "response.mcp.failed"@,
        ResponseStreamEvent::ResponseMcpCallInProgress(_) => "response.mcp.in_progress"@,
        ResponseStreamEvent::ResponseMcpListToolsCompleted(_) => "response.mcp.list_tools.completed"@,
        ResponseStreamEvent::ResponseMcpListToolsFailed(_) => "response.mcp.list_tools.failed"@,
        ResponseStreamEvent::ResponseMcpListToolsInProgress(_) => "response.mcp.list_tools.in_progress"@,
        ResponseStreamEvent::ResponseOutputTextAnnotationAdded(_) => "response.output_text.annotation.added"@,
        ResponseStreamEvent::ResponseQueued(_) => "response.queued"@,
    }
}

/// What a decoded event states of the payload text it came from: every
/// typed field equals the named reading of its wire key, and every raw
/// sub-document field was present.
pub open spec fn event_wf(e: ResponseStreamEvent, t: Seq<char>) -> bool {
    match e {
        ResponseStreamEvent::ResponseAudioDelta(ev) => {
            &&& json_str_field(t, "delta"@) == Some(ev.delta@)
            &&& json_u64_field(t, "sequence_number"@) == Some(ev.sequence_number)
        },
        ResponseStreamEvent::ResponseAudioDone(ev) => {
            &&& json_u64_field(t, "sequence_number"@) == Some(ev.sequence_number)
        },
        ResponseStreamEvent::ResponseAudioTranscriptDelta(ev) => {
            &&& json_str_field(t, "delta"@) == Some(ev.delta@)
            &&& json_u64_field(t, "sequence_number"@) == Some(ev.sequence_number)
        },
        ResponseStreamEvent::ResponseAudioTranscriptDone(ev) => {
            &&& json_u64_field(t, "sequence_number"@) == Some(ev.sequence_number)
        },
        ResponseStreamEvent::ResponseCodeInterpreterCallCodeDelta(ev) => {
            &&& json_str_field(t, "delta"@) == Some(ev.delta@)
            &&& json_str_field(t, "item_id"@) == Some(ev.item_id@)
            &&& json_u64_field(t, "output_index"@) == Some(ev.output_index)
            &&& json_u64_field(t, "sequence_number"@) == Some(ev.sequence_number)
        },
        ResponseStreamEvent::ResponseCodeInterpreterCallCodeDone(ev) => {
            &&& json_str_field(t, "code"@) == Some(ev.code@)
            &&& json_str_field(t, "item_id"@) == Some(ev.item_id@)
            &&& json_u64_field(t, "output_index"@) == Some(ev.output_index)
            &&& json_u64_field(t, "sequence_number"@) == Some(ev.sequence_number)
        },
        ResponseStreamEvent::ResponseCodeInterpreterCallCompleted(ev) => {
            &&& json_str_field(t, "item_id"@) == Some(ev.item_id@)
            &&& json_u64_field(t, "output_index"@) == Some(ev.output_index)
            &&& json_u64_field(t, "sequence_number"@) == Some(ev.sequence_number)
        },
        ResponseStreamEvent::ResponseCodeInterpreterCallInProgress(ev) => {
            &&& json_str_field(t, "item_id"@) == Some(ev.item_id@)
            &&& json_u64_field(t, "output_index"@) == Some(ev.output_index)
            &&& json_u64_field(t, "sequence_number"@) == Some(ev.sequence_number)
        },
        ResponseStreamEvent::ResponseCodeInterpreterCallInterpreting(ev) => {
            &&& json_str_field(t, "item_id"@) == Some(ev.item_id@)
            &&& json_u64_field(t, "output_index"@) == Some(ev.output_index)
            &&& json_u64_field(t, "sequence_number"@) == Some(ev.sequence_number)
        },
        ResponseStreamEvent::ResponseCompleted(ev) => {
            &&& json_has_field(t, "response"@)
            &&& json_u64_field(t, "sequence_number"@) == Some(ev.sequence_number)
        },
        ResponseStreamEvent::ResponseContentPartAdded(ev) => {
            &&& json_u64_field(t, "content_index"@) == Some(ev.content_index)
            &&& json_str_field(t, "item_id"@) == Some(ev.item_id@)
            &&& json_u64_field(t, "output_index"@) == Some(ev.output_index)
            &&& json_has_field(t, "part"@)
            &&& json_u64_field(t, "sequence_number"@) == Some(ev.sequence_number)
        },
        ResponseStreamEvent::ResponseContentPartDone(ev) => {
            &&& json_u64_field(t, "content_index"@) == Some(ev.content_index)
            &&& json_str_field(t, "item_id"@) == Some(ev.item_id@)
            &&& json_u64_field(t, "output_index"@) == Some(ev.output_index)
            &&& json_has_field(t, "part"@)
            &&& json_u64_field(t, "sequence_number"@) == Some(ev.sequence_number)
        },
        ResponseStreamEvent::ResponseCreated(ev) => {
            &&& (ev.nonce matches Some(s) ==> json_str_field(t, "nonce"@) == Some(s@))
            &&& ((ev.nonce is Some) <==> json_str_field(t, "nonce"@) is Some)
            &&& json_has_field(t, "response"@)
            &&& json_u64_field(t, "sequence_number"@) == Some(ev.sequence_number)
        },
        ResponseStreamEvent::Error(ev) => {
            &&& (ev.code matches Some(s) ==> json_str_field(t, "code"@) == Some(s@))
            &&& ((ev.code is Some) <==> json_str_field(t, "code"@) is Some)
            &&& json_str_field(t, "message"@) == Some(ev.message@)
            &&& (ev.param matches Some(s) ==> json_str_field(t, "param"@) == Some(s@))
            &&& ((ev.param is Some) <==> json_str_field(t, "param"@) is Some)
            &&& json_u64_field(t, "sequence_number"@) == Some(ev.sequence_number)
        },
        ResponseStreamEvent::ResponseFileSearchCallCompleted(ev) => {
            &&& json_str_field(t, "item_id"@) == Some(ev.item_id@)
            &&& json_u64_field(t, "output_index"@) == Some(ev.output_index)
            &&& json_u64_field(t, "sequence_number"@) == Some(ev.sequence_number)
        },
        ResponseStreamEvent::ResponseFileSearchCallInProgress(ev) => {
            &&& json_str_field(t, "item_id"@) == Some(ev.item_id@)
            &&& json_u64_field(t, "output_index"@) == Some(ev.output_index)
            &&& json_u64_field(t, "sequence_number"@) == Some(ev.sequence_number)
        },
        ResponseStreamEvent::ResponseFileSearchCallSearching(ev) => {
            &&& json_str_field(t, "item_id"@) == Some(ev.item_id@)
            &&& json_u64_field(t, "output_index"@) == Some(ev.output_index)
            &&& json_u64_field(t, "sequence_number"@) == Some(ev.sequence_number)
        },
        ResponseStreamEvent::ResponseFunctionCallArgumentsDelta(ev) => {
            &&& json_str_field(t, "delta"@) == Some(ev.delta@)
            &&& json_str_field(t, "item_id"@) == Some(ev.item_id@)
            &&& json_u64_field(t, "output_index"@) == Some(ev.output_index)
            &&& json_u64_field(t, "sequence_number"@) == Some(ev.sequence_number)
        },
        ResponseStreamEvent::ResponseFunctionCallArgumentsDone(ev) => {
            &&& json_str_field(t, "arguments"@) == Some(ev.arguments@)
            &&& json_str_field(t, "item_id"@) == Some(ev.item_id@)
            &&& json_u64_field(t, "output_index"@) == Some(ev.output_index)
            &&& json_u64_field(t, "sequence_number"@) == Some(ev.sequence_number)
        },
        ResponseStreamEvent::ResponseInProgress(ev) => {
            &&& json_has_field(t, "response"@)
            &&& json_u64_field(t, "sequence_number"@) == Some(ev.sequence_number)
        },
        ResponseStreamEvent::ResponseFailed(ev) => {
            &&& json_has_field(t, "response"@)
            &&& json_u64_field(t, "sequence_number"@) == Some(ev.sequence_number)
        },
        ResponseStreamEvent::ResponseIncomplete(ev) => {
            &&& json_has_field(t, "response"@)
            &&& json_u64_field(t, "sequence_number"@) == Some(ev.sequence_number)
        },
        ResponseStreamEvent::ResponseOutputItemAdded(ev) => {
            &&& json_has_field(t, "item"@)
            &&& json_u64_field(t, "output_index"@) == Some(ev.output_index)
            &&& json_u64_field(t, "sequence_number"@) == Some(ev.sequence_number)
        },
        ResponseStreamEvent::ResponseOutputItemDone(ev) => {
            &&& json_has_field(t, "item"@)
            &&& json_u64_field(t, "output_index"@) == Some(ev.output_index)
            &&& json_u64_field(t, "sequence_number"@) == Some(ev.sequence_number)
        },
        ResponseStreamEvent::ResponseReasoningSummaryPartAdded(ev) => {
            &&& json_str_field(t, "item_id"@) == Some(ev.item_id@)
            &&& json_u64_field(t, "output_index"@) == Some(ev.output_index)
            &&& json_nested_str_field(t, "part"@, "text"@) == Some(ev.part.text@)
            &&& json_u64_field(t, "sequence_number"@) == Some(ev.sequence_number)
            &&& json_u64_field(t, "summary_index"@) == Some(ev.summary_index)
        },
        ResponseStreamEvent::ResponseReasoningSummaryPartDone(ev) => {
            &&& json_str_field(t, "item_id"@) == Some(ev.item_id@)
            &&& json_u64_field(t, "output_index"@) == Some(ev.output_index)
            &&& json_nested_str_field(t, "part"@, "text"@) == Some(ev.part.text@)
            &&& json_u64_field(t, "sequence_number"@) == Some(ev.sequence_number)
            &&& json_u64_field(t, "summary_index"@) == Some(ev.summary_index)
        },
        ResponseStreamEvent::ResponseReasoningSummaryTextDelta(ev) => {
            &&& json_str_field(t, "delta"@) == Some(ev.delta@)
            &&& json_str_field(t, "item_id"@) == Some(ev.item_id@)
            &&& json_u64_field(t, "output_index"@) == Some(ev.output_index)
            &&& json_u64_field(t, "sequence_number"@) == Some(ev.sequence_number)
            &&& json_u64_field(t, "summary_index"@) == Some(ev.summary_index)
        },
        ResponseStreamEvent::ResponseReasoningSummaryTextDone(ev) => {
            &&& json_str_field(t, "item_id"@) == Some(ev.item_id@)
            &&& json_u64_field(t, "output_index"@) == Some(ev.output_index)
            &&& json_u64_field(t, "sequence_number"@) == Some(ev.sequence_number)
            &&& json_u64_field(t, "summary_index"@) == Some(ev.summary_index)
            &&& json_str_field(t, "text"@) == Some(ev.text@)
        },
        ResponseStreamEvent::ResponseRefusalDelta(ev) => {
            &&& json_u64_field(t, "content_index"@) == Some(ev.content_index)
            &&& json_str_field(t, "delta"@) == Some(ev.delta@)
            &&& json_str_field(t, "item_id"@) == Some(ev.item_id@)
            &&& json_u64_field(t, "output_index"@) == Some(ev.output_index)
            &&& json_u64_field(t, "sequence_number"@) == Some(ev.sequence_number)
        },
        ResponseStreamEvent::ResponseRefusalDone(ev) => {
            &&& json_u64_field(t, "content_index"@) == Some(ev.content_index)
            &&& json_str_field(t, "item_id"@) == Some(ev.item_id@)
            &&& json_u64_field(t, "output_index"@) == Some(ev.output_index)
            &&& json_str_field(t, "refusal"@) == Some(ev.refusal@)
            &&& json_u64_field(t, "sequence_number"@) == Some(ev.sequence_number)
        },
        ResponseStreamEvent::ResponseReasoningDelta(ev) => {
            &&& json_u64_field(t, "content_index"@) == Some(ev.content_index)
            &&& json_has_field(t, "delta"@)
            &&& json_str_field(t, "item_id"@) == Some(ev.item_id@)
            &&& json_u64_field(t, "output_index"@) == Some(ev.output_index)
            &&& json_u64_field(t, "sequence_number"@) == Some(ev.sequence_number)
        },
        ResponseStreamEvent::ResponseReasoningDone(ev) => {
            &&& json_u64_field(t, "content_index"@) == Some(ev.content_index)
            &&& json_str_field(t, "item_id"@) == Some(ev.item_id@)
            &&& json_u64_field(t, "output_index"@) == Some(ev.output_index)
            &&& json_u64_field(t, "sequence_number"@) == Some(ev.sequence_number)
            &&& json_str_field(t, "text"@) == Some(ev.text@)
        },
        ResponseStreamEvent::ResponseReasoningSummaryDelta(ev) => {
            &&& json_has_field(t, "delta"@)
            &&& json_str_field(t, "item_id"@) == Some(ev.item_id@)
            &&& json_u64_field(t, "output_index"@) == Some(ev.output_index)
            &&& json_u64_field(t, "sequence_number"@) == Some(ev.sequence_number)
            &&& json_u64_field(t, "summary_index"@) == Some(ev.summary_index)
        },
        ResponseStreamEvent::ResponseReasoningSummaryDone(ev) => {
            &&& json_str_field(t, "item_id"@) == Some(ev.item_id@)
            &&& json_u64_field(t, "output_index"@) == Some(ev.output_index)
            &&& json_u64_field(t, "sequence_number"@) == Some(ev.sequence_number)
            &&& json_u64_field(t, "summary_index"@) == Some(ev.summary_index)
            &&& json_str_field(t, "text"@) == Some(ev.text@)
        },
        ResponseStreamEvent::ResponseTextDelta(ev) => {
            &&& json_u64_field(t, "content_index"@) == Some(ev.content_index)
            &&& json_str_field(t, "delta"@) == Some(ev.delta@)
            &&& json_str_field(t, "item_id"@) == Some(ev.item_id@)
            &&& json_u64_field(t, "output_index"@) == Some(ev.output_index)
            &&& json_u64_field(t, "sequence_number"@) == Some(ev.sequence_number)
        },
        ResponseStreamEvent::ResponseTextDone(ev) => {
            &&& json_u64_field(t, "content_index"@) == Some(ev.content_index)
            &&& json_str_field(t, "item_id"@) == Some(ev.item_id@)
            &&& json_u64_field(t, "output_index"@) == Some(ev.output_index)
            &&& json_u64_field(t, "sequence_number"@) == Some(ev.sequence_number)
            &&& json_str_field(t, "text"@) == Some(ev.text@)
        },
        ResponseStreamEvent::ResponseWebSearchCallCompleted(ev) => {
            &&& json_str_field(t, "item_id"@) == Some(ev.item_id@)
            &&& json_u64_field(t, "output_index"@) == Some(ev.output_index)
            &&& json_u64_field(t, "sequence_number"@) == Some(ev.sequence_number)
        },
        ResponseStreamEvent::ResponseWebSearchCallInProgress(ev) => {
            &&& json_str_field(t, "item_id"@) == Some(ev.item_id@)
            &&& json_u64_field(t, "output_index"@) == Some(ev.output_index)
            &&& json_u64_field(t, "sequence_number"@) == Some(ev.sequence_number)
        },
        ResponseStreamEvent::ResponseWebSearchCallSearching(ev) => {
            &&& json_str_field(t, "item_id"@) == Some(ev.item_id@)
            &&& json_u64_field(t, "output_index"@) == Some(ev.output_index)
            &&& json_u64_field(t, "sequence_number"@) == Some(ev.sequence_number)
        },
        ResponseStreamEvent::ResponseImageGenerationCallCompleted(ev) => {
            &&& json_str_field(t, "item_id"@) == Some(ev.item_id@)
            &&& json_u64_field(t, "output_index"@) == Some(ev.output_index)
            &&& json_u64_field(t, "sequence_number"@) == Some(ev.sequence_number)
        },
        ResponseStreamEvent::ResponseImageGenerationCallGenerating(ev) => {
            &&& json_str_field(t, "item_id"@) == Some(ev.item_id@)
            &&& json_u64_field(t, "output_index"@) == Some(ev.output_index)
            &&& json_u64_field(t, "sequence_number"@) == Some(ev.sequence_number)
        },
        ResponseStreamEvent::ResponseImageGenerationCallInProgress(ev) => {
            &&& json_str_field(t, "item_id"@) == Some(ev.item_id@)
            &&& json_u64_field(t, "output_index"@) == Some(ev.output_index)
            &&& json_u64_field(t, "sequence_number"@) == Some(ev.sequence_number)
        },
        ResponseStreamEvent::ResponseImageGenerationCallPartialImage(ev) => {
            &&& json_str_field(t, "item_id"@) == Some(ev.item_id@)
            &&& json_u64_field(t, "output_index"@) == Some(ev.output_index)
            &&& json_str_field(t, "partial_image_b64"@) == Some(ev.partial_image_b64@)
            &&& json_u64_field(t, "partial_image_index"@) == Some(ev.partial_image_index)
            &&& json_u64_field(t, "sequence_number"@) == Some(ev.sequence_number)
        },
        ResponseStreamEvent::ResponseMcpCallArgumentsDelta(ev) => {
            &&& json_has_field(t, "delta"@)
            &&& json_str_field(t, "item_id"@) == Some(ev.item_id@)
            &&& json_u64_field(t, "output_index"@) == Some(ev.output_index)
            &&& json_u64_field(t, "sequence_number"@) == Some(ev.sequence_number)
        },
        ResponseStreamEvent::ResponseMcpCallArgumentsDone(ev) => {
            &&& json_has_field(t, "arguments"@)
            &&& json_str_field(t, "item_id"@) == Some(ev.item_id@)
            &&& json_u64_field(t, "output_index"@) == Some(ev.output_index)
            &&& json_u64_field(t, "sequence_number"@) == Some(ev.sequence_number)
        },
        ResponseStreamEvent::ResponseMcpCallCompleted(ev) => {
            &&& json_u64_field(t, "sequence_number"@) == Some(ev.sequence_number)
        },
        ResponseStreamEvent::ResponseMcpCallFailed(ev) => {
            &&& json_u64_field(t, "sequence_number"@) == Some(ev.sequence_number)
        },
        ResponseStreamEvent::ResponseMcpCallInProgress(ev) => {
            &&& json_str_field(t, "item_id"@) == Some(ev.item_id@)
            &&& json_u64_field(t, "output_index"@) == Some(ev.output_index)
            &&& json_u64_field(t, "sequence_number"@) == Some(ev.sequence_number)
        },
        ResponseStreamEvent::ResponseMcpListToolsCompleted(ev) => {
            &&& json_u64_field(t, "sequence_number"@) == Some(ev.sequence_number)
        },
        ResponseStreamEvent::ResponseMcpListToolsFailed(ev) => {
            &&& json_u64_field(t, "sequence_number"@) == Some(ev.sequence_number)
        },
        ResponseStreamEvent::ResponseMcpListToolsInProgress(ev) => {
            &&& json_u64_field(t, "sequence_number"@) == Some(ev.sequence_number)
        },
        ResponseStreamEvent::ResponseOutputTextAnnotationAdded(ev) => {
            &&& json_has_field(t, "annotation"@)
            &&& json_u64_field(t, "annotation_index"@) == Some(ev.annotation_index)
            &&& json_u64_field(t, "content_index"@) == Some(ev.content_index)
            &&& json_str_field(t, "item__id"@) == Some(ev.item_id@)
            &&& json_u64_field(t, "output_index"@) == Some(ev.output_index)
            &&& json_u64_field(t, "sequence_number"@) == Some(ev.sequence_number)
        },
        ResponseStreamEvent::ResponseQueued(ev) => {
            &&& json_has_field(t, "response"@)
            &&& json_u64_field(t, "sequence_number"@) == Some(ev.sequence_number)
        },
    }
}

/// Whether the payload text holds every field the event kind named by `d`
/// requires, for the kinds of this slice.
pub open spec fn event_decodable_a(d: Seq<char>, t: Seq<char>) -> bool {
    if d == "response.audio.delta"@ {
        json_str_field(t, "delta"@) is Some
            && json_u64_field(t, "sequence_number"@) is Some
    } else if d == "response.audio.done"@ {
        json_u64_field(t, "sequence_number"@) is Some
    } else if d == "response.audio_transcript.delta"@ {
        json_str_field(t, "delta"@) is Some
            && json_u64_field(t, "sequence_number"@) is Some
    } else if d == "response.audio_transcript.done"@ {
        json_u64_field(t, "sequence_number"@) is Some
    } else if d == "response.code_interpreter.code.delta"@ {
        json_str_field(t, "delta"@) is Some
            && json_str_field(t, "item_id"@) is Some
            && json_u64_field(t, "output_index"@) is Some
            && json_u64_field(t, "sequence_number"@) is Some
    } else if d == "response.code_interpreter.code.done"@ {
        json_str_field(t, "code"@) is Some
            && json_str_field(t, "item_id"@) is Some
            && json_u64_field(t, "output_index"@) is Some
            && json_u64_field(t, "sequence_number"@) is Some
    } else if d == "response.code_interpreter.completed"@ {
        json_str_field(t, "item_id"@) is Some
            && json_u64_field(t, "output_index"@) is Some
            && json_u64_field(t, "sequence_number"@) is Some
    } else if d == "response.code_interpreter.in_progress"@ {
        json_str_field(t, "item_id"@) is Some
            && json_u64_field(t, "output_index"@) is Some
            && json_u64_field(t, "sequence_number"@) is Some
    } else if d == "response.code_interpreter.interpreting"@ {
        json_str_field(t, "item_id"@) is Some
            && json_u64_field(t, "output_index"@) is Some
            && json_u64_field(t, "sequence_number"@) is Some
    } else if d == "response.completed"@ {
        json_has_field(t, "response"@)
            && json_u64_field(t, "sequence_number"@) is Some
    } else if d == "response.content_part.added"@ {
        json_u64_field(t, "content_index"@) is Some
            && json_str_field(t, "item_id"@) is Some
            && json_u64_field(t, "output_index"@) is Some
            && json_has_field(t, "part"@)
            && json_u64_field(t, "sequence_number"@) is Some
    } else if d == "response.content_part.done"@ {
        json_u64_field(t, "content_index"@) is Some
            && json_str_field(t, "item_id"@) is Some
            && json_u64_field(t, "output_index"@) is Some
            && json_has_field(t, "part"@)
            && json_u64_field(t, "sequence_number"@) is Some
    } else if d == "response.created"@ {
        !opt_str_fault(t, "nonce"@)
            && json_has_field(t, "response"@)
            && json_u64_field(t, "sequence_number"@) is Some
    } else if d == "error"@ {
        !opt_str_fault(t, "code"@)
            && json_str_field(t, "message"@) is Some
            && !opt_str_fault(t, "param"@)
            && json_u64_field(t, "sequence_number"@) is Some
    } else if d == "response.file_search.completed"@ {
        json_str_field(t, "item_id"@) is Some
            && json_u64_field(t, "output_index"@) is Some
            && json_u64_field(t, "sequence_number"@) is Some
    } else if d == "response.file_search.in_progress"@ {
        json_str_field(t, "item_id"@) is Some
            && json_u64_field(t, "output_index"@) is Some
            && json_u64_field(t, "sequence_number"@) is Some
    } else if d == "response.file_search.searching"@ {
        json_str_field(t, "item_id"@) is Some
            && json_u64_field(t, "output_index"@) is Some
            && json_u64_field(t, "sequence_number"@) is Some
    } else if d == "response.function_call_arguments.delta"@ {
        json_str_field(t, "delta"@) is Some
            && json_str_field(t, "item_id"@) is Some
            && json_u64_field(t, "output_index"@) is Some
            && json_u64_field(t, "sequence_number"@) is Some
    } else {
        false
    }
}

/// Dispatch over one slice of the discriminator set; `None` means the
/// discriminator is not in this slice.
#[verifier::rlimit(100)]
fn decode_event_group_a(discr: &str, text: &String) -> (r: Option<
    Result<ResponseStreamEvent, DecodeError>,
>)
    ensures
        (r is None) == !event_type_group_a(discr@),
        r matches Some(res) ==> ((res is Ok) == event_decodable_a(discr@, text@)),
        r matches Some(res) ==> (res matches Ok(ev) ==> event_type_of(ev) == discr@
            && event_wf(ev, text@)),
        r matches Some(res) ==> (res matches Err(e) ==> e.raw@ == text@ && (e.cause
            == DecodeCause::MissingField || e.cause == DecodeCause::WrongType)),
{
    if str_eq(discr, "response.audio.delta") {
        match decode_response_audio_delta(text) {
            Ok(ev) => Some(Ok(ResponseStreamEvent::ResponseAudioDelta(ev))),
            Err(e) => Some(Err(e)),
        }
    } else
    if str_eq(discr, "response.audio.done") {
        match decode_response_audio_done(text) {
            Ok(ev) => Some(Ok(ResponseStreamEvent::ResponseAudioDone(ev))),
            Err(e) => Some(Err(e)),
        }
    } else
    if str_eq(discr, "response.audio_transcript.delta") {
        match decode_response_audio_transcript_delta(text) {
            Ok(ev) => Some(Ok(ResponseStreamEvent::ResponseAudioTranscriptDelta(ev))),
            Err(e) => Some(Err(e)),
        }
    } else
    if str_eq(discr, "response.audio_transcript.done") {
        match decode_response_audio_transcript_done(text) {
            Ok(ev) => Some(Ok(ResponseStreamEvent::ResponseAudioTranscriptDone(ev))),
            Err(e) => Some(Err(e)),
        }
    } else
    if str_eq(discr, "response.code_interpreter.code.delta") {
        match decode_response_code_interpreter_call_code_delta(text) {
            Ok(ev) => Some(Ok(ResponseStreamEvent::ResponseCodeInterpreterCallCodeDelta(ev))),
            Err(e) => Some(Err(e)),
        }
    } else
    if str_eq(discr, "response.code_interpreter.code.done") {
        match decode_response_code_interpreter_call_code_done(text) {
            Ok(ev) => Some(Ok(ResponseStreamEvent::ResponseCodeInterpreterCallCodeDone(ev))),
            Err(e) => Some(Err(e)),
        }
    } else
    if str_eq(discr, "response.code_interpreter.completed") {
        match decode_response_code_interpreter_call_completed(text) {
            Ok(ev) => Some(Ok(ResponseStreamEvent::ResponseCodeInterpreterCallCompleted(ev))),
            Err(e) => Some(Err(e)),
        }
    } else
    if str_eq(discr, "response.code_interpreter.in_progress") {
        match decode_response_code_interpreter_call_in_progress(text) {
            Ok(ev) => Some(Ok(ResponseStreamEvent::ResponseCodeInterpreterCallInProgress(ev))),
            Err(e) => Some(Err(e)),
        }
    } else
    if str_eq(discr, "response.code_interpreter.interpreting") {
        match decode_response_code_interpreter_call_interpreting(text) {
            Ok(ev) => Some(Ok(ResponseStreamEvent::ResponseCodeInterpreterCallInterpreting(ev))),
            Err(e) => Some(Err(e)),
        }
    } else
    if str_eq(discr, "response.completed") {
        match decode_response_completed(text) {
            Ok(ev) => Some(Ok(ResponseStreamEvent::ResponseCompleted(ev))),
            Err(e) => Some(Err(e)),
        }
    } else
    if str_eq(discr, "response.content_part.added") {
        match decode_response_content_part_added(text) {
            Ok(ev) => Some(Ok(ResponseStreamEvent::ResponseContentPartAdded(ev))),
            Err(e) => Some(Err(e)),
        }
    } else
    if str_eq(discr, "response.content_part.done") {
        match decode_response_content_part_done(text) {
            Ok(ev) => Some(Ok(ResponseStreamEvent::ResponseContentPartDone(ev))),
            Err(e) => Some(Err(e)),
        }
    } else
    if str_eq(discr, "response.created") {
        match decode_response_created(text) {
            Ok(ev) => Some(Ok(ResponseStreamEvent::ResponseCreated(ev))),
            Err(e) => Some(Err(e)),
        }
    } else
    if str_eq(discr, "error") {
        match decode_response_error(text) {
            Ok(ev) => Some(Ok(ResponseStreamEvent::Error(ev))),
            Err(e) => Some(Err(e)),
        }
    } else
    if str_eq(discr, "response.file_search.completed") {
        match decode_response_file_search_call_completed(text) {
            Ok(ev) => Some(Ok(ResponseStreamEvent::ResponseFileSearchCallCompleted(ev))),
            Err(e) => Some(Err(e)),
        }
    } else
    if str_eq(discr, "response.file_search.in_progress") {
        match decode_response_file_search_call_in_progress(text) {
            Ok(ev) => Some(Ok(ResponseStreamEvent::ResponseFileSearchCallInProgress(ev))),
            Err(e) => Some(Err(e)),
        }
    } else
    if str_eq(discr, "response.file_search.searching") {
        match decode_response_file_search_call_searching(text) {
            Ok(ev) => Some(Ok(ResponseStreamEvent::ResponseFileSearchCallSearching(ev))),
            Err(e) => Some(Err(e)),
        }
    } else
    if str_eq(discr, "response.function_call_arguments.delta") {
        match decode_response_function_call_arguments_delta(text) {
            Ok(ev) => Some(Ok(ResponseStreamEvent::ResponseFunctionCallArgumentsDelta(ev))),
            Err(e) => Some(Err(e)),
        }
    } else {
        None
    }
}

/// Whether the payload text holds every field the event kind named by `d`
/// requires, for the kinds of this slice.
pub open spec fn event_decodable_b(d: Seq<char>, t: Seq<char>) -> bool {
    if d == "response.function_call_arguments.done"@ {
        json_str_field(t, "arguments"@) is Some
            && json_str_field(t, "item_id"@) is Some
            && json_u64_field(t, "output_index"@) is Some
            && json_u64_field(t, "sequence_number"@) is Some
    } else if d == "response.in_progress"@ {
        json_has_field(t, "response"@)
            && json_u64_field(t, "sequence_number"@) is Some
    } else if d == "response.failed"@ {
        json_has_field(t, "response"@)
            && json_u64_field(t, "sequence_number"@) is Some
    } else if d == "response.incomplete"@ {
        json_has_field(t, "response"@)
            && json_u64_field(t, "sequence_number"@) is Some
    } else if d == "response.output_item.added"@ {
        json_has_field(t, "item"@)
            && json_u64_field(t, "output_index"@) is Some
            && json_u64_field(t, "sequence_number"@) is Some
    } else if d == "response.output_item.done"@ {
        json_has_field(t, "item"@)
            && json_u64_field(t, "output_index"@) is Some
            && json_u64_field(t, "sequence_number"@) is Some
    } else if d == "response.reasoning_summary_part.added"@ {
        json_str_field(t, "item_id"@) is Some
            && json_u64_field(t, "output_index"@) is Some
            && json_nested_str_field(t, "part"@, "text"@) is Some
            && json_u64_field(t, "sequence_number"@) is Some
            && json_u64_field(t, "summary_index"@) is Some
    } else if d == "response.reasoning_summary_part.done"@ {
        json_str_field(t, "item_id"@) is Some
            && json_u64_field(t, "output_index"@) is Some
            && json_nested_str_field(t, "part"@, "text"@) is Some
            && json_u64_field(t, "sequence_number"@) is Some
            && json_u64_field(t, "summary_index"@) is Some
    } else if d == "response.reasoning_summary_text.delta"@ {
        json_str_field(t, "delta"@) is Some
            && json_str_field(t, "item_id"@) is Some
            && json_u64_field(t, "output_index"@) is Some
            && json_u64_field(t, "sequence_number"@) is Some
            && json_u64_field(t, "summary_index"@) is Some
    } else if d == "response.reasoning_summary_text.done"@ {
        json_str_field(t, "item_id"@) is Some
            && json_u64_field(t, "output_index"@) is Some
            && json_u64_field(t, "sequence_number"@) is Some
            && json_u64_field(t, "summary_index"@) is Some
            && json_str_field(t, "text"@) is Some
    } else if d == "response.refusal.delta"@ {
        json_u64_field(t, "content_index"@) is Some
            && json_str_field(t, "delta"@) is Some
            && json_str_field(t, "item_id"@) is Some
            && json_u64_field(t, "output_index"@) is Some
            && json_u64_field(t, "sequence_number"@) is Some
    } else if d == "response.refusal.done"@ {
        json_u64_field(t, "content_index"@) is Some
            && json_str_field(t, "item_id"@) is Some
            && json_u64_field(t, "output_index"@) is Some
            && json_str_field(t, "refusal"@) is Some
            && json_u64_field(t, "sequence_number"@) is Some
    } else if d == "response.reasoning_delta"@ {
        json_u64_field(t, "content_index"@) is Some
            && json_has_field(t, "delta"@)
            && json_str_field(t, "item_id"@) is Some
            && json_u64_field(t, "output_index"@) is Some
            && json_u64_field(t, "sequence_number"@) is Some
    } else if d == "response.reasoning_done"@ {
        json_u64_field(t, "content_index"@) is Some
            && json_str_field(t, "item_id"@) is Some
            && json_u64_field(t, "output_index"@) is Some
            && json_u64_field(t, "sequence_number"@) is Some
            && json_str_field(t, "text"@) is Some
    } else if d == "response.reasoning_summary_delta"@ {
        json_has_field(t, "delta"@)
            && json_str_field(t, "item_id"@) is Some
            && json_u64_field(t, "output_index"@) is Some
            && json_u64_field(t, "sequence_number"@) is Some
            && json_u64_field(t, "summary_index"@) is Some
    } else if d == "response.reasoning_summary_done"@ {
        json_str_field(t, "item_id"@) is Some
            && json_u64_field(t, "output_index"@) is Some
            && json_u64_field(t, "sequence_number"@) is Some
            && json_u64_field(t, "summary_index"@) is Some
            && json_str_field(t, "text"@) is Some
    } else if d == "response.output_text.delta"@ {
        json_u64_field(t, "content_index"@) is Some
            && json_str_field(t, "delta"@) is Some
            && json_str_field(t, "item_id"@) is Some
            && json_u64_field(t, "output_index"@) is Some
            && json_u64_field(t, "sequence_number"@) is Some
    } else if d == "response.output_text.done"@ {
        json_u64_field(t, "content_index"@) is Some
            && json_str_field(t, "item_id"@) is Some
            && json_u64_field(t, "output_index"@) is Some
            && json_u64_field(t, "sequence_number"@) is Some
            && json_str_field(t, "text"@) is Some
    } else {
        false
    }
}

/// Dispatch over one slice of the discriminator set; `None` means the
/// discriminator is not in this slice.
#[verifier::rlimit(100)]
fn decode_event_group_b(discr: &str, text: &String) -> (r: Option<
    Result<ResponseStreamEvent, DecodeError>,
>)
    ensures
        (r is None) == !event_type_group_b(discr@),
        r matches Some(res) ==> ((res is Ok) == event_decodable_b(discr@, text@)),
        r matches Some(res) ==> (res matches Ok(ev) ==> event_type_of(ev) == discr@
            && event_wf(ev, text@)),
        r matches Some(res) ==> (res matches Err(e) ==> e.raw@ == text@ && (e.cause
            == DecodeCause::MissingField || e.cause == DecodeCause::WrongType)),
{
    if str_eq(discr, "response.function_call_arguments.done") {
        match decode_response_function_call_arguments_done(text) {
            Ok(ev) => Some(Ok(ResponseStreamEvent::ResponseFunctionCallArgumentsDone(ev))),
            Err(e) => Some(Err(e)),
        }
    } else
    if str_eq(discr, "response.in_progress") {
        match decode_response_in_progress(text) {
            Ok(ev) => Some(Ok(ResponseStreamEvent::ResponseInProgress(ev))),
            Err(e) => Some(Err(e)),
        }
    } else
    if str_eq(discr, "response.failed") {
        match decode_response_failed(text) {
            Ok(ev) => Some(Ok(ResponseStreamEvent::ResponseFailed(ev))),
            Err(e) => Some(Err(e)),
        }
    } else
    if str_eq(discr, "response.incomplete") {
        match decode_response_incomplete(text) {
            Ok(ev) => Some(Ok(ResponseStreamEvent::ResponseIncomplete(ev))),
            Err(e) => Some(Err(e)),
        }
    } else
    if str_eq(discr, "response.output_item.added") {
        match decode_response_output_item_added(text) {
            Ok(ev) => Some(Ok(ResponseStreamEvent::ResponseOutputItemAdded(ev))),
            Err(e) => Some(Err(e)),
        }
    } else
    if str_eq(discr, "response.output_item.done") {
        match decode_response_output_item_done(text) {
            Ok(ev) => Some(Ok(ResponseStreamEvent::ResponseOutputItemDone(ev))),
            Err(e) => Some(Err(e)),
        }
    } else
    if str_eq(discr, "response.reasoning_summary_part.added") {
        match decode_response_reasoning_summary_part_added(text) {
            Ok(ev) => Some(Ok(ResponseStreamEvent::ResponseReasoningSummaryPartAdded(ev))),
            Err(e) => Some(Err(e)),
        }
    } else
    if str_eq(discr, "response.reasoning_summary_part.done") {
        match decode_response_reasoning_summary_part_done(text) {
            Ok(ev) => Some(Ok(ResponseStreamEvent::ResponseReasoningSummaryPartDone(ev))),
            Err(e) => Some(Err(e)),
        }
    } else
    if str_eq(discr, "response.reasoning_summary_text.delta") {
        match decode_response_reasoning_summary_text_delta(text) {
            Ok(ev) => Some(Ok(ResponseStreamEvent::ResponseReasoningSummaryTextDelta(ev))),
            Err(e) => Some(Err(e)),
        }
    } else
    if str_eq(discr, "response.reasoning_summary_text.done") {
        match decode_response_reasoning_summary_text_done(text) {
            Ok(ev) => Some(Ok(ResponseStreamEvent::ResponseReasoningSummaryTextDone(ev))),
            Err(e) => Some(Err(e)),
        }
    } else
    if str_eq(discr, "response.refusal.delta") {
        match decode_response_refusal_delta(text) {
            Ok(ev) => Some(Ok(ResponseStreamEvent::ResponseRefusalDelta(ev))),
            Err(e) => Some(Err(e)),
        }
    } else
    if str_eq(discr, "response.refusal.done") {
        match decode_response_refusal_done(text) {
            Ok(ev) => Some(Ok(ResponseStreamEvent::ResponseRefusalDone(ev))),
            Err(e) => Some(Err(e)),
        }
    } else
    if str_eq(discr, "response.reasoning_delta") {
        match decode_response_reasoning_delta(text) {
            Ok(ev) => Some(Ok(ResponseStreamEvent::ResponseReasoningDelta(ev))),
            Err(e) => Some(Err(e)),
        }
    } else
    if str_eq(discr, "response.reasoning_done") {
        match decode_response_reasoning_done(text) {
            Ok(ev) => Some(Ok(ResponseStreamEvent::ResponseReasoningDone(ev))),
            Err(e) => Some(Err(e)),
        }
    } else
    if str_eq(discr, "response.reasoning_summary_delta") {
        match decode_response_reasoning_summary_delta(text) {
            Ok(ev) => Some(Ok(ResponseStreamEvent::ResponseReasoningSummaryDelta(ev))),
            Err(e) => Some(Err(e)),
        }
    } else
    if str_eq(discr, "response.reasoning_summary_done") {
        match decode_response_reasoning_summary_done(text) {
            Ok(ev) => Some(Ok(ResponseStreamEvent::ResponseReasoningSummaryDone(ev))),
            Err(e) => Some(Err(e)),
        }
    } else
    if str_eq(discr, "response.output_text.delta") {
        match decode_response_text_delta(text) {
            Ok(ev) => Some(Ok(ResponseStreamEvent::ResponseTextDelta(ev))),
            Err(e) => Some(Err(e)),
        }
    } else
    if str_eq(discr, "response.output_text.done") {
        match decode_response_text_done(text) {
            Ok(ev) => Some(Ok(ResponseStreamEvent::ResponseTextDone(ev))),
            Err(e) => Some(Err(e)),
        }
    } else {
        None
    }
}

/// Whether the payload text holds every field the event kind named by `d`
/// requires, for the kinds of this slice.
pub open spec fn event_decodable_c(d: Seq<char>, t: Seq<char>) -> bool {
    if d == "response.web_search.completed"@ {
        json_str_field(t, "item_id"@) is Some
            && json_u64_field(t, "output_index"@) is Some
            && json_u64_field(t, "sequence_number"@) is Some
    } else if d == "response.web_search.in_progress"@ {
        json_str_field(t, "item_id"@) is Some
            && json_u64_field(t, "output_index"@) is Some
            && json_u64_field(t, "sequence_number"@) is Some
    } else if d == "response.web_search.searching"@ {
        json_str_field(t, "item_id"@) is Some
            && json_u64_field(t, "output_index"@) is Some
            && json_u64_field(t, "sequence_number"@) is Some
    } else if d == "response.image_generation.completed"@ {
        json_str_field(t, "item_id"@) is Some
            && json_u64_field(t, "output_index"@) is Some
            && json_u64_field(t, "sequence_number"@) is Some
    } else if d == "response.image_generation.generating"@ {
        json_str_field(t, "item_id"@) is Some
            && json_u64_field(t, "output_index"@) is Some
            && json_u64_field(t, "sequence_number"@) is Some
    } else if d == "response.image_generation.in_progress"@ {
        json_str_field(t, "item_id"@) is Some
            && json_u64_field(t, "output_index"@) is Some
            && json_u64_field(t, "sequence_number"@) is Some
    } else if d == "response.image_generation.partial_image"@ {
        json_str_field(t, "item_id"@) is Some
            && json_u64_field(t, "output_index"@) is Some
            && json_str_field(t, "partial_image_b64"@) is Some
            && json_u64_field(t, "partial_image_index"@) is Some
            && json_u64_field(t, "sequence_number"@) is Some
    } else if d == "response.mcp.arguments.delta"@ {
        json_has_field(t, "delta"@)
            && json_str_field(t, "item_id"@) is Some
            && json_u64_field(t, "output_index"@) is Some
            && json_u64_field(t, "sequence_number"@) is Some
    } else if d == "response.mcp.arguments.done"@ {
        json_has_field(t, "arguments"@)
            && json_str_field(t, "item_id"@) is Some
            && json_u64_field(t, "output_index"@) is Some
            && json_u64_field(t, "sequence_number"@) is Some
    } else if d == "response.mcp.completed"@ {
        json_u64_field(t, "sequence_number"@) is Some
    } else if d == "response.mcp.failed"@ {
        json_u64_field(t, "sequence_number"@) is Some
    } else if d == "response.mcp.in_progress"@ {
        json_str_field(t, "item_id"@) is Some
            && json_u64_field(t, "output_index"@) is Some
            && json_u64_field(t, "sequence_number"@) is Some
    } else if d == "response.mcp.list_tools.completed"@ {
        json_u64_field(t, "sequence_number"@) is Some
    } else if d == "response.mcp.list_tools.failed"@ {
        json_u64_field(t, "sequence_number"@) is Some
    } else if d == "response.mcp.list_tools.in_progress"@ {
        json_u64_field(t, "sequence_number"@) is Some
    } else if d == "response.output_text.annotation.added"@ {
        json_has_field(t, "annotation"@)
            && json_u64_field(t, "annotation_index"@) is Some
            && json_u64_field(t, "content_index"@) is Some
            && json_str_field(t, "item__id"@) is Some
            && json_u64_field(t, "output_index"@) is Some
            && json_u64_field(t, "sequence_number"@) is Some
    } else if d == "response.queued"@ {
        json_has_field(t, "response"@)
            && json_u64_field(t, "sequence_number"@) is Some
    } else {
        false
    }
}

/// Dispatch over one slice of the discriminator set; `None` means the
/// discriminator is not in this slice.
#[verifier::rlimit(100)]
fn decode_event_group_c(discr: &str, text: &String) -> (r: Option<
    Result<ResponseStreamEvent, DecodeError>,
>)
    ensures
        (r is None) == !event_type_group_c(discr@),
        r matches Some(res) ==> ((res is Ok) == event_decodable_c(discr@, text@)),
        r matches Some(res) ==> (res matches Ok(ev) ==> event_type_of(ev) == discr@
            && event_wf(ev, text@)),
        r matches Some(res) ==> (res matches Err(e) ==> e.raw@ == text@ && (e.cause
            == DecodeCause::MissingField || e.cause == DecodeCause::WrongType)),
{
    if str_eq(discr, "response.web_search.completed") {
        match decode_response_web_search_call_completed(text) {
            Ok(ev) => Some(Ok(ResponseStreamEvent::ResponseWebSearchCallCompleted(ev))),
            Err(e) => Some(Err(e)),
        }
    } else
    if str_eq(discr, "response.web_search.in_progress") {
        match decode_response_web_search_call_in_progress(text) {
            Ok(ev) => Some(Ok(ResponseStreamEvent::ResponseWebSearchCallInProgress(ev))),
            Err(e) => Some(Err(e)),
        }
    } else
    if str_eq(discr, "response.web_search.searching") {
        match decode_response_web_search_call_searching(text) {
            Ok(ev) => Some(Ok(ResponseStreamEvent::ResponseWebSearchCallSearching(ev))),
            Err(e) => Some(Err(e)),
        }
    } else
    if str_eq(discr, "response.image_generation.completed") {
        match decode_response_image_gen_call_completed(text) {
            Ok(ev) => Some(Ok(ResponseStreamEvent::ResponseImageGenerationCallCompleted(ev))),
            Err(e) => Some(Err(e)),
        }
    } else
    if str_eq(discr, "response.image_generation.generating") {
        match decode_response_image_gen_call_generating(text) {
            Ok(ev) => Some(Ok(ResponseStreamEvent::ResponseImageGenerationCallGenerating(ev))),
            Err(e) => Some(Err(e)),
        }
    } else
    if str_eq(discr, "response.image_generation.in_progress") {
        match decode_response_image_gen_call_in_progress(text) {
            Ok(ev) => Some(Ok(ResponseStreamEvent::ResponseImageGenerationCallInProgress(ev))),
            Err(e) => Some(Err(e)),
        }
    } else
    if str_eq(discr, "response.image_generation.partial_image") {
        match decode_response_image_gen_call_partial_image(text) {
            Ok(ev) => Some(Ok(ResponseStreamEvent::ResponseImageGenerationCallPartialImage(ev))),
            Err(e) => Some(Err(e)),
        }
    } else
    if str_eq(discr, "response.mcp.arguments.delta") {
        match decode_response_mcp_call_arguments_delta(text) {
            Ok(ev) => Some(Ok(ResponseStreamEvent::ResponseMcpCallArgumentsDelta(ev))),
            Err(e) => Some(Err(e)),
        }
    } else
    if str_eq(discr, "response.mcp.arguments.done") {
        match decode_response_mcp_call_arguments_done(text) {
            Ok(ev) => Some(Ok(ResponseStreamEvent::ResponseMcpCallArgumentsDone(ev))),
            Err(e) => Some(Err(e)),
        }
    } else
    if str_eq(discr, "response.mcp.completed") {
        match decode_response_mcp_call_completed(text) {
            Ok(ev) => Some(Ok(ResponseStreamEvent::ResponseMcpCallCompleted(ev))),
            Err(e) => Some(Err(e)),
        }
    } else
    if str_eq(discr, "response.mcp.failed") {
        match decode_response_mcp_call_failed(text) {
            Ok(ev) => Some(Ok(ResponseStreamEvent::ResponseMcpCallFailed(ev))),
            Err(e) => Some(Err(e)),
        }
    } else
    if str_eq(discr, "response.mcp.in_progress") {
        match decode_response_mcp_call_in_progress(text) {
            Ok(ev) => Some(Ok(ResponseStreamEvent::ResponseMcpCallInProgress(ev))),
            Err(e) => Some(Err(e)),
        }
    } else
    if str_eq(discr, "response.mcp.list_tools.completed") {
        match decode_response_mcp_list_tools_completed(text) {
            Ok(ev) => Some(Ok(ResponseStreamEvent::ResponseMcpListToolsCompleted(ev))),
            Err(e) => Some(Err(e)),
        }
    } else
    if str_eq(discr, "response.mcp.list_tools.failed") {
        match decode_response_mcp_list_tools_failed(text) {
            Ok(ev) => Some(Ok(ResponseStreamEvent::ResponseMcpListToolsFailed(ev))),
            Err(e) => Some(Err(e)),
        }
    } else
    if str_eq(discr, "response.mcp.list_tools.in_progress") {
        match decode_response_mcp_list_tools_in_progress(text) {
            Ok(ev) => Some(Ok(ResponseStreamEvent::ResponseMcpListToolsInProgress(ev))),
            Err(e) => Some(Err(e)),
        }
    } else
    if str_eq(discr, "response.output_text.annotation.added") {
        match decode_response_output_text_annotation_added(text) {
            Ok(ev) => Some(Ok(ResponseStreamEvent::ResponseOutputTextAnnotationAdded(ev))),
            Err(e) => Some(Err(e)),
        }
    } else
    if str_eq(discr, "response.queued") {
        match decode_response_queued(text) {
            Ok(ev) => Some(Ok(ResponseStreamEvent::ResponseQueued(ev))),
            Err(e) => Some(Err(e)),
        }
    } else {
        None
    }
}

/// Whether a discriminator string names one of the closed set of event kinds.
pub open spec fn known_event_type(s: Seq<char>) -> bool {
    event_type_group_a(s) || event_type_group_b(s) || event_type_group_c(s)
}

/// Whether the payload text holds every field the event kind named by `d`
/// requires.
pub open spec fn event_decodable(d: Seq<char>, t: Seq<char>) -> bool {
    if event_type_group_a(d) {
        event_decodable_a(d, t)
    } else if event_type_group_b(d) {
        event_decodable_b(d, t)
    } else {
        event_decodable_c(d, t)
    }
}

/// Whether a payload text decodes to an event at all: it parses, its `type`
/// field is a string naming a known event kind, and that kind's required
/// fields all read back.
pub open spec fn payload_event_ready(t: Seq<char>) -> bool {
    json_parses(t) && match json_str_field(t, "type"@) {
        Some(d) => known_event_type(d) && event_decodable(d, t),
        None => false,
    }
}

/// Selects and decodes the event variant named by the `type` discriminator.
/// A known discriminator succeeds exactly when its required fields read
/// back; an unrecognized one is a schema mismatch recorded at the path
/// `type`, never skipped.
pub fn decode_event(discr: &str, text: &String) -> (r: Result<
    ResponseStreamEvent,
    DecodeError,
>)
    ensures
        r matches Ok(ev) ==> known_event_type(discr@) && event_type_of(ev) == discr@
            && event_wf(ev, text@),
        known_event_type(discr@) ==> ((r is Ok) == event_decodable(discr@, text@)),
        r matches Err(e) ==> e.raw@ == text@ && e.cause != DecodeCause::Syntax,
        !known_event_type(discr@) ==> (r matches Err(e) && e.cause
            == DecodeCause::UnknownVariant && e.path@ == "type"@),
        r matches Err(e) ==> (e.cause == DecodeCause::UnknownVariant ==> e.path@ == "type"@
            && !known_event_type(discr@)),
{
    if let Some(res) = decode_event_group_a(discr, text) {
        res
    } else if let Some(res) = decode_event_group_b(discr, text) {
        res
    } else if let Some(res) = decode_event_group_c(discr, text) {
        res
    } else {
        Err(field_error("type", DecodeCause::UnknownVariant, text))
    }
}

/// One frame's decoded outcome.
#[derive(Debug)]
pub enum FrameOutcome {
    /// The sentinel payload: the stream ends here, successfully.
    Done,
    /// No payload at all (a keep-alive frame): nothing to yield.
    Skip,
    /// A decoded event.
    Event(ResponseStreamEvent),
    /// The payload did not decode; the stream must not be trusted further.
    Fail(DecodeError),
}

/// Decodes one frame's payload bytes: recognizes the sentinel, skips empty
/// payloads, and otherwise decodes the payload text as a typed event --
/// succeeding exactly when the text parses, names a known event kind, and
/// that kind's required fields read back.
pub fn decode_frame_payload(payload: &Vec<u8>) -> (r: FrameOutcome)
    ensures
        (r is Done) == (payload@ == sentinel()),
        (r is Skip) == (payload@ != sentinel() && payload@.len() == 0),
        (r is Event) == (payload@ != sentinel() && payload@.len() > 0 && payload_event_ready(
            lossy_decode(payload@),
        )),
        r matches FrameOutcome::Event(ev) ==> event_wf(ev, lossy_decode(payload@))
            && json_str_field(lossy_decode(payload@), "type"@) == Some(event_type_of(ev)),
        r matches FrameOutcome::Fail(e) ==> e.raw@ == lossy_decode(payload@),
        r matches FrameOutcome::Fail(e) ==> (e.cause == DecodeCause::Syntax ==> !json_parses(
            lossy_decode(payload@),
        ) && e.path@ == Seq::<char>::empty()),
        payload@ != sentinel() && payload@.len() > 0 && !json_parses(lossy_decode(payload@))
            ==> (r matches FrameOutcome::Fail(e) && e.cause == DecodeCause::Syntax),
        r matches FrameOutcome::Fail(e) ==> (e.cause == DecodeCause::UnknownVariant ==> e.path@
            == "type"@),
{
    if is_sentinel_payload(payload) {
        FrameOutcome::Done
    } else if payload.len() == 0 {
        FrameOutcome::Skip
    } else {
        let text = bytes_to_string_lossy(payload.as_slice());
        if !text_parses(text.as_str()) {
            FrameOutcome::Fail(
                DecodeError { path: String::new(), cause: DecodeCause::Syntax, raw: text },
            )
        } else {
            match get_str_field(text.as_str(), "type") {
                None => {
                    if get_field_exists(text.as_str(), "type") {
                        FrameOutcome::Fail(field_error("type", DecodeCause::WrongType, &text))
                    } else {
                        FrameOutcome::Fail(field_error("type", DecodeCause::MissingField, &text))
                    }
                },
                Some(discr) => match decode_event(discr.as_str(), &text) {
                    Ok(ev) => FrameOutcome::Event(ev),
                    Err(e) => FrameOutcome::Fail(e),
                },
            }
        }
    }
}

} // verus!
