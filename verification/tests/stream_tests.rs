use openai_responses::decode::DecodeCause;
use openai_responses::client::Error;
use openai_responses::models::ResponseStreamEvent;
use openai_responses::stream::EventStream;
use openai_responses::stream::StreamPhase;
use openai_responses::stream::StreamStep;

/// Feeds a whole byte stream in the given chunk sizes and collects what the
/// sequencer yields, ending with a close of the source.
fn run_stream(bytes: &[u8], chunk_sizes: &[usize]) -> (Vec<StreamStep>, StreamPhase) {
    let mut s = EventStream::new();
    let mut steps = Vec::new();
    let mut pos = 0usize;
    let mut sizes = chunk_sizes.iter().cycle();
    loop {
        match s.next_event() {
            StreamStep::NeedMore => {
                if pos < bytes.len() {
                    let n = (*sizes.next().unwrap()).max(1).min(bytes.len() - pos);
                    s.push_chunk(&bytes[pos..pos + n]);
                    pos += n;
                } else {
                    steps.push(s.finish());
                    break;
                }
            }
            StreamStep::Finished => {
                steps.push(StreamStep::Finished);
                break;
            }
            other => {
                let stop = matches!(other, StreamStep::Failed(_));
                steps.push(other);
                if stop {
                    break;
                }
            }
        }
    }
    let phase = s.phase();
    (steps, phase)
}

fn delta_texts(steps: &[StreamStep]) -> Vec<String> {
    let mut out = Vec::new();
    for st in steps {
        if let StreamStep::Event(ResponseStreamEvent::ResponseTextDelta(d)) = st {
            out.push(d.delta.clone());
        }
    }
    out
}

const TWO_DELTAS: &[u8] = b"data: {\"type\":\"response.output_text.delta\",\"content_index\":0,\"delta\":\"Hel\",\"item_id\":\"i1\",\"output_index\":0,\"sequence_number\":1}\n\n: keep-alive\n\ndata: {\"type\":\"response.output_text.delta\",\"content_index\":0,\"delta\":\"lo\",\"item_id\":\"i1\",\"output_index\":0,\"sequence_number\":2}\n\ndata: [DONE]\n\n";

#[test]
fn decodes_text_delta_events_in_order() {
    let (steps, phase) = run_stream(TWO_DELTAS, &[4096]);
    assert_eq!(delta_texts(&steps), vec!["Hel".to_string(), "lo".to_string()]);
    assert!(matches!(steps.last(), Some(StreamStep::Finished)));
    assert_eq!(phase, StreamPhase::Completed);
}

#[test]
fn chunk_boundaries_never_matter() {
    let (whole, p1) = run_stream(TWO_DELTAS, &[usize::MAX]);
    let (bytewise, p2) = run_stream(TWO_DELTAS, &[1]);
    let (ragged, p3) = run_stream(TWO_DELTAS, &[3, 7, 1, 13]);
    assert_eq!(delta_texts(&whole), delta_texts(&bytewise));
    assert_eq!(delta_texts(&whole), delta_texts(&ragged));
    assert_eq!(whole.len(), bytewise.len());
    assert_eq!(whole.len(), ragged.len());
    assert_eq!(p1, p2);
    assert_eq!(p1, p3);
}

#[test]
fn lone_done_frame_yields_no_events_and_completes() {
    let (steps, phase) = run_stream(b"data: [DONE]\n\n", &[4096]);
    assert_eq!(steps.len(), 1);
    assert!(matches!(steps[0], StreamStep::Finished));
    assert_eq!(phase, StreamPhase::Completed);
}

#[test]
fn truncated_stream_is_an_error_not_an_event() {
    let (steps, phase) = run_stream(b"data: {\"type\":\"x\"", &[4096]);
    assert_eq!(steps.len(), 1);
    match &steps[0] {
        StreamStep::Failed(Error::Truncated) => {}
        other => panic!("expected the truncation error, got {other:?}"),
    }
    assert_eq!(phase, StreamPhase::Truncated);
}

#[test]
fn clean_end_without_sentinel_completes() {
    // The source closes with an empty buffer: a clean end of stream.
    let mut s = EventStream::new();
    s.push_chunk(b": ping\n\n");
    assert!(matches!(s.next_event(), StreamStep::NeedMore));
    assert!(matches!(s.finish(), StreamStep::Finished));
    assert_eq!(s.phase(), StreamPhase::Completed);
}

#[test]
fn unknown_discriminator_fails_at_path_type_and_stops_the_stream() {
    let bytes = b"data: {\"type\":\"response.bogus\"}\n\ndata: {\"type\":\"response.output_text.delta\",\"content_index\":0,\"delta\":\"x\",\"item_id\":\"i\",\"output_index\":0,\"sequence_number\":1}\n\n";
    let mut s = EventStream::new();
    s.push_chunk(bytes);
    match s.next_event() {
        StreamStep::Failed(Error::Decode(de)) => {
            assert_eq!(de.path, "type");
            assert_eq!(de.cause, DecodeCause::UnknownVariant);
            assert_eq!(de.raw, "{\"type\":\"response.bogus\"}");
        }
        other => panic!("expected a decode failure, got {other:?}"),
    }
    assert_eq!(s.phase(), StreamPhase::Errored);
    // No further events are ever yielded, though a decodable frame follows.
    assert!(matches!(s.next_event(), StreamStep::Finished));
    assert!(matches!(s.next_event(), StreamStep::Finished));
}

#[test]
fn missing_discriminator_fails_at_path_type() {
    let mut s = EventStream::new();
    s.push_chunk(b"data: {\"delta\":\"x\"}\n\n");
    match s.next_event() {
        StreamStep::Failed(Error::Decode(de)) => {
            assert_eq!(de.path, "type");
            assert_eq!(de.cause, DecodeCause::MissingField);
        }
        other => panic!("expected a decode failure, got {other:?}"),
    }
}

#[test]
fn non_string_discriminator_fails_at_path_type() {
    let mut s = EventStream::new();
    s.push_chunk(b"data: {\"type\":7}\n\n");
    match s.next_event() {
        StreamStep::Failed(Error::Decode(de)) => {
            assert_eq!(de.path, "type");
            assert_eq!(de.cause, DecodeCause::WrongType);
        }
        other => panic!("expected a decode failure, got {other:?}"),
    }
}

#[test]
fn malformed_json_fails_with_syntax_cause_and_raw_text() {
    let mut s = EventStream::new();
    s.push_chunk(b"data: {oops\n\n");
    match s.next_event() {
        StreamStep::Failed(Error::Decode(de)) => {
            assert_eq!(de.cause, DecodeCause::Syntax);
            assert_eq!(de.path, "");
            assert_eq!(de.raw, "{oops");
        }
        other => panic!("expected a decode failure, got {other:?}"),
    }
}

#[test]
fn missing_required_field_records_its_path() {
    let mut s = EventStream::new();
    s.push_chunk(b"data: {\"type\":\"response.output_text.delta\",\"content_index\":0,\"item_id\":\"i\",\"output_index\":0,\"sequence_number\":1}\n\n");
    match s.next_event() {
        StreamStep::Failed(Error::Decode(de)) => {
            assert_eq!(de.path, "delta");
            assert_eq!(de.cause, DecodeCause::MissingField);
        }
        other => panic!("expected a decode failure, got {other:?}"),
    }
}

#[test]
fn wrong_field_shape_records_its_path() {
    let mut s = EventStream::new();
    s.push_chunk(b"data: {\"type\":\"response.output_text.delta\",\"content_index\":0,\"delta\":\"x\",\"item_id\":\"i\",\"output_index\":0,\"sequence_number\":\"three\"}\n\n");
    match s.next_event() {
        StreamStep::Failed(Error::Decode(de)) => {
            assert_eq!(de.path, "sequence_number");
            assert_eq!(de.cause, DecodeCause::WrongType);
        }
        other => panic!("expected a decode failure, got {other:?}"),
    }
}

#[test]
fn nested_part_field_records_a_dotted_path() {
    let mut s = EventStream::new();
    s.push_chunk(b"data: {\"type\":\"response.reasoning_summary_part.added\",\"item_id\":\"i\",\"output_index\":0,\"part\":{},\"sequence_number\":1,\"summary_index\":0}\n\n");
    match s.next_event() {
        StreamStep::Failed(Error::Decode(de)) => {
            assert_eq!(de.path, "part.text");
            assert_eq!(de.cause, DecodeCause::MissingField);
        }
        other => panic!("expected a decode failure, got {other:?}"),
    }
}

#[test]
fn multi_line_payload_reassembly_is_exact() {
    // Two `data:` lines within one frame decode as their separator-free
    // concatenation; with no `type` field the error carries that exact text.
    let mut s = EventStream::new();
    s.push_chunk(b"data: {\"a\":1,\ndata: \"b\":2}\n\n");
    match s.next_event() {
        StreamStep::Failed(Error::Decode(de)) => {
            assert_eq!(de.raw, "{\"a\":1,\"b\":2}");
            assert_eq!(de.path, "type");
        }
        other => panic!("expected a decode failure, got {other:?}"),
    }
}

#[test]
fn completed_event_carries_raw_response_document() {
    let mut s = EventStream::new();
    s.push_chunk(b"data: {\"type\":\"response.completed\",\"response\":{\"id\":\"r1\"},\"sequence_number\":9}\n\n");
    match s.next_event() {
        StreamStep::Event(ResponseStreamEvent::ResponseCompleted(ev)) => {
            assert_eq!(ev.sequence_number, 9);
            assert_eq!(ev.response.get("id").and_then(|v| v.as_str()), Some("r1"));
        }
        other => panic!("expected the completed event, got {other:?}"),
    }
}

#[test]
fn error_event_accepts_null_and_missing_optionals() {
    let mut s = EventStream::new();
    s.push_chunk(b"data: {\"type\":\"error\",\"code\":null,\"message\":\"boom\",\"sequence_number\":1}\n\n");
    match s.next_event() {
        StreamStep::Event(ResponseStreamEvent::Error(ev)) => {
            assert_eq!(ev.code, None);
            assert_eq!(ev.param, None);
            assert_eq!(ev.message, "boom");
        }
        other => panic!("expected the error event, got {other:?}"),
    }
}

#[test]
fn events_after_sentinel_are_never_yielded() {
    let bytes = b"data: [DONE]\n\ndata: {\"type\":\"response.output_text.delta\",\"content_index\":0,\"delta\":\"x\",\"item_id\":\"i\",\"output_index\":0,\"sequence_number\":1}\n\n";
    let (steps, phase) = run_stream(bytes, &[4096]);
    assert_eq!(steps.len(), 1);
    assert!(matches!(steps[0], StreamStep::Finished));
    assert_eq!(phase, StreamPhase::Completed);
}

#[test]
fn annotation_added_reads_the_item_id_under_its_wire_key() {
    // On the wire this event's item id arrives under `item__id`.
    let mut s = EventStream::new();
    s.push_chunk(b"data: {\"type\":\"response.output_text.annotation.added\",\"annotation\":{},\"annotation_index\":0,\"content_index\":0,\"item__id\":\"i9\",\"output_index\":0,\"sequence_number\":2}\n\n");
    match s.next_event() {
        StreamStep::Event(ResponseStreamEvent::ResponseOutputTextAnnotationAdded(ev)) => {
            assert_eq!(ev.item_id, "i9");
            assert_eq!(ev.sequence_number, 2);
        }
        other => panic!("expected the annotation event, got {other:?}"),
    }
}

#[test]
fn annotation_added_rejects_the_plain_item_id_key() {
    let mut s = EventStream::new();
    s.push_chunk(b"data: {\"type\":\"response.output_text.annotation.added\",\"annotation\":{},\"annotation_index\":0,\"content_index\":0,\"item_id\":\"i9\",\"output_index\":0,\"sequence_number\":2}\n\n");
    match s.next_event() {
        StreamStep::Failed(Error::Decode(de)) => {
            assert_eq!(de.path, "item__id");
            assert_eq!(de.cause, DecodeCause::MissingField);
        }
        other => panic!("expected a decode failure, got {other:?}"),
    }
}

#[test]
fn audio_delta_event_decodes_its_two_fields() {
    let mut s = EventStream::new();
    s.push_chunk(b"data: {\"type\":\"response.audio.delta\",\"delta\":\"QUJD\",\"sequence_number\":5}\n\n");
    match s.next_event() {
        StreamStep::Event(ResponseStreamEvent::ResponseAudioDelta(ev)) => {
            assert_eq!(ev.delta, "QUJD");
            assert_eq!(ev.sequence_number, 5);
        }
        other => panic!("expected the audio delta event, got {other:?}"),
    }
}

#[test]
fn truncation_is_chunk_boundary_independent() {
    let bytes = b"data: {\"type\":\"response.output_text.delta\",\"content_index\":0,\"delta\":\"x\",\"item_id\":\"i\",\"output_index\":0,\"sequence_number\":1}\n\ndata: {\"type\":\"y\"";
    let (whole, p1) = run_stream(bytes, &[usize::MAX]);
    let (bytewise, p2) = run_stream(bytes, &[1]);
    assert_eq!(p1, StreamPhase::Truncated);
    assert_eq!(p2, StreamPhase::Truncated);
    assert_eq!(delta_texts(&whole), vec!["x".to_string()]);
    assert_eq!(delta_texts(&bytewise), vec!["x".to_string()]);
    assert!(matches!(whole.last(), Some(StreamStep::Failed(Error::Truncated))));
    assert!(matches!(bytewise.last(), Some(StreamStep::Failed(Error::Truncated))));
}
