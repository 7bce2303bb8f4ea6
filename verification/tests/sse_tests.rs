use openai_responses::path::DecodePath;
use openai_responses::path::dec_string;
use openai_responses::sse::extract_payload;
use openai_responses::sse::find_frame_marker;
use openai_responses::sse::is_sentinel_payload;

#[test]
fn find_marker_empty_and_short() {
    assert_eq!(find_frame_marker(b""), None);
    assert_eq!(find_frame_marker(b"\n"), None);
    assert_eq!(find_frame_marker(b"data: x\n"), None);
}

#[test]
fn find_marker_first_occurrence() {
    assert_eq!(find_frame_marker(b"\n\n"), Some(0));
    assert_eq!(find_frame_marker(b"a\n\nb\n\n"), Some(1));
    assert_eq!(find_frame_marker(b"data: x\n\nrest"), Some(7));
}

#[test]
fn payload_single_data_line() {
    let p = extract_payload(b"data: hello\n\n");
    assert_eq!(p, b"hello".to_vec());
}

#[test]
fn payload_concatenates_data_lines_without_separator() {
    let p = extract_payload(b"data: {\"a\":1,\ndata: \"b\":2}\n\n");
    assert_eq!(p, b"{\"a\":1,\"b\":2}".to_vec());
}

#[test]
fn payload_ignores_non_data_lines() {
    let p = extract_payload(b"event: message\nid: 7\ndata: x\n: keep-alive\n\n");
    assert_eq!(p, b"x".to_vec());
}

#[test]
fn payload_trims_whitespace_and_carriage_returns() {
    let p = extract_payload(b"data:   spaced out  \r\n\n");
    assert_eq!(p, b"spaced out".to_vec());
}

#[test]
fn payload_of_keep_alive_frame_is_empty() {
    let p = extract_payload(b": ping\n\n");
    assert_eq!(p, b"".to_vec());
    let p2 = extract_payload(b"\n\n");
    assert_eq!(p2, b"".to_vec());
}

#[test]
fn payload_requires_exact_prefix() {
    // No space after the colon: not a `data: ` line.
    let p = extract_payload(b"data:x\n\n");
    assert_eq!(p, b"".to_vec());
    // Prefix must start the line.
    let p2 = extract_payload(b" data: x\n\n");
    assert_eq!(p2, b"".to_vec());
}

#[test]
fn sentinel_payload_recognized_exactly() {
    assert!(is_sentinel_payload(&b"[DONE]".to_vec()));
    assert!(!is_sentinel_payload(&b"[DONE] ".to_vec()));
    assert!(!is_sentinel_payload(&b"[done]".to_vec()));
    assert!(!is_sentinel_payload(&b"".to_vec()));
}

#[test]
fn sentinel_payload_survives_trimming() {
    let p = extract_payload(b"data: [DONE]\n\n");
    assert!(is_sentinel_payload(&p));
}

#[test]
fn dec_string_renders_decimal() {
    assert_eq!(dec_string(0), "0");
    assert_eq!(dec_string(7), "7");
    assert_eq!(dec_string(407), "407");
    assert_eq!(dec_string(u64::MAX), "18446744073709551615");
}

#[test]
fn decode_path_renders_dotted_and_bracketed() {
    let mut p = DecodePath::new();
    assert_eq!(p.render(), "");
    p.push_field("output");
    p.push_index(2);
    p.push_field("content");
    assert_eq!(p.render(), "output[2].content");
    p.pop();
    assert_eq!(p.render(), "output[2]");
}

#[test]
fn decode_path_single_field_is_bare() {
    let mut p = DecodePath::new();
    p.push_field("type");
    assert_eq!(p.render(), "type");
}
