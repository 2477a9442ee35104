use llama_runtime::sse::{sse_data_payload, SseDecoder};

const SAMPLE: &str = "data: {\"content\":\"He\"}\ndata: {\"content\":\"llo\"}\ndata: [DONE]\n";

fn feed_in_pieces(bytes: &[u8], cuts: &[usize]) -> (Vec<String>, String) {
    let mut decoder = SseDecoder::new();
    let mut tokens = Vec::new();
    let mut start = 0;
    for &cut in cuts.iter().chain(std::iter::once(&bytes.len())) {
        tokens.extend(decoder.feed(&bytes[start..cut]));
        start = cut;
    }
    (tokens, decoder.text())
}

#[test]
fn sample_stream_in_one_chunk() {
    let (tokens, text) = feed_in_pieces(SAMPLE.as_bytes(), &[]);
    assert_eq!(tokens, vec!["He".to_string(), "llo".to_string()]);
    assert_eq!(text, "Hello");
}

#[test]
fn sample_stream_one_byte_at_a_time() {
    let bytes = SAMPLE.as_bytes();
    let cuts: Vec<usize> = (1..bytes.len()).collect();
    let (tokens, text) = feed_in_pieces(bytes, &cuts);
    assert_eq!(tokens, vec!["He".to_string(), "llo".to_string()]);
    assert_eq!(text, "Hello");
}

#[test]
fn sample_stream_every_two_way_split() {
    let bytes = SAMPLE.as_bytes();
    for cut in 0..=bytes.len() {
        let (tokens, text) = feed_in_pieces(bytes, &[cut]);
        assert_eq!(tokens, vec!["He".to_string(), "llo".to_string()], "cut at {}", cut);
        assert_eq!(text, "Hello");
    }
}

#[test]
fn partial_line_waits_for_its_end() {
    let mut decoder = SseDecoder::new();
    assert!(decoder.feed(b"data: {\"content\":\"a").is_empty());
    assert_eq!(decoder.feed(b"b\"}\r\n"), vec!["ab".to_string()]);
    assert_eq!(decoder.text(), "ab");
}

#[test]
fn unterminated_last_line_is_not_decoded() {
    let mut decoder = SseDecoder::new();
    assert!(decoder.feed(b"data: {\"content\":\"x\"}").is_empty());
    assert_eq!(decoder.text(), "");
}

#[test]
fn malformed_and_foreign_lines_are_skipped() {
    let mut decoder = SseDecoder::new();
    let tokens = decoder.feed(
        b": keep-alive\nevent: ping\ndata: {not json\ndata: {\"stop\":true}\ndata: \ndata: {\"content\":\"ok\",\"stop\":false}\n",
    );
    assert_eq!(tokens, vec!["ok".to_string()]);
    assert_eq!(decoder.text(), "ok");
}

#[test]
fn crlf_and_surrounding_whitespace() {
    let mut decoder = SseDecoder::new();
    let tokens = decoder.feed(b"  data: {\"content\":\" x \"}  \r\n");
    assert_eq!(tokens, vec![" x ".to_string()]);
}

#[test]
fn payload_of_data_lines() {
    assert_eq!(sse_data_payload(b"data: {\"a\":1}"), Some("{\"a\":1}".to_string()));
    assert_eq!(sse_data_payload(b"  data:   xyz  "), Some("xyz".to_string()));
    assert_eq!(sse_data_payload(b"data: [DONE]"), None);
    assert_eq!(sse_data_payload(b"data: "), None);
    assert_eq!(sse_data_payload(b"data:x"), None);
    assert_eq!(sse_data_payload(b"event: data: x"), None);
    assert_eq!(sse_data_payload(&[0x64, 0x61, 0x74, 0x61, 0x3a, 0x20, 0xff]), None);
    assert_eq!(sse_data_payload("data: h\u{e9}".as_bytes()), Some("h\u{e9}".to_string()));
}

#[test]
fn token_is_the_content_member_not_the_payload() {
    let mut decoder = SseDecoder::new();
    let tokens = decoder.feed(b"data: {\"content\":\"tok\"}\n");
    assert_eq!(tokens, vec!["tok".to_string()]);
}
