use base64::Engine;
use kroki_bridge::codec::{generate_url, trim_slashes, url_for_payload};
use std::io::Read;

fn segment_after<'a>(url: &'a str, prefix: &str) -> &'a str {
    assert!(url.starts_with(prefix), "{} does not start with {}", url, prefix);
    &url[prefix.len()..]
}

fn decode_segment(segment: &str) -> String {
    let compressed = base64::engine::general_purpose::URL_SAFE
        .decode(segment)
        .expect("segment is URL-safe base64");
    let mut decoder = flate2::read::ZlibDecoder::new(&compressed[..]);
    let mut out = String::new();
    decoder.read_to_string(&mut out).expect("segment is a zlib stream");
    out
}

fn round_trip(source: &str) {
    let url = generate_url("https://kroki.io", "mermaid", source);
    let segment = segment_after(&url, "https://kroki.io/mermaid/svg/");
    assert_eq!(decode_segment(segment), source);
}

#[test]
fn url_is_deterministic() {
    let a = generate_url("https://kroki.io", "plantuml", "@startuml\nA -> B\n@enduml");
    let b = generate_url("https://kroki.io", "plantuml", "@startuml\nA -> B\n@enduml");
    assert_eq!(a, b);
}

#[test]
fn segment_uses_url_safe_alphabet() {
    let source: String = (0..2000u32).map(|i| char::from_u32(0x20 + (i * 7919) % 0x5f).unwrap()).collect();
    let url = generate_url("https://kroki.io", "mermaid", &source);
    let segment = segment_after(&url, "https://kroki.io/mermaid/svg/");
    assert!(!segment.is_empty());
    assert_eq!(segment.len() % 4, 0);
    assert!(!segment.contains('+'));
    assert!(!segment.contains('/'));
    let body = segment.trim_end_matches('=');
    assert!(body.chars().all(|c| c.is_ascii_alphanumeric() || c == '-' || c == '_'));
    assert_eq!(decode_segment(segment), source);
}

#[test]
fn round_trip_empty() {
    round_trip("");
}

#[test]
fn round_trip_unicode() {
    round_trip("graph TD; Été-->日本語; 🚀 --> ✓");
}

#[test]
fn round_trip_large() {
    let source = "graph TD; A-->B; B-->C; C-->A;\n".repeat(40_000);
    assert!(source.len() > 1_000_000);
    round_trip(&source);
}

#[test]
fn compression_is_at_best_level() {
    let source = "@startuml\nAlice -> Bob: hello\nBob -> Alice: hi\n@enduml";
    let mut encoder =
        flate2::write::ZlibEncoder::new(Vec::new(), flate2::Compression::best());
    std::io::Write::write_all(&mut encoder, source.as_bytes()).unwrap();
    let compressed = encoder.finish().unwrap();
    let expected = format!(
        "https://kroki.io/plantuml/svg/{}",
        base64::engine::general_purpose::URL_SAFE.encode(&compressed)
    );
    assert_eq!(generate_url("https://kroki.io/", "plantuml", source), expected);
}

#[test]
fn trailing_slashes_are_trimmed() {
    assert_eq!(trim_slashes("https://kroki.io///"), "https://kroki.io");
    assert_eq!(trim_slashes("https://kroki.io"), "https://kroki.io");
    assert_eq!(trim_slashes("///"), "");
    assert_eq!(trim_slashes(""), "");
    let url = generate_url("http://localhost:8000//", "vegalite", "{}");
    assert!(url.starts_with("http://localhost:8000/vegalite/svg/"));
}

#[test]
fn payload_encoding_is_padded_url_safe_base64() {
    assert_eq!(url_for_payload("https://k.io", "mermaid", b"hello"), "https://k.io/mermaid/svg/aGVsbG8=");
    assert_eq!(url_for_payload("https://k.io/", "mermaid", &[0xfb, 0xff]), "https://k.io/mermaid/svg/-_8=");
    assert_eq!(url_for_payload("https://k.io", "x", &[0xfb, 0xef, 0xbe]), "https://k.io/x/svg/----");
    assert_eq!(url_for_payload("https://k.io", "x", b"a"), "https://k.io/x/svg/YQ==");
    assert_eq!(url_for_payload("https://k.io", "x", b"ab"), "https://k.io/x/svg/YWI=");
    assert_eq!(url_for_payload("https://k.io", "x", b"abc"), "https://k.io/x/svg/YWJj");
    assert_eq!(url_for_payload("https://k.io", "x", b""), "https://k.io/x/svg/");
}
