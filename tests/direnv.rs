use simpalt::direnv::{decode, detect_active, is_active};
use std::io::Write;

fn diff_of(json: &str) -> String {
    let mut encoder = flate2::write::ZlibEncoder::new(Vec::new(), flate2::Compression::default());
    encoder.write_all(json.as_bytes()).unwrap();
    let compressed = encoder.finish().unwrap();
    base64::Engine::encode(&base64::engine::general_purpose::URL_SAFE, compressed)
}

#[test]
fn active_when_p_has_entries() {
    let diff = diff_of(r#"{"p":{"PATH":"/bin"},"n":{"PATH":"/usr/bin"}}"#);
    assert_eq!(is_active(&diff), Some(true));
    assert_eq!(is_active(&format!("  {diff}\n")), Some(true));
}

#[test]
fn inactive_when_p_is_empty() {
    assert_eq!(is_active(&diff_of(r#"{"p":{},"n":{}}"#)), Some(false));
}

#[test]
fn unknown_without_p_object() {
    assert_eq!(is_active(&diff_of(r#"{"n":{}}"#)), None);
    assert_eq!(is_active(&diff_of(r#"{"p":3}"#)), None);
    assert_eq!(is_active(&diff_of("not json")), None);
    assert_eq!(is_active("%%%"), None);
    assert_eq!(is_active(&base64::Engine::encode(
        &base64::engine::general_purpose::URL_SAFE,
        b"not zlib"
    )), None);
}

#[test]
fn decode_inflates_the_document() {
    let json = r#"{"p":{}}"#;
    assert_eq!(decode(&diff_of(json)), Some(json.as_bytes().to_vec()));
}

#[test]
fn detect_from_object_size() {
    assert_eq!(detect_active(Some(0)), Some(false));
    assert_eq!(detect_active(Some(2)), Some(true));
    assert_eq!(detect_active(None), None);
}
