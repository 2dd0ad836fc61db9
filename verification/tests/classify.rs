use pastebot::ContentKind;
use pastebot::classify;

#[test]
fn log_suffix_wins_without_content_type() {
    assert_eq!(classify("trace.log", None), Some(ContentKind::Log));
}

#[test]
fn log_suffix_wins_over_non_text_content_type() {
    let ct = String::from("image/png");
    assert_eq!(classify("trace.log", Some(&ct)), Some(ContentKind::Log));
}

#[test]
fn log_suffix_wins_over_text_content_type() {
    let ct = String::from("text/plain");
    assert_eq!(classify("server.log", Some(&ct)), Some(ContentKind::Log));
}

#[test]
fn text_content_type_yields_text() {
    let ct = String::from("text/plain");
    assert_eq!(classify("readme.txt", Some(&ct)), Some(ContentKind::Text));
}

#[test]
fn text_content_type_with_charset_yields_text() {
    let ct = String::from("text/plain; charset=utf-8");
    assert_eq!(classify("notes.md", Some(&ct)), Some(ContentKind::Text));
}

#[test]
fn non_text_content_type_yields_no_kind() {
    let ct = String::from("image/png");
    assert_eq!(classify("photo.png", Some(&ct)), None);
}

#[test]
fn missing_content_type_yields_no_kind() {
    assert_eq!(classify("archive.zip", None), None);
}

#[test]
fn log_in_middle_of_name_is_not_a_log() {
    let ct = String::from("application/octet-stream");
    assert_eq!(classify("catalog.bin", Some(&ct)), None);
}

#[test]
fn bare_log_name_without_dot_is_not_a_log() {
    assert_eq!(classify("log", None), None);
}
