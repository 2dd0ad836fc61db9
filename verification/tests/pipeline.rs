use pastebot::Attachment;
use pastebot::ContentKind;
use pastebot::PASTEBOOK_DEV_EXPIRE_TIME;
use pastebot::PASTES_DEV_EXPIRE_TIME;
use pastebot::Reply;
use pastebot::UploadError;
use pastebot::UploadResponse;
use pastebot::assemble_reply;
use pastebot::build_upload_request;
use pastebot::create_upload_embed;
use pastebot::empty_attachments_notice;
use pastebot::handle_log_file;
use pastebot::handle_text_file;
use pastebot::join_results;
use pastebot::process_fetched;

fn att(filename: &str, content_type: Option<&str>) -> Attachment {
    Attachment {
        url: format!("https://cdn.example/{}", filename),
        filename: String::from(filename),
        content_type: content_type.map(String::from),
    }
}

#[test]
fn no_attachments_short_circuits_with_a_private_notice() {
    let r = empty_attachments_notice(&Vec::new()).unwrap();
    match r {
        Reply::Notice { content, ephemeral } => {
            assert_eq!(content, "No file attached.");
            assert!(ephemeral);
        }
        Reply::Entries { .. } => panic!("expected a notice"),
    }
}

#[test]
fn attachments_present_means_no_notice() {
    let atts = vec![att("trace.log", None)];
    assert!(empty_attachments_notice(&atts).is_none());
}

#[test]
fn request_built_for_a_log_attachment() {
    let a = att("trace.log", None);
    let req = build_upload_request(&a, &b"hello".to_vec(), "alice").unwrap();
    assert_eq!(req.string_content, "hello");
    assert_eq!(req.filename, "trace.log");
    assert_eq!(req.content_type, ContentKind::Log);
    assert_eq!(req.human_readable_size, "5 bytes");
    assert_eq!(req.author, "alice");
}

#[test]
fn invalid_utf8_is_decoded_lossily() {
    let a = att("trace.log", None);
    let req = build_upload_request(&a, &vec![0xFF, 0xFE], "alice").unwrap();
    assert_eq!(req.string_content, "\u{FFFD}\u{FFFD}");
}

#[test]
fn empty_content_still_uploads_with_zero_size() {
    let a = att("empty.log", None);
    let req = build_upload_request(&a, &Vec::new(), "alice").unwrap();
    assert_eq!(req.string_content, "");
    assert_eq!(req.human_readable_size, "0 bytes");
}

#[test]
fn no_request_for_an_unclassifiable_attachment() {
    let a = att("photo.png", Some("image/png"));
    assert!(build_upload_request(&a, &b"bytes".to_vec(), "alice").is_none());
}

#[test]
fn end_to_end_filtering_keeps_order_and_drops_the_image() {
    let atts = vec![
        att("trace.log", None),
        att("readme.txt", Some("text/plain")),
        att("photo.png", Some("image/png")),
    ];
    let contents = vec![b"log body".to_vec(), b"readme body".to_vec(), b"png".to_vec()];
    let reqs = process_fetched(&atts, &contents, "alice");
    assert_eq!(reqs.len(), 2);
    assert_eq!(reqs[0].filename, "trace.log");
    assert_eq!(reqs[0].content_type, ContentKind::Log);
    assert_eq!(reqs[0].string_content, "log body");
    assert_eq!(reqs[1].filename, "readme.txt");
    assert_eq!(reqs[1].content_type, ContentKind::Text);
    assert_eq!(reqs[1].string_content, "readme body");
}

#[test]
fn log_and_text_entries_come_in_order_with_their_own_expiries() {
    let atts = vec![att("trace.log", None), att("readme.txt", Some("text/plain"))];
    let contents = vec![b"log body".to_vec(), b"readme body".to_vec()];
    let reqs = process_fetched(&atts, &contents, "alice");
    assert_eq!(reqs.len(), 2);

    let now = 1_000_000;
    let loc = String::from("xyz");
    let log_resp = handle_log_file(200, Some(&loc), now).unwrap();
    let text_resp = handle_text_file(200, "abc", now).unwrap();
    let entries = vec![
        create_upload_embed(&reqs[0], &log_resp),
        create_upload_embed(&reqs[1], &text_resp),
    ];
    assert_eq!(entries[0].file_name, "`trace.log`");
    assert_eq!(
        entries[0].expires,
        format!("<t:{}:R>", now + PASTES_DEV_EXPIRE_TIME)
    );
    assert_eq!(entries[1].file_name, "`readme.txt`");
    assert_eq!(
        entries[1].expires,
        format!("<t:{}:R>", now + PASTEBOOK_DEV_EXPIRE_TIME)
    );
}

#[test]
fn embed_fields_are_fixed_and_quoted() {
    let a = att("trace.log", None);
    let req = build_upload_request(&a, &b"12345".to_vec(), "alice").unwrap();
    let resp = UploadResponse { link: String::from("https://pastes.dev/xyz"), expires: 123 };
    let e = create_upload_embed(&req, &resp);
    assert_eq!(e.title, "File Successfully Uploaded");
    assert_eq!(e.file_name, "`trace.log`");
    assert_eq!(e.file_size, "`5 bytes`");
    assert_eq!(e.expires, "<t:123:R>");
    assert_eq!(e.description, "https://pastes.dev/xyz");
    assert_eq!(e.color, 0x00FF00);
}

fn sample_entry(name: &str) -> pastebot::ReplyEntry {
    let a = att(name, Some("text/plain"));
    let req = build_upload_request(&a, &b"body".to_vec(), "alice").unwrap();
    let resp = UploadResponse { link: String::from("https://pastebook.dev/p/x"), expires: 1 };
    create_upload_embed(&req, &resp)
}

#[test]
fn join_keeps_all_entries_in_order_when_all_succeed() {
    let results = vec![Ok(sample_entry("a.txt")), Ok(sample_entry("b.txt"))];
    let entries = join_results(results).unwrap();
    assert_eq!(entries.len(), 2);
    assert_eq!(entries[0].file_name, "`a.txt`");
    assert_eq!(entries[1].file_name, "`b.txt`");
}

#[test]
fn one_failure_fails_the_whole_invocation() {
    let results = vec![
        Ok(sample_entry("a.txt")),
        Err(UploadError::Upload { status: 500 }),
        Ok(sample_entry("c.txt")),
    ];
    assert_eq!(
        join_results(results).unwrap_err(),
        UploadError::Upload { status: 500 }
    );
}

#[test]
fn first_of_several_failures_wins() {
    let results = vec![
        Err(UploadError::MissingLocation),
        Err(UploadError::Upload { status: 500 }),
    ];
    assert_eq!(join_results(results).unwrap_err(), UploadError::MissingLocation);
}

#[test]
fn reply_visibility_follows_the_display_flag() {
    let private = assemble_reply(vec![sample_entry("a.txt")], false);
    match private {
        Reply::Entries { entries, ephemeral } => {
            assert_eq!(entries.len(), 1);
            assert!(ephemeral);
        }
        Reply::Notice { .. } => panic!("expected entries"),
    }
    let public = assemble_reply(Vec::new(), true);
    match public {
        Reply::Entries { entries, ephemeral } => {
            assert_eq!(entries.len(), 0);
            assert!(!ephemeral);
        }
        Reply::Notice { .. } => panic!("expected entries"),
    }
}
