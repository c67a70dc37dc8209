use maileroo::email_body::{
    attachment_part, download_disposition, find_inline_attachment, inline_content_type, AttachmentRow, PartLookup,
    lazy_load_remote_images, received_detail, rewrite_cid_references, sanitize_email_body, sent_body,
    thread_reply_body,
};

const EMAIL_ID: u128 = 0x550e8400_e29b_41d4_a716_446655440000;

#[test]
fn test_rewrite_cid_references() {
    let html = r#"<img src="cid:logo.png" alt="logo"><img src='cid:header_img' />"#;

    let rewritten = rewrite_cid_references(html, EMAIL_ID);

    assert_eq!(
        rewritten,
        r#"<img src="/dashboard/email/550e8400-e29b-41d4-a716-446655440000/inline/logo.png" alt="logo"><img src="/dashboard/email/550e8400-e29b-41d4-a716-446655440000/inline/header_img" />"#
    );
}

#[test]
fn cid_references_need_a_name_and_closing_quote() {
    let html = r#"<img src="cid:"><img src="cid:abc"#;
    assert_eq!(rewrite_cid_references(html, 1), html);
    let id_text = rewrite_cid_references("src='cid:x'", 1);
    assert_eq!(id_text, "src=\"/dashboard/email/00000000-0000-0000-0000-000000000001/inline/x\"");
}

#[test]
fn sanitizing_removes_scripts_and_collapses_blank_lines() {
    let body = "<p>hi</p><script>alert(1)</script>\n\n\n\n<p>there</p>";
    let clean = sanitize_email_body(body, EMAIL_ID);
    assert!(!clean.contains("<script"));
    assert!(clean.contains("<p>hi</p>"));
    assert!(!clean.contains("\n\n\n"));
}

#[test]
fn remote_images_are_deferred() {
    assert_eq!(
        lazy_load_remote_images(r#"<img src="http://x/y.png"><img  src="a">"#),
        r#"<img data-remote-src="http://x/y.png"><img  data-remote-src="a">"#
    );
}

#[test]
fn received_message_detail() {
    let raw = b"From: Alice <alice@example.com>\r\nSubject: Hi\r\nContent-Type: text/html\r\n\r\n<p>Hello</p>";
    let d = received_detail(raw, EMAIL_ID).unwrap();
    assert_eq!(d.sender, "alice@example.com");
    assert_eq!(d.subject, "Hi");
    assert!(d.body.contains("<p>Hello</p>"));
    assert_eq!(d.date, "");

    let bare = b"\r\n\r\njust text";
    let d2 = received_detail(bare, EMAIL_ID);
    if let Some(d2) = d2 {
        assert_eq!(d2.sender, "Unknown");
        assert_eq!(d2.subject, "No Subject");
    }
}

#[test]
fn sent_and_thread_bodies() {
    let raw = b"From: a@b.c\r\nSubject: s\r\n\r\nplain words";
    assert!(sent_body(raw, EMAIL_ID).contains("plain words"));
    let reply = b"From: a@b.c\r\nContent-Type: text/html\r\n\r\n<img src=\"http://t/p.gif\">";
    let body = thread_reply_body(reply, EMAIL_ID).unwrap();
    assert!(body.contains("data-remote-src"));
}

fn row(index: i32, inline: bool, cid: Option<&str>) -> AttachmentRow {
    AttachmentRow {
        id: index as u128,
        email_id: 1,
        filename: None,
        content_type: Some("image/png".to_string()),
        size_bytes: 4,
        part_index: index,
        is_inline: inline,
        content_id: cid.map(String::from),
        created_at: 0,
    }
}

#[test]
fn inline_attachment_lookup() {
    let rows = vec![row(0, false, Some("logo")), row(1, true, Some("other")), row(2, true, Some("logo")), row(3, true, Some("logo"))];
    assert_eq!(find_inline_attachment(&rows, "logo"), Some(2));
    assert_eq!(find_inline_attachment(&rows, "missing"), None);
    assert_eq!(find_inline_attachment(&Vec::new(), "logo"), None);
}

#[test]
fn download_headers_are_safe() {
    assert_eq!(download_disposition(&None), "attachment; filename=\"attachment\"");
    assert_eq!(
        download_disposition(&Some("a\"b\r\nX-Evil: 1.pdf".to_string())),
        "attachment; filename=\"abX-Evil: 1.pdf\""
    );
    assert_eq!(inline_content_type(&Some("image/png".to_string())), Ok("image/png".to_string()));
    assert_eq!(inline_content_type(&Some("text/html\r\n".to_string())), Err("Not an image: text/html".to_string()));
    assert_eq!(
        inline_content_type(&None),
        Err("Not an image: application/octet-stream".to_string())
    );
}

#[test]
fn attachment_parts_by_position() {
    let raw = b"From: a@b.c\r\nSubject: s\r\nMIME-Version: 1.0\r\nContent-Type: multipart/mixed; boundary=\"XX\"\r\n\r\n--XX\r\nContent-Type: text/plain\r\n\r\nhello\r\n--XX\r\nContent-Type: application/pdf; name=\"r.pdf\"\r\nContent-Disposition: attachment; filename=\"r.pdf\"\r\nContent-Transfer-Encoding: base64\r\n\r\nJVBERg==\r\n--XX--\r\n";
    match attachment_part(raw, 0) {
        PartLookup::Found(d) => assert_eq!(d, b"%PDF".to_vec()),
        other => panic!("unexpected {:?}", other),
    }
    assert!(matches!(attachment_part(raw, 1), PartLookup::Missing));
    assert!(matches!(attachment_part(raw, -1), PartLookup::Missing));
    assert!(matches!(attachment_part(b"", 0), PartLookup::Unparsable | PartLookup::Missing));
}
