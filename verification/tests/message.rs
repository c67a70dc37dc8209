use maileroo::message::{
    attachment_metadata_of, forward_message, has_attachments, metadata_from, relay_reply_message, AttachmentMetadata,
    MailHeaders, MailPart,
};

fn headers() -> MailHeaders {
    MailHeaders {
        subject: Some("Hello World".to_string()),
        from_address: Some("alice@example.com".to_string()),
        from_name: Some("Alice".to_string()),
        message_id: Some("msg1@example.com".to_string()),
        in_reply_to: Some("orig1@company.com".to_string()),
        references: Some("<a@x> b@y".to_string()),
        text_body: Some("Body text".to_string()),
        html_body: None,
        date: None,
    }
}

fn parts() -> Vec<MailPart> {
    vec![
        MailPart {
            name: Some("report.pdf".to_string()),
            ctype: Some("application".to_string()),
            subtype: Some("pdf".to_string()),
            contents: b"%PDF".to_vec(),
            inline_binary: false,
            disposition_inline: false,
            content_id: None,
        },
        MailPart {
            name: None,
            ctype: None,
            subtype: None,
            contents: vec![1, 2, 3],
            inline_binary: false,
            disposition_inline: false,
            content_id: Some(" <img1@x> ".to_string()),
        },
    ]
}

#[test]
fn forward_message_from_parsed_parts() {
    let m = forward_message(&headers(), &parts(), "alice@example.com", "reply-token@domain.com", "dest@gmail.com");
    assert_eq!(m.from, "\"Alice via Relay\" <reply-token@domain.com>");
    assert_eq!(m.to, "dest@gmail.com");
    assert_eq!(m.subject, "Hello World");
    assert_eq!(m.text_body, "Body text");
    assert_eq!(m.message_id, Some("msg1@example.com".to_string()));
    assert_eq!(m.attachments.len(), 2);
    assert_eq!(m.attachments[0].content_type, "application");
    assert!(!m.attachments[0].is_inline);
    assert_eq!(m.attachments[1].content_type, "application/octet-stream");
    assert!(m.attachments[1].is_inline);
    assert_eq!(m.attachments[1].content_id, Some("img1@x".to_string()));

    let mut nameless = headers();
    nameless.from_name = None;
    nameless.subject = None;
    let m = forward_message(&nameless, &vec![], "alice@example.com", "r@d", "t@u");
    assert_eq!(m.from, "\"alice@example.com via Relay\" <r@d>");
    assert_eq!(m.subject, "No Subject");
}

#[test]
fn relayed_reply_from_parsed_parts() {
    let m = relay_reply_message(&headers(), &parts(), "trash@domain.com", "support@company.com");
    assert_eq!(m.from, "trash@domain.com");
    assert_eq!(m.to, "support@company.com");
    assert_eq!(m.message_id, None);
    assert_eq!(m.in_reply_to, Some("orig1@company.com".to_string()));
    assert_eq!(m.references, Some("<a@x> b@y".to_string()));
    assert_eq!(m.attachments.len(), 2);
}

#[test]
fn metadata_from_parsed_headers() {
    let m = metadata_from(&Some(headers()), "env@x.y");
    assert_eq!(m.sender, "alice@example.com");
    assert_eq!(m.subject, "Hello World");
    assert_eq!(m.message_id, Some("<msg1@example.com>".to_string()));
    assert_eq!(m.in_reply_to, Some("<orig1@company.com>".to_string()));
    assert_eq!(m.references, vec!["<a@x>".to_string(), "<b@y>".to_string()]);
    let m = metadata_from(&None, "env@x.y");
    assert_eq!(m.sender, "env@x.y");
    assert_eq!(m.subject, "No Subject");
    assert!(m.references.is_empty());
}

#[test]
fn attachment_metadata_and_has_attachments() {
    let meta = attachment_metadata_of(&parts());
    assert_eq!(meta.len(), 2);
    assert_eq!(meta[0].content_type, Some("application/pdf".to_string()));
    assert_eq!(meta[0].size_bytes, 4);
    assert_eq!(meta[1].part_index, 1);
    assert!(meta[1].is_inline);
    assert!(has_attachments(&meta));
    assert!(!has_attachments(&meta[1..].iter().map(|a| AttachmentMetadata {
        filename: a.filename.clone(),
        content_type: a.content_type.clone(),
        size_bytes: a.size_bytes,
        part_index: a.part_index,
        is_inline: a.is_inline,
        content_id: a.content_id.clone(),
    }).collect()));
    assert!(!has_attachments(&vec![]));
}
