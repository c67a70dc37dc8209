use mail_parser::MimeHeaders;
use maileroo::message::{prepare_reply_for_relay, rewrite_body_for_forward};
use maileroo::mime::{
    build_mime, build_mime_with, format_message_id, generate_message_id, sanitize_header, Attachment, MimeEmail,
    MimeEnvelope,
};

fn plain(from: &str, to: &str, subject: &str, body: &str) -> MimeEmail {
    MimeEmail {
        from: from.to_string(),
        to: to.to_string(),
        subject: subject.to_string(),
        text_body: body.to_string(),
        html_body: None,
        message_id: None,
        in_reply_to: None,
        references: None,
        attachments: vec![],
    }
}

#[test]
fn test_crlf_injection_prevention() {
    let email = MimeEmail {
        from: "alice\r\nBcc: hacker@example.com\r\n@example.com".to_string(),
        to: "bob@example.com".to_string(),
        subject: "Hello\nBcc: hacker@example.com".to_string(),
        text_body: "Test".to_string(),
        html_body: None,
        message_id: None,
        in_reply_to: None,
        references: None,
        attachments: vec![],
    };

    let mime = build_mime(&email);
    assert!(mime.contains("From: aliceBcc: hacker@example.com@example.com\r\n"));
    assert!(mime.contains("Subject: HelloBcc: hacker@example.com\r\n"));
    assert!(!mime.contains("\r\nBcc: hacker@example.com\r\n"));
}

#[test]
fn test_build_mime_threading() {
    let email = MimeEmail {
        from: "alice@example.com".to_string(),
        to: "bob@example.com".to_string(),
        subject: "Re: Hello".to_string(),
        text_body: "Reply content".to_string(),
        html_body: None,
        message_id: Some("new-id@example.com".to_string()),
        in_reply_to: Some("original-id@example.com".to_string()),
        references: Some("original-id@example.com".to_string()),
        attachments: vec![],
    };

    let mime = build_mime(&email);
    assert!(mime.contains("In-Reply-To: <original-id@example.com>\r\n"));
    assert!(mime.contains("References: <original-id@example.com>\r\n"));
    assert!(mime.contains("Subject: Re: Hello\r\n"));
}

#[test]
fn test_auto_re_subject() {
    let mut email = plain("alice@example.com", "bob@example.com", "Hello", "Reply content");
    email.in_reply_to = Some("some-id".to_string());

    let mime = build_mime(&email);
    assert!(mime.contains("Subject: Re: Hello\r\n"));
}

#[test]
fn test_rewrite_body_for_forward() {
    let raw_eml = b"From: Alice <alice@example.com>\r\nTo: bob@example.com\r\nSubject: Hello World\r\nMessage-ID: <msg1@example.com>\r\n\r\nBody text content";
    let rewritten =
        rewrite_body_for_forward(raw_eml, "alice@example.com", "reply-token@domain.com", "dest@gmail.com");

    assert!(rewritten.contains("From: \"Alice via Relay\" <reply-token@domain.com>\r\n"));
    assert!(rewritten.contains("To: dest@gmail.com\r\n"));
    assert!(rewritten.contains("Subject: Hello World\r\n"));
    assert!(rewritten.contains("Message-ID: <msg1@example.com>\r\n"));
    assert!(rewritten.contains("Body text content"));
}

#[test]
fn test_prepare_reply_for_relay() {
    let raw_gmail_reply = b"From: Me <user@gmail.com>\r\nTo: reply-token@domain.com\r\nSubject: Re: Hello World\r\nIn-Reply-To: <orig1@company.com>\r\nReferences: <orig1@company.com>\r\n\r\nI agree completely.";
    let prepared = prepare_reply_for_relay(raw_gmail_reply, "trash@domain.com", "support@company.com");

    assert!(prepared.contains("From: trash@domain.com\r\n"));
    assert!(prepared.contains("To: support@company.com\r\n"));
    assert!(prepared.contains("Subject: Re: Hello World\r\n"));
    assert!(prepared.contains("In-Reply-To: <orig1@company.com>\r\n"));
    assert!(prepared.contains("References: <orig1@company.com>\r\n"));
    assert!(prepared.contains("I agree completely."));
}

#[test]
fn test_relay_attachment_roundtrip() {
    let original_data: Vec<u8> =
        vec![0x89, 0x50, 0x4E, 0x47, 0x0D, 0x0A, 0x1A, 0x0A, 0x00, 0x00, 0x00, 0x0D, 0x49, 0x48, 0x44, 0x52];

    let mut original_email = plain("alice@example.com", "bob@example.com", "Look at this image", "See attached.");
    original_email.attachments = vec![Attachment {
        filename: Some("image.png".to_string()),
        content_type: "image/png".to_string(),
        data: original_data.clone(),
        is_inline: false,
        content_id: None,
    }];

    let raw_email = build_mime(&original_email);
    let forwarded =
        rewrite_body_for_forward(raw_email.as_bytes(), "alice@example.com", "reply-token@domain.com", "dest@gmail.com");

    let parsed = mail_parser::MessageParser::default().parse(forwarded.as_bytes()).unwrap();
    let atts: Vec<_> = parsed.attachments().collect();
    assert_eq!(atts.len(), 1);
    assert_eq!(atts[0].contents(), original_data.as_slice());
    assert_eq!(atts[0].attachment_name(), Some("image.png"));
}

#[test]
fn test_relay_inline_image_and_pdf() {
    let image_data: Vec<u8> = vec![0x89, 0x50, 0x4E, 0x47];
    let pdf_data: Vec<u8> = vec![0x25, 0x50, 0x44, 0x46];

    let mut original_email = plain("alice@example.com", "bob@example.com", "Report", "Here is the report with a logo.");
    original_email.html_body = Some("<html><body><img src=\"cid:logo-img\" /></body></html>".to_string());
    original_email.attachments = vec![
        Attachment {
            filename: Some("logo.png".to_string()),
            content_type: "image/png".to_string(),
            data: image_data.clone(),
            is_inline: true,
            content_id: Some("logo-img".to_string()),
        },
        Attachment {
            filename: Some("report.pdf".to_string()),
            content_type: "application/pdf".to_string(),
            data: pdf_data.clone(),
            is_inline: false,
            content_id: None,
        },
    ];

    let raw_email = build_mime(&original_email);
    let forwarded =
        rewrite_body_for_forward(raw_email.as_bytes(), "alice@example.com", "reply-token@domain.com", "dest@gmail.com");

    let parsed = mail_parser::MessageParser::default().parse(forwarded.as_bytes()).unwrap();
    let atts: Vec<_> = parsed.attachments().collect();
    assert_eq!(atts.len(), 2);

    let inline_img = atts.iter().find(|a| a.content_id() == Some("logo-img")).unwrap();
    assert_eq!(inline_img.contents(), image_data.as_slice());
    assert!(inline_img.content_disposition().is_some_and(|d| d.is_inline()));

    let pdf = atts.iter().find(|a| a.attachment_name() == Some("report.pdf")).unwrap();
    assert_eq!(pdf.contents(), pdf_data.as_slice());
    assert!(!pdf.content_disposition().is_some_and(|d| d.is_inline()));
}

fn fixed_envelope() -> MimeEnvelope {
    MimeEnvelope {
        date: "Thu, 01 Jan 2026 00:00:00 +0000".to_string(),
        fresh_id: "fixed-id".to_string(),
        mixed_boundary: "=_Mixed_1".to_string(),
        related_boundary: "=_Related_1".to_string(),
        alt_boundary: "=_Alternative_1".to_string(),
    }
}

#[test]
fn plain_message_layout_is_exact() {
    let mut email = plain("a@x.test", "b@y.test", "Hi", "Line");
    email.message_id = Some("<m1@x.test>".to_string());
    let mime = build_mime_with(&email, &fixed_envelope());
    assert!(mime.starts_with("From: a@x.test\r\nTo: b@y.test\r\nSubject: Hi\r\nDate: Thu, 01 Jan 2026 00:00:00 +0000\r\n"));
    assert!(mime.contains("Message-ID: <m1@x.test>\r\n"));
    assert!(mime.contains("MIME-Version: 1.0\r\n"));
    assert!(mime.ends_with("\r\n\r\nLine\r\n"));
    let again = build_mime_with(&email, &fixed_envelope());
    assert_eq!(mime, again);
}

#[test]
fn message_id_formatting() {
    assert_eq!(format_message_id("abc@x"), "<abc@x>");
    assert_eq!(format_message_id("  <abc@x> "), "<abc@x>");
    assert_eq!(format_message_id(&format_message_id("abc@x")), "<abc@x>");
    assert_eq!(sanitize_header("a\r\nb\nc\rd"), "abcd");
    let id = generate_message_id("mail.example.com");
    assert!(id.starts_with('<'));
    assert!(id.ends_with("@mail.example.com>"));
    assert_ne!(id, generate_message_id("mail.example.com"));
    let uuid = &id[1..37];
    assert_eq!(id.len(), 1 + 36 + "@mail.example.com>".len());
    for (i, c) in uuid.chars().enumerate() {
        if i == 8 || i == 13 || i == 18 || i == 23 {
            assert_eq!(c, '-');
        } else {
            assert!(c.is_ascii_hexdigit() && !c.is_ascii_uppercase());
        }
    }
}

#[test]
fn re_prefix_is_not_doubled() {
    let mut email = plain("a@x.test", "b@y.test", "RE: Hello", "x");
    email.in_reply_to = Some("id@x".to_string());
    let mime = build_mime(&email);
    assert!(mime.contains("Subject: RE: Hello\r\n"));
    assert!(!mime.contains("Re: RE:"));
}

#[test]
fn unparsable_body_is_forwarded_as_text() {
    let out = rewrite_body_for_forward(b"", "a@x", "r@y", "d@z");
    assert_eq!(out, "");
}

#[test]
fn date_header_has_the_rfc2822_shape() {
    let email = MimeEmail {
        from: "alice@example.com".to_string(),
        to: "bob@example.com".to_string(),
        subject: "Hello".to_string(),
        text_body: "Hi".to_string(),
        html_body: None,
        message_id: None,
        in_reply_to: None,
        references: None,
        attachments: vec![],
    };
    let raw = build_mime(&email);
    let date = raw.split("\r\n").find_map(|l| l.strip_prefix("Date: ")).unwrap();
    assert_eq!(date.len(), 31);
    for (i, c) in date.chars().enumerate() {
        match i {
            0..=2 | 8..=10 => assert!(c.is_ascii_alphabetic()),
            3 => assert_eq!(c, ','),
            4 | 7 | 11 | 16 | 25 => assert_eq!(c, ' '),
            19 | 22 => assert_eq!(c, ':'),
            26 => assert!(c == '+' || c == '-'),
            _ => assert!(c.is_ascii_digit()),
        }
    }
    assert!(!raw.contains("References:"));
}
