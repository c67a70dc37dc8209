use maileroo::compose::{
    attachment_records, attachment_too_large_message, chunk_fits, message_id_domain, ComposeForm, MAX_ATTACHMENTS,
    MAX_ATTACHMENT_BYTES,
};
use maileroo::i18n::{Locale, Messages};

#[test]
fn form_fields_are_collected() {
    let mut f = ComposeForm::new();
    f.on_field("draft_id", " 550e8400-e29b-41d4-a716-446655440000 ".to_string());
    f.on_field("from_alias_id", "not-a-uuid".to_string());
    f.on_field("to_email", " dest@example.com ".to_string());
    f.on_field("subject", "Hello".to_string());
    f.on_field("body_text", "Body".to_string());
    f.on_field("unknown", "ignored".to_string());
    assert_eq!(f.draft_id, Some(0x550e8400_e29b_41d4_a716_446655440000));
    assert_eq!(f.from_alias_id, None);
    assert_eq!(f.to_email, " dest@example.com ");
    assert_eq!(f.subject, "Hello");
    assert_eq!(f.body_text, "Body");
}

#[test]
fn form_checks() {
    let mut f = ComposeForm::new();
    assert_eq!(f.check(Locale::En), Err(Locale::En.toast_invalid_email().to_string()));
    f.on_field("to_email", "dest@example.com".to_string());
    assert_eq!(f.check(Locale::Es), Err(Locale::Es.toast_empty_subject().to_string()));
    f.on_field("subject", "  Hi ".to_string());
    assert_eq!(f.check(Locale::Fr), Err(Locale::Fr.toast_alias_unauthorized().to_string()));
    f.on_field("from_alias_id", "00000000-0000-0000-0000-00000000002a".to_string());
    assert_eq!(f.check(Locale::En), Ok(42));
}

#[test]
fn attachments_are_limited() {
    let mut f = ComposeForm::new();
    assert_eq!(f.on_attachment(Some("empty.txt"), None, Vec::new()), Ok(()));
    assert_eq!(f.attachments.len(), 0);
    for i in 0..MAX_ATTACHMENTS {
        assert_eq!(f.on_attachment(Some(&format!("f{}.pdf", i)), None, vec![1, 2, 3]), Ok(()));
    }
    assert_eq!(f.total_attachment_bytes, 3 * MAX_ATTACHMENTS);
    assert_eq!(
        f.on_attachment(Some("one-too-many.txt"), None, vec![1]),
        Err("Too many attachments. Maximum is 10.".to_string())
    );
    assert_eq!(f.attachments[0].content_type, "application/pdf");
    assert_eq!(f.attachments[0].filename, Some("f0.pdf".to_string()));
}

#[test]
fn total_attachment_size_is_limited() {
    let mut f = ComposeForm::new();
    let big = vec![0u8; MAX_ATTACHMENT_BYTES];
    assert_eq!(f.on_attachment(Some("a.bin"), Some("application/x-a"), big.clone()), Ok(()));
    assert_eq!(f.on_attachment(Some("b.bin"), None, big), Ok(()));
    assert_eq!(
        f.on_attachment(Some("c.bin"), None, vec![0u8; 6 * 1024 * 1024]),
        Err("Total attachments size exceeds limit of 25 MB.".to_string())
    );
    assert_eq!(f.attachments[0].content_type, "application/x-a");
    assert_eq!(attachment_too_large_message(), "Attachment exceeds maximum limit of 10 MB.");
    assert!(chunk_fits(0, MAX_ATTACHMENT_BYTES));
    assert!(!chunk_fits(1, MAX_ATTACHMENT_BYTES));
}

#[test]
fn message_from_form() {
    let mut f = ComposeForm::new();
    f.on_field("to_email", " dest@example.com ".to_string());
    f.on_field("subject", "S".to_string());
    f.on_attachment(Some("n\r\name.txt"), Some("text/plain\r\n"), b"hello".to_vec()).unwrap();
    let records = attachment_records(&f.attachments);
    assert_eq!(records, vec![(Some("name.txt".to_string()), "text/plain".to_string(), 5)]);
    let m = f.into_message("me@relay.example", "<id@relay.example>".to_string());
    assert_eq!(m.to, "dest@example.com");
    assert_eq!(m.from, "me@relay.example");
    assert_eq!(m.message_id, Some("<id@relay.example>".to_string()));
    assert_eq!(m.attachments.len(), 1);
    assert_eq!(message_id_domain("me@relay.example"), "relay.example");
    assert_eq!(message_id_domain("nobody"), "localhost");
}
