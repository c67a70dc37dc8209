use maileroo::message::extract_metadata;
use maileroo::smtp::{
    thread_references, AliasRoute, AliasStep, BodyStep, CommandStep, DiskWrite, ErrorKind, FailureStep,
    InboundLimits, Lookup, ReplyMapping, SmartBodyBuffer, SmtpSession, SmtpState, TlsStep, TokenStep,
};
use maileroo::srs::encode_srs_at;

fn limits() -> InboundLimits {
    InboundLimits { tarpit_threshold: 2, block_threshold: 5, tarpit_duration_secs: 30 }
}

fn reply_text(step: CommandStep) -> String {
    match step {
        CommandStep::Reply(r) => r,
        other => panic!("expected a reply, got {:?}", other),
    }
}

#[test]
fn test_recipient_extraction() {
    let cases = vec![
        ("RCPT TO:<john@domain.com>", Some("john@domain.com")),
        ("rcpt to: <JOHN@domain.com> ", Some("john@domain.com")),
        ("RCPT TO:alex@sub.net", Some("alex@sub.net")),
        ("RCPT TO:<>", None),
        ("INVALID", None),
    ];
    for (input, expected) in cases {
        assert_eq!(SmtpSession::extract_recipient(input), expected.map(String::from));
    }
}

#[test]
fn test_sender_extraction() {
    let cases = vec![
        ("MAIL FROM:<meg@gmail.com>", Some("meg@gmail.com")),
        ("mail from: <MEG@GMAIL.COM>", Some("meg@gmail.com")),
        ("MAIL FROM:<>", Some("")),
        ("HELO", None),
    ];
    for (input, expected) in cases {
        assert_eq!(SmtpSession::extract_sender(input), expected.map(String::from));
    }
}

#[test]
fn test_dot_unstuffing_logic() {
    let mut buffer = SmartBodyBuffer::new(65_536);

    buffer.append("Hello World\r\n").unwrap();
    buffer.append("..This stands for dot\r\n").unwrap();
    buffer.append("...\r\n").unwrap();

    let output = String::from_utf8(buffer.get_content_bytes().unwrap()).unwrap();
    assert_eq!(output, "Hello World\r\n.This stands for dot\r\n..\r\n");
}

#[test]
fn test_oom_payload_limit() {
    let mut buffer = SmartBodyBuffer::new(65_536);
    let chunk = "A".repeat(1024 * 1024);

    for _ in 0..25 {
        let res = buffer.append(&chunk);
        assert!(res.is_ok(), "Failed to allocate 25MB but should have");
    }

    let res = buffer.append("A");
    assert!(res.is_err(), "Should have failed with OOM Error");
    let err = res.unwrap_err();
    assert_eq!(err.kind(), ErrorKind::OutOfMemory);
}

#[test]
fn test_metadata_extraction_standard() {
    let body = b"From: alice@example.com\r\nSubject: Hello\r\n\r\nBody content";
    let metadata = extract_metadata(body, "bounce@example.com");
    assert_eq!(metadata.sender, "alice@example.com");
    assert_eq!(metadata.subject, "Hello");
}

#[test]
fn test_metadata_extraction_verp_bounce() {
    let body = b"From: Greenhouse <no-reply@greenhouse.io>\r\nSubject: Job Alert\r\n\r\nContent";
    let envelope = "bounce+7bf24a.eb6b8a-hello=example.com@us.greenhouse-mail.io";
    let metadata = extract_metadata(body, envelope);

    assert_eq!(metadata.sender, "no-reply@greenhouse.io");
    assert_eq!(metadata.subject, "Job Alert");
}

#[test]
fn test_metadata_extraction_fallback() {
    let body = b"Subject: Missing From Header\r\n\r\nOnly subject here";
    let envelope = "real-sender@domain.com";
    let metadata = extract_metadata(body, envelope);

    assert_eq!(metadata.sender, "real-sender@domain.com");
    assert_eq!(metadata.subject, "Missing From Header");
}

#[test]
fn test_metadata_extraction_no_subject() {
    let body = b"From: someone@somewhere.com\r\n\r\nNo subject line";
    let metadata = extract_metadata(body, "envelope@test.com");

    assert_eq!(metadata.sender, "someone@somewhere.com");
    assert_eq!(metadata.subject, "No Subject");
}

#[test]
fn test_smart_buffer_ram_only() {
    let mut buffer = SmartBodyBuffer::new(1024);
    assert!(!buffer.is_on_disk());

    let w = buffer.append("Subject: Small Email\r\n\r\nThis stays in RAM!").unwrap();
    assert!(matches!(w, DiskWrite::Nothing));
    assert!(!buffer.is_on_disk());

    let metadata = buffer.extract_metadata("sender@test.com").unwrap();
    assert_eq!(metadata.subject, "Small Email");

    let content = buffer.get_content_bytes().unwrap();
    assert_eq!(content, b"Subject: Small Email\r\n\r\nThis stays in RAM!");
}

#[test]
fn test_smart_buffer_disk_promotion() {
    let mut buffer = SmartBodyBuffer::new(50);
    let mut file: Vec<u8> = Vec::new();
    assert!(!buffer.is_on_disk());

    assert!(matches!(buffer.append("Subject: Test\r\n\r\n").unwrap(), DiskWrite::Nothing));
    assert!(!buffer.is_on_disk());

    match buffer.append("This is some body text that will go to disk because it is larger.").unwrap() {
        DiskWrite::Create(bytes) => file = bytes,
        other => panic!("expected the spill file to be created, got {:?}", other),
    }
    assert!(buffer.is_on_disk());
    assert!(file.starts_with(b"Subject: Test\r\n\r\nThis is some body text"));
    assert!(buffer.get_content_bytes().is_err());
    match buffer.append("more\r\n").unwrap() {
        DiskWrite::Append(bytes) => file.extend(bytes),
        other => panic!("expected an append, got {:?}", other),
    }
    assert!(file.ends_with(b"larger.more\r\n"));
    assert_eq!(buffer.len(), file.len());
}

#[test]
fn test_smart_buffer_partial_header_extract() {
    let mut buffer = SmartBodyBuffer::new(10);
    let mut file: Vec<u8> = Vec::new();
    for piece in ["From: external@sender.com\r\nSubject: Header Test\r\n\r\n".to_string(), "A".repeat(200 * 1024)] {
        match buffer.append(&piece).unwrap() {
            DiskWrite::Create(b) | DiskWrite::Append(b) => file.extend(b),
            DiskWrite::Nothing => {}
        }
    }
    assert!(buffer.is_on_disk());
    // what is on disk is read back by its owner: the first 128 KB carry the headers
    let head = &file[..131_072];
    let metadata = extract_metadata(head, "envelope@sender.com");
    assert_eq!(metadata.sender, "external@sender.com");
    assert_eq!(metadata.subject, "Header Test");
}

#[test]
fn buffer_clear_and_refusal_keep_state() {
    let mut buffer = SmartBodyBuffer::new(10);
    buffer.append("0123456789ABC").unwrap();
    assert!(buffer.is_on_disk());
    buffer.clear();
    assert!(!buffer.is_on_disk());
    assert_eq!(buffer.len(), 0);
    assert_eq!(buffer.get_content_bytes().unwrap(), Vec::<u8>::new());
}

#[test]
fn inbound_limits_from_environment() {
    let l = InboundLimits::from_env(&None, &None, &None);
    assert_eq!((l.tarpit_threshold, l.block_threshold, l.tarpit_duration_secs), (2, 5, 30));
    let l = InboundLimits::from_env(&Some("3".to_string()), &Some("x".to_string()), &Some("60".to_string()));
    assert_eq!((l.tarpit_threshold, l.block_threshold, l.tarpit_duration_secs), (3, 5, 60));
}

#[test]
fn session_delivers_to_an_alias() {
    let mut s = SmtpSession::new(limits(), "secret".to_string());
    assert_eq!(s.state(), SmtpState::Greet);
    assert_eq!(reply_text(s.on_command_at("NOOP", 0)), "500 Syntax error, command unrecognized");
    assert_eq!(reply_text(s.on_command_at("EHLO client.example", 0)), "250 Hello");
    assert_eq!(reply_text(s.on_command_at("MAIL FROM:<Bob@Example.org>", 0)), "250 OK");
    assert_eq!(s.state(), SmtpState::RcptTo);
    match s.on_command_at("RCPT TO:<Sales@Relay.Example>", 0) {
        CommandStep::LookupAlias(local, domain) => {
            assert_eq!(local, "sales");
            assert_eq!(domain, "relay.example");
        }
        other => panic!("unexpected {:?}", other),
    }
    let route = AliasRoute { alias_id: 7, destination_email: "owner@home.example".to_string(), auto_forward: true };
    match s.on_alias(Lookup::Found(route)) {
        AliasStep::Reply(r) => assert_eq!(r, "250 2.1.5 Destination address accepted"),
        other => panic!("unexpected {:?}", other),
    }
    assert_eq!(s.state(), SmtpState::Data);
    assert_eq!(reply_text(s.on_command_at("DATA", 0)), "354 End data with <CR><LF>.<CR><LF>");
    assert_eq!(s.state(), SmtpState::ReadingBody);
    assert!(matches!(s.on_body_line("Subject: Hi\r\n"), BodyStep::Stored(DiskWrite::Nothing)));
    assert!(matches!(s.on_body_line("..dot\r\n"), BodyStep::Stored(DiskWrite::Nothing)));
    match s.on_body_line(".\r\n") {
        BodyStep::Deliver(sender, id, fwd) => {
            assert_eq!(sender, "bob@example.org");
            assert_eq!(id, Some(7));
            assert_eq!(fwd, Some("owner@home.example".to_string()));
        }
        other => panic!("unexpected {:?}", other),
    }
    assert_eq!(s.body().get_content_bytes().unwrap(), b"Subject: Hi\r\n.dot\r\n");
    assert_eq!(s.finish_delivery(Some("abc.eml")), "250 OK: queued as abc.eml");
    assert_eq!(s.state(), SmtpState::Greet);
    assert_eq!(s.body().len(), 0);
}

#[test]
fn session_commands_outside_their_state() {
    let mut s = SmtpSession::new(limits(), "secret".to_string());
    s.on_command_at("HELO x", 0);
    assert_eq!(reply_text(s.on_command_at("MAIL FROM bob", 0)), "501 Syntax error");
    s.on_command_at("MAIL FROM:<a@b.c>", 0);
    assert_eq!(reply_text(s.on_command_at("RCPT TO:<>", 0)), "501 Syntax error in address");
    assert_eq!(reply_text(s.on_command_at("RCPT TO:<a@b@c>", 0)), "501 Syntax error in address");
    assert_eq!(reply_text(s.on_command_at("RSET", 0)), "250 OK Resetting");
    assert_eq!(s.state(), SmtpState::MailFrom);
    assert!(matches!(s.on_command_at("starttls", 0), CommandStep::StartTls));
    match s.on_command_at("  quit ", 0) {
        CommandStep::Close(r) => assert_eq!(r, "221 2.0.0 Service closing transmission channel"),
        other => panic!("unexpected {:?}", other),
    }
}

#[test]
fn session_unknown_recipient_escalates() {
    let mut s = SmtpSession::new(limits(), "secret".to_string());
    s.on_command_at("HELO x", 0);
    s.on_command_at("MAIL FROM:<a@b.c>", 0);
    s.on_command_at("RCPT TO:<nobody@relay.example>", 0);
    assert!(matches!(s.on_alias(Lookup::Missing), AliasStep::RecordFailure));
    match s.on_failures(1) {
        FailureStep::Reply(r) => assert_eq!(r, "550 User Not Found"),
        other => panic!("unexpected {:?}", other),
    }
    match s.on_failures(2) {
        FailureStep::Tarpit(secs, r) => {
            assert_eq!(secs, 30);
            assert_eq!(r, "451 4.7.1 Please try again later");
        }
        other => panic!("unexpected {:?}", other),
    }
    match s.on_failures(5) {
        FailureStep::Block(r) => assert_eq!(r, "554 5.7.1 Connection refused - IP address blocked"),
        other => panic!("unexpected {:?}", other),
    }
    match s.on_alias(Lookup::Failed) {
        AliasStep::Reply(r) => assert_eq!(r, "451 Requested action aborted"),
        other => panic!("unexpected {:?}", other),
    }
    assert_eq!(s.state(), SmtpState::RcptTo);
}

#[test]
fn session_srs_recipient_is_decoded() {
    let day = 300;
    let srs = encode_srs_at("sales@relay.example", "relay.example", "secret", day);
    let mut s = SmtpSession::new(limits(), "secret".to_string());
    s.on_command_at("HELO x", day);
    s.on_command_at("MAIL FROM:<mailer-daemon@far.example>", day);
    match s.on_command_at(&format!("RCPT TO:<{}>", srs), day) {
        CommandStep::LookupAlias(l, d) => {
            assert_eq!(l, "sales");
            assert_eq!(d, "relay.example");
        }
        other => panic!("unexpected {:?}", other),
    }
    let mut s2 = SmtpSession::new(limits(), "other-secret".to_string());
    s2.on_command_at("HELO x", day);
    s2.on_command_at("MAIL FROM:<x@far.example>", day);
    assert_eq!(reply_text(s2.on_command_at(&format!("RCPT TO:<{}>", srs), day)), "550 User Not Found");
}

fn mapping() -> ReplyMapping {
    ReplyMapping {
        original_sender: "customer@external.com".to_string(),
        destination_email: "User@Gmail.com".to_string(),
        alias_subdomain: "support".to_string(),
        domain_name: "relay.example".to_string(),
    }
}

#[test]
fn session_reply_token_flow() {
    let mut s = SmtpSession::new(limits(), "secret".to_string());
    s.on_command_at("EHLO x", 0);
    s.on_command_at("MAIL FROM:<user@gmail.com>", 0);
    match s.on_command_at("RCPT TO:<reply-abc123@relay.example>", 0) {
        CommandStep::LookupReplyToken(t) => assert_eq!(t, "reply-abc123"),
        other => panic!("unexpected {:?}", other),
    }
    let m = match s.on_reply_token(Lookup::Found(mapping())) {
        TokenStep::CheckSpf(domain, m) => {
            assert_eq!(domain, "gmail.com");
            m
        }
        other => panic!("unexpected {:?}", other),
    };
    assert_eq!(s.on_spf(m, true), "250 2.1.5 Destination address accepted");
    assert_eq!(s.state(), SmtpState::Data);
    s.on_command_at("DATA", 0);
    s.on_body_line("Subject: Re: Hi\r\n");
    match s.on_body_line(".\n") {
        BodyStep::RelayReply(from, to) => {
            assert_eq!(from, "support@relay.example");
            assert_eq!(to, "customer@external.com");
        }
        other => panic!("unexpected {:?}", other),
    }
    assert_eq!(s.finish_relay(), "250 OK: reply relayed");
    assert_eq!(s.state(), SmtpState::Greet);
}

#[test]
fn session_reply_token_refusals() {
    let mut s = SmtpSession::new(limits(), "secret".to_string());
    s.on_command_at("EHLO x", 0);
    s.on_command_at("MAIL FROM:<intruder@evil.example>", 0);
    s.on_command_at("RCPT TO:<reply-abc123@relay.example>", 0);
    match s.on_reply_token(Lookup::Found(mapping())) {
        TokenStep::Reply(r) => assert_eq!(r, "550 Sender Denied"),
        other => panic!("unexpected {:?}", other),
    }
    match s.on_reply_token(Lookup::Missing) {
        TokenStep::Reply(r) => assert_eq!(r, "550 User Not Found"),
        other => panic!("unexpected {:?}", other),
    }
    match s.on_reply_token(Lookup::Failed) {
        TokenStep::Reply(r) => assert_eq!(r, "451 Requested action aborted"),
        other => panic!("unexpected {:?}", other),
    }
    assert_eq!(s.on_spf(mapping(), false), "550 SPF Validation Failed");
    assert_eq!(s.state(), SmtpState::RcptTo);
}

#[test]
fn session_starttls_answers() {
    let mut s = SmtpSession::new(limits(), "k".to_string());
    match s.on_starttls(false, false) {
        TlsStep::Reply(r) => assert_eq!(r, "502 Command not implemented"),
        other => panic!("unexpected {:?}", other),
    }
    match s.on_starttls(true, false) {
        TlsStep::Reply(r) => assert_eq!(r, "454 TLS not available due to temporary reason"),
        other => panic!("unexpected {:?}", other),
    }
    match s.on_starttls(true, true) {
        TlsStep::Begin(r) => assert_eq!(r, "220 Ready to start TLS"),
        other => panic!("unexpected {:?}", other),
    }
    s.on_command_at("HELO x", 0);
    s.on_tls_established();
    assert_eq!(s.state(), SmtpState::Greet);
}

#[test]
fn session_refuses_oversized_body() {
    let mut s = SmtpSession::new(limits(), "k".to_string());
    s.on_command_at("HELO x", 0);
    s.on_command_at("MAIL FROM:<a@b.c>", 0);
    s.on_command_at("RCPT TO:<x@y.z>", 0);
    s.on_alias(Lookup::Found(AliasRoute { alias_id: 1, destination_email: "d@e.f".to_string(), auto_forward: false }));
    s.on_command_at("DATA", 0);
    let chunk = "B".repeat(1024 * 1024);
    for _ in 0..25 {
        assert!(matches!(s.on_body_line(&chunk), BodyStep::Stored(_)));
    }
    match s.on_body_line("B") {
        BodyStep::TooLarge(r) => assert_eq!(r, "552 5.3.4 Message size exceeds fixed maximum message size"),
        other => panic!("unexpected {:?}", other),
    }
    match s.on_body_line(".\r\n") {
        BodyStep::Deliver(_, id, fwd) => {
            assert_eq!(id, Some(1));
            assert_eq!(fwd, None);
        }
        other => panic!("unexpected {:?}", other),
    }
    assert_eq!(s.finish_delivery(None), "451 Requested action aborted");
}

#[test]
fn thread_references_add_in_reply_to() {
    let body = b"From: a@b.c\r\nMessage-ID: <m3@x>\r\nIn-Reply-To: <m2@x>\r\nReferences: <m1@x>\r\nSubject: s\r\n\r\nhi";
    let meta = extract_metadata(body, "env@x");
    assert_eq!(meta.message_id, Some("<m3@x>".to_string()));
    assert_eq!(thread_references(&meta), vec!["<m1@x>".to_string(), "<m2@x>".to_string()]);
    let body2 = b"From: a@b.c\r\nIn-Reply-To: <m1@x>\r\nReferences: <m1@x>\r\n\r\nhi";
    let meta2 = extract_metadata(body2, "env@x");
    assert_eq!(thread_references(&meta2), vec!["<m1@x>".to_string()]);
}

#[test]
fn full_metadata_lists_attachments() {
    let raw = b"From: a@b.c\r\nSubject: s\r\nMIME-Version: 1.0\r\nContent-Type: multipart/mixed; boundary=\"XX\"\r\n\r\n--XX\r\nContent-Type: text/plain\r\n\r\nhello\r\n--XX\r\nContent-Type: application/pdf; name=\"r.pdf\"\r\nContent-Disposition: attachment; filename=\"r.pdf\"\r\nContent-Transfer-Encoding: base64\r\n\r\nJVBERg==\r\n--XX\r\nContent-Type: image/png\r\nContent-ID: <logo>\r\nContent-Disposition: inline; filename=\"l.png\"\r\nContent-Transfer-Encoding: base64\r\n\r\niVBORw==\r\n--XX--\r\n";
    let (meta, atts) = maileroo::message::extract_full_metadata(raw, "env@x");
    assert_eq!(meta.subject, "s");
    assert_eq!(atts.len(), 2);
    assert_eq!(atts[0].filename, Some("r.pdf".to_string()));
    assert_eq!(atts[0].content_type, Some("application/pdf".to_string()));
    assert_eq!(atts[0].size_bytes, 4);
    assert_eq!(atts[0].part_index, 0);
    assert!(!atts[0].is_inline);
    assert_eq!(atts[1].content_id, Some("logo".to_string()));
    assert!(atts[1].is_inline);
    assert_eq!(atts[1].part_index, 1);
}

fn deliver_to_alias(s: &mut SmtpSession, route: AliasRoute) -> BodyStep {
    s.on_command_at("EHLO x", 0);
    assert_eq!(reply_text(s.on_command_at("MAIL FROM:<user@gmail.com>", 0)), "250 OK");
    assert!(matches!(s.on_command_at("RCPT TO:<shop@relay.example>", 0), CommandStep::LookupAlias(_, _)));
    s.on_alias(Lookup::Found(route));
    s.on_command_at("DATA", 0);
    s.on_body_line("Subject: Order\r\n");
    s.on_body_line(".\r\n")
}

#[test]
fn a_finished_reply_leaves_nothing_for_the_next_message() {
    let mut s = SmtpSession::new(limits(), "secret".to_string());
    s.on_command_at("EHLO x", 0);
    s.on_command_at("MAIL FROM:<user@gmail.com>", 0);
    s.on_command_at("RCPT TO:<reply-abc123@relay.example>", 0);
    let m = match s.on_reply_token(Lookup::Found(mapping())) {
        TokenStep::CheckSpf(_, m) => m,
        other => panic!("unexpected {:?}", other),
    };
    s.on_spf(m, true);
    s.on_command_at("DATA", 0);
    s.on_body_line("Subject: Re: Hi\r\n");
    assert!(matches!(s.on_body_line(".\r\n"), BodyStep::RelayReply(_, _)));
    assert_eq!(s.finish_relay(), "250 OK: reply relayed");
    // the next message of the session goes to an ordinary alias, not to the old reply target
    let route = AliasRoute { alias_id: 9, destination_email: "owner@home.example".to_string(), auto_forward: false };
    match deliver_to_alias(&mut s, route) {
        BodyStep::Deliver(sender, id, fwd) => {
            assert_eq!(sender, "user@gmail.com");
            assert_eq!(id, Some(9));
            assert_eq!(fwd, None);
        }
        other => panic!("unexpected {:?}", other),
    }
}

#[test]
fn rset_forgets_the_reply_mapping_and_forwarding() {
    let mut s = SmtpSession::new(limits(), "secret".to_string());
    s.on_command_at("EHLO x", 0);
    s.on_command_at("MAIL FROM:<user@gmail.com>", 0);
    s.on_command_at("RCPT TO:<reply-abc123@relay.example>", 0);
    let m = match s.on_reply_token(Lookup::Found(mapping())) {
        TokenStep::CheckSpf(_, m) => m,
        other => panic!("unexpected {:?}", other),
    };
    s.on_spf(m, true);
    assert_eq!(reply_text(s.on_command_at("RSET", 0)), "250 OK Resetting");
    assert_eq!(s.state(), SmtpState::MailFrom);
    let route = AliasRoute { alias_id: 3, destination_email: "owner@home.example".to_string(), auto_forward: false };
    match deliver_to_alias(&mut s, route) {
        BodyStep::Deliver(_, id, fwd) => {
            assert_eq!(id, Some(3));
            assert_eq!(fwd, None);
        }
        other => panic!("unexpected {:?}", other),
    }
}

#[test]
fn spilled_body_reads_back_as_appended() {
    let mut b = SmartBodyBuffer::new(16);
    let mut file: Vec<u8> = Vec::new();
    let lines = ["Subject: Spill\r\n", "\r\n", "..dotted line\r\n", "plain line that is long\r\n", ".x\r\n"];
    for l in lines.iter() {
        match b.append(l).unwrap() {
            DiskWrite::Nothing => {}
            DiskWrite::Create(v) => file = v,
            DiskWrite::Append(v) => file.extend_from_slice(&v),
        }
    }
    let expected = b"Subject: Spill\r\n\r\n.dotted line\r\nplain line that is long\r\nx\r\n".to_vec();
    assert!(b.is_on_disk());
    assert_eq!(file, expected);
    assert_eq!(b.len(), expected.len());
}
