use maileroo::delivery::{forward_with_reply_token, reply_message, ClientAction, ClientStage, SmtpClient};
use maileroo::mime::build_mime;
use maileroo::outbound::RelayConfig;
use maileroo::smtp::{new_reply_token, SmtpSession, CommandStep, InboundLimits};
use maileroo::srs::decode_srs;

fn reply(lines: &[&str]) -> Vec<String> {
    lines.iter().map(|l| l.to_string()).collect()
}

fn sent(a: ClientAction) -> (String, bool) {
    match a {
        ClientAction::Send(c, d) => (c, d),
        other => panic!("expected a command, got {:?}", other),
    }
}

#[test]
fn test_outbound_relay_protocol_flow() {
    let relay = RelayConfig { host: "127.0.0.1".into(), port: 2525, user: "apikey".into(), pass: "testpass".into() };
    let body = b"Subject: Hello Relay\r\n\r\nThis is the body.".to_vec();
    let mut c = SmtpClient::to_relay("example.com", &relay, "sender@example.com", "receiver@domain.com", body);

    let (cmd, _) = sent(c.on_reply(reply(&["220 smtp.mockrelay.com Welcome"])));
    assert_eq!(cmd, "EHLO example.com");
    let (cmd, _) = sent(c.on_reply(reply(&["250-smtp.mockrelay.com", "250 AUTH PLAIN"])));
    assert!(cmd.starts_with("AUTH PLAIN"));
    let (cmd, _) = sent(c.on_reply(reply(&["235 Authentication successful"])));
    assert!(cmd.starts_with("MAIL FROM"));
    let (cmd, delay) = sent(c.on_reply(reply(&["250 OK"])));
    assert!(cmd.starts_with("RCPT TO"));
    assert!(delay);
    let (cmd, _) = sent(c.on_reply(reply(&["250 OK"])));
    assert!(cmd.starts_with("DATA"));
    match c.on_reply(reply(&["354 Start input"])) {
        ClientAction::SendData(data, _) => assert_eq!(data, b"Subject: Hello Relay\r\n\r\nThis is the body.\r\n".to_vec()),
        other => panic!("unexpected {:?}", other),
    }
    let (cmd, _) = sent(c.on_reply(reply(&["250 OK Queued"])));
    assert!(cmd.starts_with("QUIT"));
    assert!(matches!(c.on_reply(reply(&["221 Bye"])), ClientAction::Done));
    assert_eq!(c.stage(), ClientStage::Done);
}

#[test]
fn mx_delivery_upgrades_to_tls_and_pipelines() {
    let mut c = SmtpClient::to_mx("relay.example", "a@relay.example", "b@far.example", b".dot\r\n".to_vec());
    sent(c.on_reply(reply(&["220 mx ready"])));
    let (cmd, _) = sent(c.on_reply(reply(&["250-mx", "250-PIPELINING", "250 STARTTLS"])));
    assert_eq!(cmd, "STARTTLS");
    assert!(matches!(c.on_reply(reply(&["220 go ahead"])), ClientAction::StartTls));
    assert_eq!(c.stage(), ClientStage::Handshake);
    let (cmd, _) = sent(c.on_tls_established());
    assert_eq!(cmd, "EHLO relay.example");
    let (cmd, delay) = sent(c.on_reply(reply(&["250-mx", "250 PIPELINING"])));
    assert_eq!(cmd, "MAIL FROM:<a@relay.example>");
    assert!(!delay);
    let (cmd, delay) = sent(c.on_reply(reply(&["250 OK"])));
    assert_eq!(cmd, "RCPT TO:<b@far.example>");
    assert!(!delay);
    sent(c.on_reply(reply(&["250 OK"])));
    match c.on_reply(reply(&["354 go"])) {
        ClientAction::SendData(data, delay) => {
            assert_eq!(data, b"..dot\r\n".to_vec());
            assert!(!delay);
        }
        other => panic!("unexpected {:?}", other),
    }
}

#[test]
fn relay_on_other_port_skips_tls_and_auth_without_credentials() {
    let relay = RelayConfig { host: "h".into(), port: 25, user: "".into(), pass: "p".into() };
    let mut c = SmtpClient::to_relay("x.example", &relay, "a@x.example", "b@y.example", Vec::new());
    sent(c.on_reply(reply(&["220 hi"])));
    let (cmd, _) = sent(c.on_reply(reply(&["250 STARTTLS"])));
    assert_eq!(cmd, "MAIL FROM:<a@x.example>");
}

#[test]
fn refused_command_fails_with_the_reply() {
    let mut c = SmtpClient::to_mx("x.example", "a@x.example", "nobody@y.example", Vec::new());
    sent(c.on_reply(reply(&["220 hi"])));
    sent(c.on_reply(reply(&["250 ok"])));
    sent(c.on_reply(reply(&["250 ok"])));
    match c.on_reply(reply(&["550-No such user", "550 5.1.1 Rejected"])) {
        ClientAction::Fail(e) => assert_eq!(
            e,
            "SMTP Error for command 'RCPT TO:<nobody@y.example>': 550-No such user\n550 5.1.1 Rejected"
        ),
        other => panic!("unexpected {:?}", other),
    }
    assert_eq!(c.stage(), ClientStage::Failed);
}

#[test]
fn line_breaks_in_addresses_are_refused() {
    let mut c = SmtpClient::to_mx("x.example", "a@x.example\r\nRCPT TO:<evil@z>", "b@y.example", Vec::new());
    sent(c.on_reply(reply(&["220 hi"])));
    match c.on_reply(reply(&["250 ok"])) {
        ClientAction::Fail(e) => assert_eq!(e, "Command contains invalid characters"),
        other => panic!("unexpected {:?}", other),
    }
}

#[test]
fn portal_reply_is_threaded() {
    let m = reply_message("them@x.example", "me@relay.example", "Hello", "Thanks", Some("orig@x".into()), None);
    assert_eq!(m.in_reply_to, Some("orig@x".to_string()));
    assert_eq!(m.references, Some("orig@x".to_string()));
    let mime = build_mime(&m);
    assert!(mime.contains("Subject: Re: Hello\r\n"));
    assert!(mime.contains("In-Reply-To: <orig@x>\r\n"));
    assert!(mime.contains("Message-ID: <"));
}

#[test]
fn forwards_carry_a_reply_address() {
    let raw = b"From: Alice <alice@example.com>\r\nSubject: Hi\r\n\r\nBody";
    let (envelope, message) =
        forward_with_reply_token("dest@gmail.com", "alice@example.com", "reply-abc", "relay.example", "k", raw);
    assert_eq!(decode_srs(&envelope, "k"), Some("reply-abc@relay.example".to_string()));
    assert!(envelope.ends_with("@relay.example"));
    assert!(message.contains("From: \"Alice via Relay\" <reply-abc@relay.example>\r\n"));
    assert!(message.contains("To: dest@gmail.com\r\n"));
}

#[test]
fn fresh_reply_tokens_route_back() {
    let t = new_reply_token();
    assert_eq!(t.len(), 38);
    assert!(t.starts_with("reply-"));
    assert!(t[6..].chars().all(|c| c.is_ascii_hexdigit() && !c.is_ascii_uppercase()));
    assert_ne!(t, new_reply_token());
    let limits = InboundLimits { tarpit_threshold: 2, block_threshold: 5, tarpit_duration_secs: 30 };
    let mut s = SmtpSession::new(limits, "k".to_string());
    s.on_command_at("HELO x", 0);
    s.on_command_at("MAIL FROM:<a@b.c>", 0);
    match s.on_command_at(&format!("RCPT TO:<{}@relay.example>", t), 0) {
        CommandStep::LookupReplyToken(found) => assert_eq!(found, t),
        other => panic!("unexpected {:?}", other),
    }
}
