use maileroo::outbound::{
    advertises, after_failed_attempt, apply_dot_stuffing, auth_plain_command, best_mx, choose_relay, clean_host,
    closing_commands, command_is_clean, data_payload, ehlo_line, envelope_commands, is_final_reply_line,
    is_permanent_failure, recipient_domain, relay_uses_starttls, reply_accepted, retry_delay_minutes,
    second_at_field, sender_domain, with_signature, MxRecord, RelayConfig, RelayEnv, RetryDecision,
};
use maileroo::smtp::SmartBodyBuffer;

#[test]
fn test_exponential_backoff_math() {
    // delay in seconds from "now" for a given number of attempts
    let secs = |attempts: i32| retry_delay_minutes(attempts) * 60;

    assert!(secs(0) >= 55);
    assert!(secs(0) <= 65);

    assert!(secs(1) >= 9 * 60);
    assert!(secs(1) <= 11 * 60);

    assert!(secs(3) >= 39 * 60);
    assert!(secs(3) <= 41 * 60);

    assert!(secs(12) >= 23 * 3600);
    assert!(secs(12) <= 25 * 3600);
}

#[test]
fn backoff_schedule_values() {
    assert_eq!(retry_delay_minutes(-3), 1);
    assert_eq!(retry_delay_minutes(0), 1);
    assert_eq!(retry_delay_minutes(1), 10);
    assert_eq!(retry_delay_minutes(2), 20);
    assert_eq!(retry_delay_minutes(3), 40);
    assert_eq!(retry_delay_minutes(8), 1280);
    assert_eq!(retry_delay_minutes(9), 1440);
    assert_eq!(retry_delay_minutes(i32::MAX), 1440);
}

#[test]
fn retry_or_give_up() {
    assert_eq!(after_failed_attempt(0, 5), RetryDecision::RetryAfter(1, 10));
}

#[test]
fn retry_decision_boundaries() {
    assert_eq!(after_failed_attempt(3, 5), RetryDecision::RetryAfter(4, 80));
    assert_eq!(after_failed_attempt(4, 5), RetryDecision::GiveUp(5));
    assert_eq!(after_failed_attempt(9, 5), RetryDecision::GiveUp(10));
}

#[test]
fn dot_stuffing_doubles_leading_dots() {
    assert_eq!(apply_dot_stuffing(b".a\r\n.b\r\nc.d\r\n."), b"..a\r\n..b\r\nc.d\r\n..".to_vec());
    assert_eq!(data_payload(b"hi"), b"hi\r\n".to_vec());
    assert_eq!(data_payload(b"hi\r\n"), b"hi\r\n".to_vec());
    assert_eq!(data_payload(b""), b"\r\n".to_vec());
}

#[test]
fn stuffed_payload_is_unstuffed_by_the_receiver() {
    let body = "Hello\r\n.hidden line\r\n..two dots\r\nend\r\n";
    let stuffed = String::from_utf8(apply_dot_stuffing(body.as_bytes())).unwrap();
    let mut buffer = SmartBodyBuffer::new(65_536);
    for line in stuffed.split_inclusive('\n') {
        assert_ne!(line, ".\r\n");
        buffer.append(line).unwrap();
    }
    assert_eq!(buffer.get_content_bytes().unwrap(), body.as_bytes());
}

#[test]
fn permanent_failures() {
    assert!(is_permanent_failure("550 5.1.1 No such user"));
    assert!(is_permanent_failure("Invalid recipient address"));
    assert!(is_permanent_failure("Command contains invalid characters"));
    assert!(!is_permanent_failure("421 Try again later"));
}

#[test]
fn address_domains() {
    assert_eq!(second_at_field("a@b@c"), Some("b".to_string()));
    assert_eq!(recipient_domain("user@Example.com"), Some("Example.com".to_string()));
    assert_eq!(recipient_domain("nobody"), None);
    assert_eq!(sender_domain("bounce@ Mail.Example.COM "), "mail.example.com");
    assert_eq!(sender_domain("no-domain"), "");
}

#[test]
fn mx_selection_and_host_names() {
    assert_eq!(best_mx(&[]), None);
    let mx = vec![
        MxRecord { preference: 30, exchange: "c.".to_string() },
        MxRecord { preference: 10, exchange: "a.".to_string() },
        MxRecord { preference: 10, exchange: "b.".to_string() },
    ];
    assert_eq!(best_mx(&mx), Some(1));
    assert_eq!(clean_host("mx.example.com."), "mx.example.com");
    assert_eq!(clean_host("mx.example.com"), "mx.example.com");
}

#[test]
fn reply_lines() {
    assert!(!is_final_reply_line("250-PIPELINING"));
    assert!(is_final_reply_line("250 OK"));
    assert!(is_final_reply_line("250"));
    assert!(reply_accepted(&["250-x".to_string(), "250 OK".to_string()]));
    assert!(reply_accepted(&["354 go".to_string()]));
    assert!(!reply_accepted(&["550 no".to_string()]));
    let caps = vec!["250-mx.example".to_string(), "250-PIPELINING".to_string(), "250 STARTTLS".to_string()];
    assert!(advertises(&caps, "PIPELINING"));
    assert!(!advertises(&caps, "AUTH"));
    assert!(relay_uses_starttls(&caps, 587));
    assert!(!relay_uses_starttls(&caps, 25));
}

#[test]
fn conversation_commands() {
    assert_eq!(ehlo_line("example.com"), "EHLO example.com");
    let env = envelope_commands("sender@example.com", "receiver@domain.com", false);
    assert_eq!(env[0].text, "MAIL FROM:<sender@example.com>");
    assert!(!env[0].delay);
    assert_eq!(env[1].text, "RCPT TO:<receiver@domain.com>");
    assert!(env[1].delay);
    assert_eq!(env[2].text, "DATA");
    let piped = envelope_commands("a@b", "c@d", true);
    assert!(!piped[1].delay && !piped[2].delay);
    let close = closing_commands(true);
    assert_eq!(close[0].text, ".");
    assert_eq!(close[1].text, "QUIT");
    assert!(command_is_clean("RCPT TO:<a@b>"));
    assert!(!command_is_clean("RCPT TO:<a@b>\r\nDATA"));
}

#[test]
fn auth_plain() {
    assert_eq!(auth_plain_command("apikey", "testpass"), Some("AUTH PLAIN AGFwaWtleQB0ZXN0cGFzcw==".to_string()));
    assert_eq!(auth_plain_command("", "x"), None);
    assert_eq!(auth_plain_command("x", ""), None);
}

fn env() -> RelayEnv {
    RelayEnv { relay_token: None, relay_password: None, token: None, host: None, port: None, user: None }
}

#[test]
fn relay_selection() {
    assert!(choose_relay(None, &env()).is_none());
    let mut e = env();
    e.relay_password = Some("pw".to_string());
    e.port = Some("notaport".to_string());
    let r = choose_relay(None, &e).unwrap();
    assert_eq!(r.host, "live.smtp.mailtrap.io");
    assert_eq!(r.port, 587);
    assert_eq!(r.user, "api");
    assert_eq!(r.pass, "pw");
    e.relay_token = Some("tok".to_string());
    e.port = Some("2525".to_string());
    let r = choose_relay(None, &e).unwrap();
    assert_eq!(r.pass, "tok");
    assert_eq!(r.port, 2525);
    let explicit = RelayConfig { host: "h".into(), port: 25, user: "u".into(), pass: "p".into() };
    let r = choose_relay(Some(explicit), &e).unwrap();
    assert_eq!(r.host, "h");
    assert_eq!(r.port, 25);
}

#[test]
fn signature_framing() {
    assert_eq!(with_signature(None, b"body"), b"body".to_vec());
    assert_eq!(with_signature(Some("DKIM-Signature: v=1"), b"body"), b"DKIM-Signature: v=1\r\nbody".to_vec());
}

#[test]
fn stuffing_adds_one_byte_per_line_start_dot() {
    let payload = b".a\n..b\nc.d\n.\r\n";
    let stuffed = apply_dot_stuffing(payload);
    // dots at line starts: positions 0, 3 and 11
    assert_eq!(stuffed.len(), payload.len() + 3);
    let mut back = Vec::new();
    for piece in stuffed.split_inclusive(|b| *b == b'\n') {
        if piece.first() == Some(&b'.') {
            back.extend_from_slice(&piece[1..]);
        } else {
            back.extend_from_slice(piece);
        }
    }
    assert_eq!(back, payload.to_vec());
}
