use maileroo::dns::{DnsCheckResult, RecordStatus};
use maileroo::web::{forward_toggle_html, password_input_from_request, PasswordToggleRequest, ApiKeyError, PaginationParams, api_key_hash, api_key_lookup_hash, api_listing, api_total_pages, batch_delete_modal, delete_alias_modal, delete_email_modal, domain_row_html};
use maileroo::i18n::{Messages};
use maileroo::web::{alias_refusal_message, check_alias_request, is_crawler_path, AliasRefusal};
use maileroo::i18n::Locale;
use maileroo::web::{
    alias_error_message, alias_limit_reached, available_suggestions, csrf_cookie, extract_client_ip,
    extract_domain, is_valid_email, login_password_acceptable, merge_thread_messages, register_password_acceptable,
    render_toggle_td, requested_subdomain, validate_alias, validate_csrf_token, AliasError, AuthError,
    AuthenticatedUser, ThreadMessage, MAX_ALIASES_PER_USER,
};

#[test]
fn test_extract_domain_with_subdomains() {
    let cases = vec![
        ("user@example.com", Some("example.com")),
        ("user@sub.example.com", Some("sub.example.com")),
        ("user@deep.sub.example.co.uk", Some("deep.sub.example.co.uk")),
        ("  user@trimmed.com  ", Some("trimmed.com")),
        ("invalid-email", None),
        ("too@many@parts.com", None),
        ("empty@ ", None),
    ];

    for (input, expected) in cases {
        assert_eq!(extract_domain(input.trim()).as_deref(), expected, "Failed on input: {}", input);
    }
}

#[test]
fn test_validate_csrf_token() {
    let p_get = "GET";
    let p_post = "POST";

    assert!(validate_csrf_token(p_post, Some("token123"), Some("token123")).is_ok());

    assert_eq!(validate_csrf_token(p_post, None, Some("token123")), Err(AuthError::CsrfVerificationFailed));
    assert_eq!(validate_csrf_token(p_post, Some("token123"), None), Err(AuthError::CsrfVerificationFailed));

    assert_eq!(
        validate_csrf_token(p_post, Some("evil_token"), Some("token123")),
        Err(AuthError::CsrfVerificationFailed)
    );

    assert_eq!(validate_csrf_token(p_post, Some(""), Some("")), Err(AuthError::CsrfVerificationFailed));

    assert!(validate_csrf_token(p_get, None, None).is_ok());
    assert!(validate_csrf_token(p_get, Some("a"), Some("b")).is_ok());
}

#[test]
fn csrf_safe_methods() {
    assert!(validate_csrf_token("HEAD", None, None).is_ok());
    assert!(validate_csrf_token("OPTIONS", None, None).is_ok());
    assert!(validate_csrf_token("DELETE", None, None).is_err());
    assert!(validate_csrf_token("PUT", Some("t"), Some("t")).is_ok());
}

fn user(is_admin: bool, bypass: bool, firsthand: bool) -> AuthenticatedUser {
    AuthenticatedUser { user_id: 42, is_admin, bypass_alias_limit: bypass, can_send_firsthand: firsthand }
}

#[test]
fn test_can_bypass_alias_limit() {
    assert!(!user(false, false, false).can_bypass_alias_limit());
    assert!(user(true, false, false).can_bypass_alias_limit());
    assert!(user(false, true, false).can_bypass_alias_limit());
    assert!(user(true, true, false).can_bypass_alias_limit());
}

#[test]
fn permissions() {
    assert_eq!(user(false, true, true).require_admin(), Err(AuthError::Forbidden));
    assert_eq!(user(true, false, false).require_admin(), Ok(()));
    assert_eq!(user(false, false, false).require_firsthand_sender(), Err(AuthError::Forbidden));
    assert_eq!(user(false, false, true).require_firsthand_sender(), Ok(()));
    assert_eq!(user(true, false, false).require_firsthand_sender(), Ok(()));
}

#[test]
fn test_merge_thread_messages() {
    let now: i128 = 1_700_000_000_000_000_000;
    let minute: i128 = 60_000_000_000;
    let m1 = ThreadMessage::Inbound { id: 1, sender: "a".into(), body_text: "1".into(), sent_at: now };
    let m2 = ThreadMessage::Outbound { id: 2, body_text: "2".into(), sent_at: now + minute };
    let m3 = ThreadMessage::Inbound { id: 3, sender: "b".into(), body_text: "3".into(), sent_at: now + 2 * minute };

    let merged = merge_thread_messages(vec![m3, m1], vec![m2]);
    assert_eq!(merged.len(), 3);
    assert!(matches!(merged[0], ThreadMessage::Inbound { .. }));
    assert!(matches!(merged[1], ThreadMessage::Outbound { .. }));
    assert!(matches!(merged[2], ThreadMessage::Inbound { .. }));
}

#[test]
fn merge_keeps_order_of_equal_times() {
    let a = ThreadMessage::Inbound { id: 1, sender: "a".into(), body_text: "x".into(), sent_at: 5 };
    let b = ThreadMessage::Inbound { id: 2, sender: "b".into(), body_text: "y".into(), sent_at: 5 };
    let c = ThreadMessage::Outbound { id: 3, body_text: "z".into(), sent_at: 5 };
    let d = ThreadMessage::Outbound { id: 4, body_text: "w".into(), sent_at: -1 };
    let merged = merge_thread_messages(vec![a, b], vec![c, d]);
    let ids: Vec<u128> = merged
        .iter()
        .map(|m| match m {
            ThreadMessage::Inbound { id, .. } | ThreadMessage::Outbound { id, .. } => *id,
        })
        .collect();
    assert_eq!(ids, vec![4, 1, 2, 3]);
    assert_eq!(merged[0].sent_at(), -1);
}

#[test]
fn test_render_toggle_td_enabled() {
    let html = render_toggle_td(true, "Tooltip yes", "/test/url", "Yes", "No");
    assert!(html.contains("checked"));
    assert!(html.contains("maileroo-status-enabled"));
    assert!(html.contains("Yes"));
    assert!(html.contains("/test/url"));
}

#[test]
fn test_render_toggle_td_disabled() {
    let html = render_toggle_td(false, "Tooltip no", "/test/url", "Yes", "No");
    assert!(!html.contains("checked"));
    assert!(html.contains("maileroo-status-disabled"));
    assert!(html.contains("No"));
    assert!(html.contains("/test/url"));
}

#[test]
fn test_validate_alias_length() {
    assert_eq!(validate_alias("a", false), Ok(()));
    assert_eq!(validate_alias(&"a".repeat(32), false), Ok(()));
    assert_eq!(validate_alias(&"a".repeat(33), false), Err(AliasError::TooLong));
}

#[test]
fn test_validate_alias_reserved() {
    assert_eq!(validate_alias("admin", false), Err(AliasError::Reserved));
    assert_eq!(validate_alias("support", false), Err(AliasError::Reserved));
    assert_eq!(validate_alias("my-alias", false), Ok(()));
}

#[test]
fn test_validate_alias_admin_bypass() {
    assert_eq!(validate_alias("admin", true), Ok(()));
    assert_eq!(validate_alias(&"a".repeat(33), true), Err(AliasError::TooLong));
}

#[test]
fn test_validate_alias_invalid_format() {
    assert_eq!(validate_alias("valid-name", false), Ok(()));
    assert_eq!(validate_alias("valid.name", false), Ok(()));
    assert_eq!(validate_alias("123name", false), Ok(()));
    assert_eq!(validate_alias("name123", false), Ok(()));

    assert_eq!(validate_alias("name\r\n", false), Err(AliasError::InvalidFormat));
    assert_eq!(validate_alias("name<script>", false), Err(AliasError::InvalidFormat));
    assert_eq!(validate_alias("name!@#", false), Err(AliasError::InvalidFormat));
    assert_eq!(validate_alias("name spaces", false), Err(AliasError::InvalidFormat));
    assert_eq!(validate_alias("Uppercase", false), Err(AliasError::InvalidFormat));

    assert_eq!(validate_alias("-name", false), Err(AliasError::InvalidFormat));
    assert_eq!(validate_alias("name-", false), Err(AliasError::InvalidFormat));
    assert_eq!(validate_alias(".name", false), Err(AliasError::InvalidFormat));
    assert_eq!(validate_alias("name.", false), Err(AliasError::InvalidFormat));
}

#[test]
fn empty_alias_is_too_long_error() {
    assert_eq!(validate_alias("", false), Err(AliasError::TooLong));
    assert_eq!(validate_alias("é", false), Err(AliasError::InvalidFormat));
}

#[test]
fn alias_limits() {
    assert_eq!(MAX_ALIASES_PER_USER, 4);
    assert!(!alias_limit_reached(false, 3));
    assert!(alias_limit_reached(false, 4));
    assert!(!alias_limit_reached(true, 400));
}

#[test]
fn alias_request_and_messages() {
    assert_eq!(requested_subdomain(&Some("mine".to_string()), &Some("sugg".to_string())), "mine");
    assert_eq!(requested_subdomain(&Some(String::new()), &Some("sugg".to_string())), "sugg");
    assert_eq!(requested_subdomain(&None, &None), "info");
    assert!(!alias_error_message(Locale::En, &AliasError::TooLong).is_empty());
    assert_ne!(
        alias_error_message(Locale::En, &AliasError::Reserved),
        alias_error_message(Locale::Es, &AliasError::Reserved)
    );
}

#[test]
fn suggestions_skip_taken_names() {
    let cands: Vec<String> = vec!["info".into(), "sales".into(), "hello".into()];
    let taken: Vec<String> = vec!["sales".into()];
    assert_eq!(available_suggestions(&cands, &taken), vec!["info".to_string(), "hello".to_string()]);
}

#[test]
fn email_shape() {
    assert!(is_valid_email("a@b.co"));
    assert!(!is_valid_email("a@b"));
    assert!(!is_valid_email("a b@c.d"));
    assert!(!is_valid_email("a@@b.c"));
    assert!(!is_valid_email("@b.c"));
    assert!(!is_valid_email("a@.c"));
}

#[test]
fn client_ip_choice() {
    assert_eq!(extract_client_ip(Some(" 1.2.3.4 , 5.6.7.8"), Some("9.9.9.9:1")), "1.2.3.4");
    assert_eq!(extract_client_ip(None, Some("9.9.9.9:1")), "9.9.9.9:1");
    assert_eq!(extract_client_ip(None, None), "unknown");
}

#[test]
fn csrf_cookie_text() {
    assert_eq!(csrf_cookie(Some("abc"), "", "true"), "csrf_token=abc; Path=/; SameSite=Lax; Secure");
    assert_eq!(
        csrf_cookie(Some("abc"), "example.com", "false"),
        "csrf_token=abc; Path=/; SameSite=Lax; Domain=example.com"
    );
    assert_eq!(csrf_cookie(None, "", "false"), "csrf_token=; Path=/; SameSite=Lax; Max-Age=0");
}

#[test]
fn password_lengths() {
    assert!(login_password_acceptable(&"x".repeat(128)));
    assert!(!login_password_acceptable(&"x".repeat(129)));
    assert!(!register_password_acceptable("short"));
    assert!(register_password_acceptable("longenough"));
}

#[test]
fn domain_rows() {
    let st = |ok: bool, m: &str| RecordStatus { ok, message: m.to_string(), value: None };
    let dns = Some(DnsCheckResult {
        is_ok: true,
        mx_status: st(true, "Found 1 MX records"),
        spf_status: st(true, "SPF record found"),
        dmarc_status: st(false, "No DMARC record found."),
    });
    let html = domain_row_html(0x2a, "example.com", &dns, false, false, "2024-01-02");
    assert!(html.starts_with("<tr id='domain-00000000-0000-0000-0000-00000000002a'>"));
    assert!(html.contains("DNS OK"));
    assert!(html.contains("<strong>MX:</strong> Found 1 MX records<br><strong>SPF:</strong> SPF record found"));
    assert!(html.contains("⚠️ No DKIM"));
    assert!(html.contains("<td style='color: #666; font-size: 0.9rem;'>2024-01-02</td>"));
    assert!(html.contains("hx-delete='/domains/00000000-0000-0000-0000-00000000002a'"));
    let unknown = domain_row_html(1, "x.test", &None, true, true, "2024-01-02");
    assert!(unknown.contains("DNS Unknown"));
    assert!(unknown.contains("⏳ Rotating"));
    let plain = domain_row_html(1, "x.test", &None, true, false, "2024-01-02");
    assert!(!plain.contains("Rotating") && !plain.contains("No DKIM"));
}

#[test]
fn api_key_header() {
    assert_eq!(api_key_lookup_hash(None), Err(ApiKeyError::Missing));
    assert_eq!(api_key_lookup_hash(Some("Token abc")), Err(ApiKeyError::BadFormat));
    assert_eq!(api_key_lookup_hash(Some("Bearer abc")), Ok(api_key_hash("abc")));
    // SHA-256 of "abc"
    assert_eq!(api_key_hash("abc"), "ba7816bf8f01cfea414140de5dae2223b00361a396177a9cb410ff61f20015ad");
    assert_eq!(ApiKeyError::Missing.message(), "Missing API key");
    assert_eq!(ApiKeyError::BadFormat.message(), "Invalid API key format");
}

#[test]
fn delete_dialogs() {
    let m = delete_email_modal(Locale::En, 0x10, "Hi <b>", None, None, Some("true"));
    assert_eq!(m.action_url, "/emails/00000000-0000-0000-0000-000000000010?redirect=true");
    assert_eq!(m.target, "#email-00000000-0000-0000-0000-000000000010");
    assert_eq!(m.swap, "outerHTML");
    assert_eq!(m.message, Locale::En.delete_email_message("Hi <b>"));
    assert!(!m.message.contains("<b>"));
    let m2 = delete_email_modal(Locale::Fr, 1, "s", Some("#row".into()), Some("innerHTML".into()), Some("no"));
    assert_eq!(m2.action_url, "/emails/00000000-0000-0000-0000-000000000001");
    assert_eq!(m2.target, "#row");
    assert_eq!(m2.swap, "innerHTML");
    assert!(batch_delete_modal(Locale::En, 0).is_none());
    let b = batch_delete_modal(Locale::En, 3).unwrap();
    assert!(b.message.contains("<strong>3</strong>"));
    assert_eq!(b.include_target, Some("#batch-delete-form".to_string()));
    let a = delete_alias_modal(Locale::En, "abc", "sales", "example.com");
    assert_eq!(a.action_url, "/aliases/abc");
    assert!(a.message.contains("sales@example.com"));
}

#[test]
fn api_listing_requests() {
    let l = api_listing(&PaginationParams { page: Some(0), alias: Some(String::new()), q: Some(String::new()) });
    assert_eq!((l.page, l.page_size, l.offset), (1, 10, 0));
    assert_eq!(l.alias_filter, None);
    assert_eq!(l.query, Some(String::new()));
    let l = api_listing(&PaginationParams { page: Some(4), alias: Some("sales".into()), q: None });
    assert_eq!(l.offset, 30);
    assert_eq!(l.alias_filter, Some("sales".to_string()));
    assert_eq!(api_total_pages(0), 0);
    assert_eq!(api_total_pages(1), 1);
    assert_eq!(api_total_pages(10), 1);
    assert_eq!(api_total_pages(11), 2);
}

#[test]
fn password_and_forward_widgets() {
    let t = password_input_from_request(PasswordToggleRequest {
        show: true,
        password: None,
        minlength: Some("8".into()),
        placeholder: None,
        autocomplete: Some("new-password".into()),
    });
    assert!(t.show);
    assert_eq!(t.value, "");
    assert_eq!(t.minlength, Some("8".to_string()));
    let on = forward_toggle_html(Locale::En, true, "abc");
    assert!(on.contains("checked"));
    assert!(on.contains("hx-post=\"/aliases/abc/toggle-forward\""));
    assert!(on.contains("maileroo-status-enabled"));
    let off = forward_toggle_html(Locale::En, false, "abc");
    assert!(!off.contains("checked"));
    assert!(off.contains("maileroo-status-disabled"));
}

#[test]
fn scanner_paths_are_recognised_in_any_case() {
    assert!(is_crawler_path("/wp-admin/install.php"));
    assert!(is_crawler_path("/WP-ADMIN"));
    assert!(is_crawler_path("/.env"));
    assert!(is_crawler_path("/.git/HEAD"));
    assert!(is_crawler_path("/app/Config.json"));
    assert!(is_crawler_path("/phpMyAdmin/"));
    assert!(!is_crawler_path("/dashboard"));
    assert!(!is_crawler_path("/api/emails"));
    assert!(!is_crawler_path("/"));
}

#[test]
fn alias_requests_are_checked_limit_first() {
    let none: Option<String> = None;
    // at the limit, nothing else is looked at
    assert_eq!(
        check_alias_request(false, MAX_ALIASES_PER_USER, &Some("ADMIN!".to_string()), &none, false),
        Err(AliasRefusal::LimitReached)
    );
    // a user allowed to bypass the limit goes on to validation
    assert_eq!(check_alias_request(true, 99, &Some("shop".to_string()), &none, false), Ok("shop".to_string()));
    assert_eq!(
        check_alias_request(false, 0, &Some("admin".to_string()), &none, false),
        Err(AliasRefusal::Invalid(AliasError::Reserved))
    );
    assert_eq!(check_alias_request(false, 0, &Some("admin".to_string()), &none, true), Ok("admin".to_string()));
    assert_eq!(
        check_alias_request(false, 1, &Some("Bad_Name".to_string()), &none, false),
        Err(AliasRefusal::Invalid(AliasError::InvalidFormat))
    );
    // an empty custom entry falls back to the suggestion, then to `info` (reserved)
    assert_eq!(
        check_alias_request(false, 1, &Some(String::new()), &Some("news".to_string()), false),
        Ok("news".to_string())
    );
    assert_eq!(
        check_alias_request(false, 1, &none, &none, false),
        Err(AliasRefusal::Invalid(AliasError::Reserved))
    );
    assert_eq!(
        alias_refusal_message(Locale::En, &AliasRefusal::LimitReached),
        "You have reached the maximum limit of 4 aliases."
    );
    assert_eq!(
        alias_refusal_message(Locale::En, &AliasRefusal::Invalid(AliasError::TooLong)),
        alias_error_message(Locale::En, &AliasError::TooLong)
    );
    assert_eq!(alias_refusal_message(Locale::En, &AliasRefusal::Taken), Locale::En.error_alias_taken());
}
