use maileroo::i18n::{Locale, Messages};

#[test]
fn test_messages_content() {
    let locales = [Locale::En, Locale::Es, Locale::Fr, Locale::Pt];

    for locale in locales {
        assert!(!locale.login_title().is_empty());
        assert!(!locale.modal_cancel().is_empty());
        assert!(!locale.modal_delete_confirm().is_empty());

        let alias_msg = locale.delete_alias_message("test@alias.com");
        assert!(alias_msg.contains("test@alias.com"));

        let email_msg = locale.delete_email_message("Important Subject");
        assert!(email_msg.contains("Important&#32;Subject"));

        let limit_msg = locale.limit_reached_text(&5);
        assert!(limit_msg.contains("5"));
    }

    assert_ne!(Locale::En.login_title(), Locale::Es.login_title());
    assert_ne!(Locale::En.login_title(), Locale::Fr.login_title());
    assert_ne!(Locale::En.login_title(), Locale::Pt.login_title());

    assert_ne!(Locale::En.modal_cancel(), Locale::Es.modal_cancel());
    assert_ne!(Locale::En.modal_cancel(), Locale::Fr.modal_cancel());
    assert_ne!(Locale::En.modal_cancel(), Locale::Pt.modal_cancel());
}

#[test]
fn test_xss_sanitization_in_delete_messages() {
    let locale = Locale::En;

    let malicious_alias = "<script>alert('alias')</script>";
    let safe_alias_msg = locale.delete_alias_message(malicious_alias);
    assert!(!safe_alias_msg.contains("<script>"));
    assert!(safe_alias_msg.contains("&lt;script&gt;alert(&apos;alias&apos;)&lt;&#47;script&gt;"));

    let malicious_subject = "<b>Free money</b> & <img src=x onerror=alert(1)>";
    let safe_subject_msg = locale.delete_email_message(malicious_subject);
    assert!(!safe_subject_msg.contains("<b>"));
    assert!(!safe_subject_msg.contains("<img"));
    assert!(safe_subject_msg.contains(
        "&lt;b&gt;Free&#32;money&lt;&#47;b&gt;&#32;&amp;&#32;&lt;img&#32;src&#61;x&#32;onerror&#61;alert(1)&gt;"
    ));
}

#[test]
fn test_locale_extraction() {
    assert!(matches!(Locale::from_accept_language(Some("es-ES,es;q=0.9")), Locale::Es));
    assert!(matches!(Locale::from_accept_language(Some("ES")), Locale::Es));
    assert!(matches!(Locale::from_accept_language(Some("fr-FR,fr;q=0.9")), Locale::Fr));
    assert!(matches!(Locale::from_accept_language(Some("FR")), Locale::Fr));
    assert!(matches!(Locale::from_accept_language(Some("pt-PT,pt;q=0.9")), Locale::Pt));
    assert!(matches!(Locale::from_accept_language(Some("PT")), Locale::Pt));
    assert!(matches!(Locale::from_accept_language(Some("en-US,en;q=0.9")), Locale::En));
    assert!(matches!(Locale::from_accept_language(None), Locale::En));
    assert!(matches!(Locale::from_accept_language(Some("de-DE")), Locale::En));
}

#[test]
fn locale_codes_and_default() {
    assert_eq!(Locale::default(), Locale::En);
    assert_eq!(Locale::Es.as_str(), "es");
    assert_eq!(Locale::Pt.as_str(), "pt");
}

#[test]
fn escaping_leaves_no_angle_brackets() {
    for l in [Locale::En, Locale::Es, Locale::Fr, Locale::Pt] {
        let m = l.delete_email_message("<<>>\"'&=/ `");
        assert!(!m.contains("<<"));
        assert!(m.contains("&lt;&lt;&gt;&gt;&quot;&apos;&amp;&#61;&#47;&#32;&grave;"));
    }
}
