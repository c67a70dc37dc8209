use base64::Engine;
use maileroo::config::{config_or, resolve_acme_cert_path, AdminConfig, ConfigError, MailerooServer, ServerEnv};
use sha2::Digest;

fn empty_env() -> ServerEnv {
    ServerEnv {
        database_url: None,
        srs_secret: None,
        prod_domain: None,
        smtp_addr: None,
        web_addr: None,
        storage_dir: None,
        email_retention_days: None,
        auto_tls: None,
        acme_email: None,
        acme_cache_dir: None,
        acme_directory: None,
        auto_tls_http_port: None,
        auto_tls_https_port: None,
        certs_path: None,
    }
}

fn expected_cert_name(domain: &str, dir: &str) -> String {
    let mut h = sha2::Sha256::new();
    h.update(domain.as_bytes());
    h.update([0u8]);
    h.update(dir.as_bytes());
    let digest = h.finalize();
    format!("cached_cert_{}", base64::engine::general_purpose::URL_SAFE_NO_PAD.encode(digest))
}

#[test]
fn test_resolve_acme_cert_path_alignment() {
    let domain = "maileroo.test";
    let acme_directory = "https://acme-staging-v02.api.letsencrypt.org/directory";
    let resolved = resolve_acme_cert_path("/tmp/acme", domain, acme_directory);
    assert_eq!(resolved, format!("/tmp/acme/{}", expected_cert_name(domain, acme_directory)));
    let resolved2 = resolve_acme_cert_path("/tmp/acme/", domain, acme_directory);
    assert_eq!(resolved2, resolved);
}

#[test]
fn missing_required_settings_are_listed() {
    match MailerooServer::from_env(&empty_env()) {
        Err(ConfigError::Missing(m)) => assert_eq!(
            m,
            vec![
                "DATABASE_URL".to_string(),
                "SRS_SECRET".to_string(),
                "PROD_DOMAIN (This is your web portal domain, e.g., example.com)".to_string()
            ]
        ),
        Ok(_) => panic!("expected an error"),
    }
    let mut env = empty_env();
    env.database_url = Some("sqlite::memory:".to_string());
    env.prod_domain = Some(String::new());
    match MailerooServer::from_env(&env) {
        Err(ConfigError::Missing(m)) => assert_eq!(m.len(), 2),
        Ok(_) => panic!("expected an error"),
    }
}

#[test]
fn server_defaults() {
    let mut env = empty_env();
    env.database_url = Some("sqlite://db".to_string());
    env.srs_secret = Some("s".to_string());
    env.prod_domain = Some("example.com".to_string());
    env.email_retention_days = Some("-7".to_string());
    let s = match MailerooServer::from_env(&env) {
        Ok(s) => s,
        Err(_) => panic!("expected a configuration"),
    };
    assert_eq!(s.smtp_addr, "0.0.0.0:2525");
    assert_eq!(s.web_addr, "0.0.0.0:3000");
    assert_eq!(s.storage_dir, "./storage/emails");
    assert_eq!(s.email_retention_days, -7);
    assert!(s.config.auto_tls.is_none());
    assert_eq!(s.cert_path, "./smtp_cert.pem");
    assert_eq!(s.key_path, "./smtp_key.pem");
}

#[test]
fn server_with_auto_tls() {
    let mut env = empty_env();
    env.database_url = Some("sqlite://db".to_string());
    env.srs_secret = Some("s".to_string());
    env.prod_domain = Some("example.com".to_string());
    env.auto_tls = Some("true".to_string());
    env.auto_tls_http_port = Some("8080".to_string());
    env.auto_tls_https_port = Some("99999".to_string());
    env.email_retention_days = Some("x".to_string());
    let s = match MailerooServer::from_env(&env) {
        Ok(s) => s,
        Err(_) => panic!("expected a configuration"),
    };
    let t = s.config.auto_tls.as_ref().unwrap();
    assert_eq!(t.domain, "example.com");
    assert_eq!(t.http_port, 8080);
    assert_eq!(t.https_port, 443);
    assert_eq!(t.cache_dir, "./storage/certs/acme");
    assert_eq!(s.email_retention_days, 30);
    let expected = format!(
        "./storage/certs/acme/{}",
        expected_cert_name("example.com", "https://acme-v02.api.letsencrypt.org/directory")
    );
    assert_eq!(s.cert_path, expected);
    assert_eq!(s.key_path, expected);
}

#[test]
fn settings_with_defaults() {
    assert_eq!(config_or(&None, "d"), "d");
    assert_eq!(config_or(&Some(String::new()), "d"), "");
    assert_eq!(config_or(&Some("v".to_string()), "d"), "v");
    let a = AdminConfig::from_env(&Some("admin@x".to_string()), &None);
    assert_eq!(a.email, "admin@x");
    assert_eq!(a.password, "");
}

#[test]
fn admin_credentials_are_checked_before_seeding() {
    let ok = AdminConfig::from_env(&Some("  admin@example.com ".to_string()), &Some("longenough".to_string()));
    assert!(ok.credential_errors().is_empty());

    let none = AdminConfig::from_env(&None, &None);
    assert_eq!(
        none.credential_errors(),
        vec![
            "ADMIN_EMAIL must be a non-empty, valid email address.",
            "ADMIN_PASSWORD must be at least 8 characters long for adequate security.",
        ]
    );

    let no_at = AdminConfig::from_env(&Some("admin".to_string()), &Some("12345678".to_string()));
    assert_eq!(no_at.credential_errors(), vec!["ADMIN_EMAIL must be a non-empty, valid email address."]);

    let short = AdminConfig::from_env(&Some("a@b".to_string()), &Some("1234567".to_string()));
    assert_eq!(
        short.credential_errors(),
        vec!["ADMIN_PASSWORD must be at least 8 characters long for adequate security."]
    );
    // the length is counted in bytes: four two-byte characters are enough
    let bytes = AdminConfig::from_env(&Some("a@b".to_string()), &Some("éééé".to_string()));
    assert!(bytes.credential_errors().is_empty());
}
