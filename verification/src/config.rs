//! Settings read from the environment.  The environment itself is read by the
//! program; the library takes each variable's value (`None` when it is unset) and
//! decides defaults, parsing and what is missing.
use vstd::prelude::*;
use vstd::utf8::encode_utf8;
use crate::crypto::{sha256, spec_sha256};
use crate::mime::opt_view;
use crate::text::{
    chars_of, ends_with, has_char, lacks, parse_bounded, parse_i64, parse_i64_spec, parse_unsigned, push_str,
    str_eq, string_from, trim, trim_chars,
};

verus! {

/// A setting's value, or its default when it is unset.
pub open spec fn value_or(v: Option<Seq<char>>, default: Seq<char>) -> Seq<char> {
    match v {
        Some(x) => x,
        None => default,
    }
}

/// A setting's value, or its default (what `get_config` returns).
pub fn config_or(value: &Option<String>, default: &str) -> (r: String)
    ensures
        r@ == value_or(opt_view(*value), default@),
{
    match value {
        Some(v) => string_from(&chars_of(v.as_str())),
        None => default.to_owned(),
    }
}

/// A port setting: the parsed value, or the default when it is unset or not a port
/// number.
pub open spec fn port_or(v: Option<Seq<char>>, default_text: Seq<char>, default: u16) -> u16 {
    match parse_unsigned(value_or(v, default_text), 65535) {
        Some(n) => n as u16,
        None => default,
    }
}

fn port_setting(value: &Option<String>, default_text: &str, default: u16) -> (p: u16)
    ensures
        p == port_or(opt_view(*value), default_text@, default),
{
    let t = config_or(value, default_text);
    match parse_bounded(&chars_of(t.as_str()), 65535) {
        Some(n) => n as u16,
        None => default,
    }
}

/// The administrator account to seed at startup.
pub struct AdminConfig {
    pub email: String,
    pub password: String,
}

impl AdminConfig {
    /// From `ADMIN_EMAIL` and `ADMIN_PASSWORD` (empty when unset).
    pub fn from_env(email: &Option<String>, password: &Option<String>) -> (c: Self)
        ensures
            c.email@ == value_or(opt_view(*email), Seq::empty()),
            c.password@ == value_or(opt_view(*password), Seq::empty()),
    {
        proof {
            reveal_strlit("");
        }
        AdminConfig { email: config_or(email, ""), password: config_or(password, "") }
    }

    /// The problems with these credentials, in the order they are reported: an email
    /// address that is empty or has no `@` once trimmed, and a password shorter than 8
    /// bytes.  The administrator is seeded only when there are none.
    pub fn credential_errors(&self) -> (r: Vec<&'static str>)
        ensures
            r@.map_values(|m: &'static str| m@) == spec_admin_errors(self.email@, self.password@),
    {
        let mut r: Vec<&'static str> = Vec::new();
        let email = trim_chars(&chars_of(self.email.as_str()));
        if email.len() == 0 || !has_char(&email, '@') {
            r.push("ADMIN_EMAIL must be a non-empty, valid email address.");
        }
        if self.password.as_str().as_bytes().len() < 8 {
            r.push("ADMIN_PASSWORD must be at least 8 characters long for adequate security.");
        }
        assert(r@.map_values(|m: &'static str| m@) =~= spec_admin_errors(self.email@, self.password@));
        r
    }
}

/// The administrator's email is unusable: empty or without `@` once trimmed.
pub open spec fn admin_email_invalid(email: Seq<char>) -> bool {
    trim(email).len() == 0 || lacks(trim(email), '@')
}

/// The messages `AdminConfig::credential_errors` reports, in order.
pub open spec fn spec_admin_errors(email: Seq<char>, password: Seq<char>) -> Seq<Seq<char>> {
    (if admin_email_invalid(email) {
        seq!["ADMIN_EMAIL must be a non-empty, valid email address."@]
    } else {
        Seq::empty()
    }) + (if encode_utf8(password).len() < 8 {
        seq!["ADMIN_PASSWORD must be at least 8 characters long for adequate security."@]
    } else {
        Seq::empty()
    })
}

/// Automatic certificates from an ACME directory for the web portal.
pub struct AutoTlsConfig {
    pub domain: String,
    pub email: String,
    pub cache_dir: String,
    pub acme_directory: String,
    pub http_port: u16,
    pub https_port: u16,
}

pub struct AppConfig {
    pub auto_tls: Option<AutoTlsConfig>,
}

/// The environment variables the server reads at startup.
pub struct ServerEnv {
    pub database_url: Option<String>,
    pub srs_secret: Option<String>,
    pub prod_domain: Option<String>,
    pub smtp_addr: Option<String>,
    pub web_addr: Option<String>,
    pub storage_dir: Option<String>,
    pub email_retention_days: Option<String>,
    pub auto_tls: Option<String>,
    pub acme_email: Option<String>,
    pub acme_cache_dir: Option<String>,
    pub acme_directory: Option<String>,
    pub auto_tls_http_port: Option<String>,
    pub auto_tls_https_port: Option<String>,
    pub certs_path: Option<String>,
}

/// The configuration the server starts with.
pub struct MailerooServer {
    pub database_url: String,
    pub srs_secret: String,
    pub prod_domain: String,
    pub smtp_addr: String,
    pub web_addr: String,
    pub storage_dir: String,
    /// Received emails older than this many days are deleted daily (never when not
    /// positive).
    pub email_retention_days: i64,
    pub config: AppConfig,
    /// Where the SMTP certificate and key are looked for.
    pub cert_path: String,
    pub key_path: String,
}

pub open spec fn default_acme_directory() -> Seq<char> {
    "https://acme-v02.api.letsencrypt.org/directory"@
}

pub open spec fn default_acme_cache() -> Seq<char> {
    "./storage/certs/acme"@
}

/// The URL-safe, unpadded base64 encoding of `data`.
pub uninterp spec fn spec_base64_url_nopad(data: Seq<u8>) -> Seq<char>;

/// `URL_SAFE_NO_PAD.encode`.
#[verifier::external_body]
fn base64_url_nopad(data: &[u8]) -> (s: String)
    ensures
        s@ == spec_base64_url_nopad(data@),
{
    base64::Engine::encode(&base64::engine::general_purpose::URL_SAFE_NO_PAD, data)
}

/// `Path::join` of a relative file name on a Unix path: a `/` goes between unless the
/// directory is empty or already ends with one.
pub open spec fn path_join(dir: Seq<char>, name: Seq<char>) -> Seq<char> {
    if dir.len() == 0 || ends_with(dir, seq!['/']) {
        dir + name
    } else {
        dir + seq!['/'] + name
    }
}

/// Where the ACME client caches the certificate of `domain` from `acme_directory`:
/// `cached_cert_` and the unpadded URL-safe base64 of the SHA-256 of the domain, a
/// zero byte and the directory URL.
pub open spec fn spec_acme_cert_path(cache_dir: Seq<char>, domain: Seq<char>, acme_directory: Seq<char>) -> Seq<char> {
    path_join(
        cache_dir,
        "cached_cert_"@ + spec_base64_url_nopad(
            spec_sha256(encode_utf8(domain) + seq![0u8] + encode_utf8(acme_directory)),
        ),
    )
}

pub fn resolve_acme_cert_path(cache_dir: &str, domain: &str, acme_directory: &str) -> (p: String)
    ensures
        p@ == spec_acme_cert_path(cache_dir@, domain@, acme_directory@),
{
    let mut input: Vec<u8> = Vec::new();
    let d = domain.as_bytes();
    let a = acme_directory.as_bytes();
    let mut i: usize = 0;
    while i < d.len()
        invariant
            i <= d.len(),
            input@ == d@.subrange(0, i as int),
        decreases d.len() - i,
    {
        input.push(d[i]);
        i = i + 1;
        assert(input@ =~= d@.subrange(0, i as int));
    }
    input.push(0u8);
    let ghost head = input@;
    let mut j: usize = 0;
    while j < a.len()
        invariant
            j <= a.len(),
            input@ == head + a@.subrange(0, j as int),
        decreases a.len() - j,
    {
        input.push(a[j]);
        j = j + 1;
        assert(input@ =~= head + a@.subrange(0, j as int));
    }
    assert(d@.subrange(0, d@.len() as int) =~= d@);
    assert(a@.subrange(0, a@.len() as int) =~= a@);
    assert(input@ =~= encode_utf8(domain@) + seq![0u8] + encode_utf8(acme_directory@));
    let hash = base64_url_nopad(&sha256(&input));
    let mut name = "cached_cert_".to_owned();
    push_str(&mut name, hash.as_str());
    join_path(cache_dir, name.as_str())
}

fn join_path(dir: &str, name: &str) -> (p: String)
    ensures
        p@ == path_join(dir@, name@),
{
    let v = chars_of(dir);
    let mut p = string_from(&v);
    if !(v.len() == 0 || v[v.len() - 1] == '/') {
        let slash: Vec<char> = vec!['/'];
        assert(slash@ =~= seq!['/']);
        crate::text::push_chars(&mut p, &slash);
        proof {
            if ends_with(dir@, seq!['/']) {
                assert(dir@.subrange(dir@.len() - 1, dir@.len() as int)[0] == '/');
            }
        }
    } else {
        proof {
            if v@.len() > 0 {
                assert(dir@.subrange(dir@.len() - 1, dir@.len() as int) =~= seq!['/']);
            }
        }
    }
    push_str(&mut p, name);
    p
}

#[derive(Debug)]
pub enum ConfigError {
    /// Required variables are unset or empty; their descriptions, in order.
    Missing(Vec<String>),
}

/// Reads the server configuration.  `DATABASE_URL`, `SRS_SECRET` and `PROD_DOMAIN` are
/// required (nonempty); everything else has a default.  With `AUTO_TLS=true` the
/// portal gets ACME certificates and SMTP uses the cached ACME certificate; otherwise
/// SMTP looks for `smtp_cert.pem` and `smtp_key.pem` under `CERTS_PATH`.
impl MailerooServer {
    pub fn from_env(env: &ServerEnv) -> (r: Result<MailerooServer, ConfigError>)
        ensures
            (env_required(env.database_url).len() == 0 || env_required(env.srs_secret).len() == 0
                || env_required(env.prod_domain).len() == 0) <==> r is Err,
            r matches Err(ConfigError::Missing(m)) ==> m@.map_values(|x: String| x@) == missing_list(
                env_required(env.database_url),
                env_required(env.srs_secret),
                env_required(env.prod_domain),
            ),
            r matches Ok(s) ==> server_settings(s, env),
    {
        proof {
            reveal_strlit("");
        }
        let database_url = config_or(&env.database_url, "");
        let srs_secret = config_or(&env.srs_secret, "");
        let prod_domain = config_or(&env.prod_domain, "");
        let mut missing: Vec<String> = Vec::new();
        if database_url.as_str().is_empty() {
            missing.push("DATABASE_URL".to_owned());
        }
        if srs_secret.as_str().is_empty() {
            missing.push("SRS_SECRET".to_owned());
        }
        if prod_domain.as_str().is_empty() {
            missing.push("PROD_DOMAIN (This is your web portal domain, e.g., example.com)".to_owned());
        }
        if missing.len() > 0 {
            assert(missing@.map_values(|x: String| x@) =~= missing_list(database_url@, srs_secret@, prod_domain@));
            return Err(ConfigError::Missing(missing));
        }
        let smtp_addr = config_or(&env.smtp_addr, "0.0.0.0:2525");
        let web_addr = config_or(&env.web_addr, "0.0.0.0:3000");
        let storage_dir = config_or(&env.storage_dir, "./storage/emails");
        let days_text = config_or(&env.email_retention_days, "30");
        let email_retention_days = match parse_i64(&chars_of(days_text.as_str())) {
            Some(n) => n,
            None => 30,
        };
        let auto_flag = config_or(&env.auto_tls, "false");
        let auto_tls_enabled = str_eq(auto_flag.as_str(), "true");
        let auto_tls = if auto_tls_enabled {
            Some(AutoTlsConfig {
                domain: string_from(&chars_of(prod_domain.as_str())),
                email: config_or(&env.acme_email, ""),
                cache_dir: config_or(&env.acme_cache_dir, "./storage/certs/acme"),
                acme_directory: config_or(&env.acme_directory, "https://acme-v02.api.letsencrypt.org/directory"),
                http_port: port_setting(&env.auto_tls_http_port, "80", 80),
                https_port: port_setting(&env.auto_tls_https_port, "443", 443),
            })
        } else {
            None
        };
        let (cert_path, key_path) = if auto_tls_enabled {
            let cache = config_or(&env.acme_cache_dir, "./storage/certs/acme");
            let dir = config_or(&env.acme_directory, "https://acme-v02.api.letsencrypt.org/directory");
            let p = resolve_acme_cert_path(cache.as_str(), prod_domain.as_str(), dir.as_str());
            (string_from(&chars_of(p.as_str())), p)
        } else {
            let certs = config_or(&env.certs_path, ".");
            let mut c = string_from(&chars_of(certs.as_str()));
            push_str(&mut c, "/smtp_cert.pem");
            let mut k = string_from(&chars_of(certs.as_str()));
            push_str(&mut k, "/smtp_key.pem");
            (c, k)
        };
        let s = MailerooServer {
            database_url,
            srs_secret,
            prod_domain,
            smtp_addr,
            web_addr,
            storage_dir,
            email_retention_days,
            config: AppConfig { auto_tls },
            cert_path,
            key_path,
        };
        let ghost auto = value_or(opt_view(env.auto_tls), "false"@) == "true"@;
        assert(auto == auto_tls_enabled);
        assert(auto ==> s.cert_path@ == spec_acme_cert_path(value_or(opt_view(env.acme_cache_dir), default_acme_cache()), value_or(opt_view(env.prod_domain), Seq::empty()), value_or(opt_view(env.acme_directory), default_acme_directory())));
        assert(!auto ==> s.cert_path@ == value_or(opt_view(env.certs_path), "."@) + "/smtp_cert.pem"@);
        assert(s.email_retention_days == (match parse_i64_spec(value_or(opt_view(env.email_retention_days), "30"@)) {
            Some(n) => n,
            None => 30,
        }));
        assert(auto ==> (s.config.auto_tls matches Some(t) && t.domain@ == value_or(opt_view(env.prod_domain), Seq::empty())));
        assert(auto ==> (s.config.auto_tls matches Some(t) && t.email@ == value_or(opt_view(env.acme_email), Seq::empty())));
        assert(auto ==> (s.config.auto_tls matches Some(t) && t.http_port == port_or(opt_view(env.auto_tls_http_port), "80"@, 80)));
        assert(s.smtp_addr@ == value_or(opt_view(env.smtp_addr), "0.0.0.0:2525"@));
        assert(s.database_url@ == value_or(opt_view(env.database_url), Seq::empty()));
        assert(server_settings(s, env));
        Ok(s)
    }
}

/// A required setting's value (empty when unset).
pub open spec fn env_required(v: Option<String>) -> Seq<char> {
    value_or(opt_view(v), Seq::empty())
}

/// The descriptions of the required variables that are empty, in order.
pub open spec fn missing_list(db: Seq<char>, srs: Seq<char>, prod: Seq<char>) -> Seq<Seq<char>> {
    let a: Seq<Seq<char>> = if db.len() == 0 { seq!["DATABASE_URL"@] } else { Seq::empty() };
    let b: Seq<Seq<char>> = if srs.len() == 0 { seq!["SRS_SECRET"@] } else { Seq::empty() };
    let c: Seq<Seq<char>> = if prod.len() == 0 {
        seq!["PROD_DOMAIN (This is your web portal domain, e.g., example.com)"@]
    } else {
        Seq::empty()
    };
    a + b + c
}

/// The settings read from `env` when the required ones are present.
pub open spec fn server_settings(s: MailerooServer, env: &ServerEnv) -> bool {
    let prod = value_or(opt_view(env.prod_domain), Seq::empty());
    let auto = value_or(opt_view(env.auto_tls), "false"@) == "true"@;
    let cache = value_or(opt_view(env.acme_cache_dir), default_acme_cache());
    let dir = value_or(opt_view(env.acme_directory), default_acme_directory());
    let certs = value_or(opt_view(env.certs_path), "."@);
    &&& s.database_url@ == value_or(opt_view(env.database_url), Seq::empty())
    &&& s.srs_secret@ == value_or(opt_view(env.srs_secret), Seq::empty())
    &&& s.prod_domain@ == prod
    &&& s.smtp_addr@ == value_or(opt_view(env.smtp_addr), "0.0.0.0:2525"@)
    &&& s.web_addr@ == value_or(opt_view(env.web_addr), "0.0.0.0:3000"@)
    &&& s.storage_dir@ == value_or(opt_view(env.storage_dir), "./storage/emails"@)
    &&& s.email_retention_days == (match parse_i64_spec(value_or(opt_view(env.email_retention_days), "30"@)) {
        Some(n) => n,
        None => 30,
    })
    &&& (auto ==> (s.config.auto_tls matches Some(t) && t.domain@ == prod && t.email@ == value_or(
        opt_view(env.acme_email),
        Seq::empty(),
    ) && t.cache_dir@ == cache && t.acme_directory@ == dir && t.http_port == port_or(
        opt_view(env.auto_tls_http_port),
        "80"@,
        80,
    ) && t.https_port == port_or(opt_view(env.auto_tls_https_port), "443"@, 443)))
    &&& (!auto ==> s.config.auto_tls is None)
    &&& (auto ==> s.cert_path@ == spec_acme_cert_path(cache, prod, dir) && s.key_path@ == s.cert_path@)
    &&& (!auto ==> s.cert_path@ == certs + "/smtp_cert.pem"@ && s.key_path@ == certs + "/smtp_key.pem"@)
}

} // verus!
