//! The web portal's own rules: addresses and domains, alias validation and creation,
//! pagination, CSRF checks and access levels, thread ordering, and the small HTML
//! fragments and request shapes of the pages.  Routing, sessions, templates and the
//! database stay with the program.
use vstd::prelude::*;
use crate::i18n::{Locale, Messages};
use crate::mime::opt_view;
use vstd::utf8::encode_utf8;
use vstd::string::StringSliceAdditionalSpecFns;
use crate::text::{starts_with, str_starts_with};
use crate::text::{
    chars_of, contains, dec, dec_i64, dec_u64, has_char, is_ws, lacks, push_chars, push_str,
    split_once, split_once_char, spec_to_lowercase, str_contains, str_eq, string_from, to_lowercase, trim,
    trim_chars,
};

verus! {

// ------------------------------------------------------------------
// Addresses
// ------------------------------------------------------------------

/// The domain of an address with exactly one `@`, trimmed; nothing when the address
/// has no `@`, more than one, or an empty domain.
pub open spec fn spec_extract_domain(email: Seq<char>) -> Option<Seq<char>> {
    match split_once(email, seq!['@']) {
        Some((_, d)) => if lacks(d, '@') && trim(d).len() > 0 {
            Some(trim(d))
        } else {
            None
        },
        None => None,
    }
}

/// The domain of `local@domain` (neither part holding `@`) is the domain, trimmed,
/// when it is not blank; an address without `@` has none.
pub proof fn lemma_extract_domain_of_address(local: Seq<char>, domain: Seq<char>)
    requires
        lacks(local, '@'),
        lacks(domain, '@'),
    ensures
        trim(domain).len() > 0 ==> spec_extract_domain(local + seq!['@'] + domain) == Some(trim(domain)),
        trim(domain).len() == 0 ==> spec_extract_domain(local + seq!['@'] + domain) is None,
        spec_extract_domain(local) is None,
{
    crate::text::lemma_split_once_at(local, domain, '@');
    crate::text::lemma_lacks_no_split(local, '@');
}

pub fn extract_domain(email: &str) -> (r: Option<String>)
    ensures
        opt_view(r) == spec_extract_domain(email@),
{
    match split_once_char(&chars_of(email), '@') {
        Some((_, d)) => {
            if has_char(&d, '@') {
                return None;
            }
            let t = trim_chars(&d);
            if t.len() == 0 {
                None
            } else {
                Some(string_from(&t))
            }
        },
        None => None,
    }
}

/// The client's address: the first entry of `X-Forwarded-For`, trimmed, when the
/// header is there; else the peer's socket address; else `unknown`.
pub open spec fn spec_client_ip(forwarded_for: Option<Seq<char>>, peer: Option<Seq<char>>) -> Seq<char> {
    match forwarded_for {
        Some(f) => trim(
            match split_once(f, seq![',']) {
                Some((first, _)) => first,
                None => f,
            },
        ),
        None => match peer {
            Some(p) => p,
            None => "unknown"@,
        },
    }
}

pub fn extract_client_ip(forwarded_for: Option<&str>, peer: Option<&str>) -> (r: String)
    ensures
        r@ == spec_client_ip(
            match forwarded_for {
                Some(f) => Some(f@),
                None => None,
            },
            match peer {
                Some(p) => Some(p@),
                None => None,
            },
        ),
{
    match forwarded_for {
        Some(f) => {
            let v = chars_of(f);
            let first = match split_once_char(&v, ',') {
                Some((a, _)) => a,
                None => v,
            };
            string_from(&trim_chars(&first))
        },
        None => match peer {
            Some(p) => p.to_owned(),
            None => "unknown".to_owned(),
        },
    }
}


/// Path fragments that only automated scanners ask for.
pub open spec fn scanner_patterns() -> Seq<Seq<char>> {
    seq![
        "wp-admin"@,
        "wordpress"@,
        ".php"@,
        "phpmyadmin"@,
        "config"@,
        ".env"@,
        ".git"@,
        "setup-config"@,
    ]
}

/// A request path that a scanner would ask for: its lowercase form holds one of the
/// scanner patterns.  Such requests are refused before any other handling.
pub open spec fn spec_is_crawler_path(path: Seq<char>) -> bool {
    exists|i: int| 0 <= i < scanner_patterns().len() && contains(spec_to_lowercase(path), #[trigger] scanner_patterns()[i])
}

pub fn is_crawler_path(path: &str) -> (b: bool)
    ensures
        b == spec_is_crawler_path(path@),
{
    let lower = to_lowercase(path);
    let patterns: Vec<&str> = vec![
        "wp-admin",
        "wordpress",
        ".php",
        "phpmyadmin",
        "config",
        ".env",
        ".git",
        "setup-config",
    ];
    assert(patterns@.map_values(|p: &str| p@) =~= scanner_patterns());
    let mut i: usize = 0;
    while i < patterns.len()
        invariant
            i <= patterns@.len(),
            patterns@.len() == scanner_patterns().len(),
            forall|k: int| 0 <= k < patterns@.len() ==> #[trigger] patterns@[k]@ == scanner_patterns()[k],
            forall|k: int| 0 <= k < i ==> !contains(lower@, #[trigger] scanner_patterns()[k]),
            lower@ == spec_to_lowercase(path@),
        decreases patterns@.len() - i,
    {
        if str_contains(lower.as_str(), patterns[i]) {
            assert(contains(lower@, scanner_patterns()[i as int]));
            return true;
        }
        i = i + 1;
    }
    false
}
/// The email address pattern `^[^\s@]+@[^\s@]+\.[^\s@]+$`: no whitespace, exactly one
/// `@` with text before it, and a dot in the domain with text on both sides.
pub open spec fn email_shaped(e: Seq<char>) -> bool {
    &&& forall|i: int| 0 <= i < e.len() ==> !is_ws(#[trigger] e[i])
    &&& match split_once(e, seq!['@']) {
        Some((local, domain)) => {
            &&& local.len() > 0
            &&& lacks(domain, '@')
            &&& exists|k: int| 0 < k < domain.len() - 1 && #[trigger] domain[k] == '.'
        },
        None => false,
    }
}

/// `Regex::is_match` with the email pattern, which accepts exactly the addresses
/// `email_shaped` describes.
#[verifier::external_body]
fn email_regex_matches(email: &str) -> (b: bool)
    ensures
        b == email_shaped(email@),
{
    regex::Regex::new(r"^[^\s@]+@[^\s@]+\.[^\s@]+$").map(|re| re.is_match(email)).unwrap_or(false)
}

pub fn is_valid_email(email: &str) -> (b: bool)
    ensures
        b == email_shaped(email@),
{
    email_regex_matches(email)
}

// ------------------------------------------------------------------
// Aliases
// ------------------------------------------------------------------

/// How many aliases a user may hold unless allowed more.
pub const MAX_ALIASES_PER_USER: i64 = 4;

/// The longest alias, in bytes.
pub const MAX_ALIAS_LEN: usize = 32;

#[derive(Debug, PartialEq, Eq, Structural)]
pub enum AliasError {
    TooLong,
    Reserved,
    InvalidFormat,
}

pub open spec fn alias_char(c: char) -> bool {
    ('a' <= c <= 'z') || ('0' <= c <= '9') || c == '.' || c == '-'
}

pub open spec fn alias_edge_char(c: char) -> bool {
    ('a' <= c <= 'z') || ('0' <= c <= '9')
}

/// The alias pattern `^[a-z0-9][a-z0-9.-]*[a-z0-9]$|^[a-z0-9]$`: lowercase letters,
/// digits, dots and hyphens, beginning and ending with a letter or digit.
pub open spec fn alias_shaped(s: Seq<char>) -> bool {
    &&& s.len() >= 1
    &&& alias_edge_char(s[0])
    &&& alias_edge_char(s.last())
    &&& forall|i: int| 0 <= i < s.len() ==> alias_char(#[trigger] s[i])
}

/// `Regex::is_match` with the alias pattern, which accepts exactly what `alias_shaped`
/// describes.
#[verifier::external_body]
fn alias_regex_matches(s: &str) -> (b: bool)
    ensures
        b == alias_shaped(s@),
{
    regex::Regex::new(r"^[a-z0-9][a-z0-9.-]*[a-z0-9]$|^[a-z0-9]$").map(|re| re.is_match(s)).unwrap_or(false)
}

/// Names that only an administrator may take: infrastructure and RFC 2142 roles,
/// compliance, sales and marketing, system and authentication addresses.
pub open spec fn reserved_aliases() -> Seq<Seq<char>> {
    seq![
        "admin"@, "administrator"@, "root"@, "postmaster"@, "webmaster"@, "hostmaster"@,
        "security"@, "support"@, "billing"@, "abuse"@, "mailer-daemon"@, "sysadmin"@, "noc"@,
        "dns"@, "host"@, "compliance"@, "legal"@, "privacy"@, "dpo"@, "secure"@, "proxy"@,
        "sales"@, "contact"@, "info"@, "marketing"@, "newsletter"@, "media"@, "press"@, "jobs"@,
        "careers"@, "hr"@, "office"@, "api"@, "dev"@, "web"@, "mail"@, "help"@, "staff"@,
        "system"@, "no-reply"@, "noreply"@, "do-not-reply"@, "notification"@, "alert"@,
        "verify"@, "auth"@, "login"@, "sso"@, "account"@, "payment"@,
    ]
}

fn reserved_list() -> (v: Vec<&'static str>)
    ensures
        v@.map_values(|s: &str| s@) == reserved_aliases(),
{
    let v = vec![
        "admin", "administrator", "root", "postmaster", "webmaster", "hostmaster",
        "security", "support", "billing", "abuse", "mailer-daemon", "sysadmin", "noc",
        "dns", "host", "compliance", "legal", "privacy", "dpo", "secure", "proxy",
        "sales", "contact", "info", "marketing", "newsletter", "media", "press", "jobs",
        "careers", "hr", "office", "api", "dev", "web", "mail", "help", "staff",
        "system", "no-reply", "noreply", "do-not-reply", "notification", "alert",
        "verify", "auth", "login", "sso", "account", "payment",
    ];
    assert(v@.map_values(|s: &str| s@) =~= reserved_aliases());
    v
}

/// Whether an alias may be registered: 1 to 32 bytes, of the alias pattern, and (for
/// users who are not administrators) not a reserved name in any letter case.
pub open spec fn spec_validate_alias(s: Seq<char>, is_admin: bool) -> Result<(), AliasError> {
    if s.len() == 0 || encode_utf8(s).len() > MAX_ALIAS_LEN {
        Err(AliasError::TooLong)
    } else if !alias_shaped(s) {
        Err(AliasError::InvalidFormat)
    } else if !is_admin && reserved_aliases().contains(spec_to_lowercase(s)) {
        Err(AliasError::Reserved)
    } else {
        Ok(())
    }
}

/// Validation of an alias subdomain.
pub fn validate_alias(subdomain: &str, is_admin: bool) -> (r: Result<(), AliasError>)
    ensures
        r == spec_validate_alias(subdomain@, is_admin),
{
    if subdomain.is_empty() || subdomain.as_bytes().len() > MAX_ALIAS_LEN {
        return Err(AliasError::TooLong);
    }
    if !alias_regex_matches(subdomain) {
        return Err(AliasError::InvalidFormat);
    }
    if !is_admin {
        let lower = to_lowercase(subdomain);
        let banned = reserved_list();
        let mut i: usize = 0;
        while i < banned.len()
            invariant
                i <= banned.len(),
                banned@.map_values(|s: &str| s@) == reserved_aliases(),
                forall|j: int| 0 <= j < i ==> reserved_aliases()[j] != lower@,
                lower@ == spec_to_lowercase(subdomain@),
                !is_admin,
                subdomain@.len() > 0 && encode_utf8(subdomain@).len() <= MAX_ALIAS_LEN,
                alias_shaped(subdomain@),
            decreases banned.len() - i,
        {
            assert(reserved_aliases()[i as int] == banned@[i as int]@);
            if str_eq(banned[i], lower.as_str()) {
                assert(reserved_aliases()[i as int] == lower@);
                return Err(AliasError::Reserved);
            }
            i = i + 1;
        }
        assert(banned@.len() == reserved_aliases().len());
        assert(!reserved_aliases().contains(lower@));
    }
    Ok(())
}

/// The subdomain a request asks for: the custom one when it is not empty, else the
/// chosen suggestion, else `info`.
pub open spec fn spec_requested_subdomain(custom: Option<Seq<char>>, chosen: Option<Seq<char>>) -> Seq<char> {
    match custom {
        Some(c) => if c.len() > 0 {
            c
        } else {
            match chosen {
                Some(s) => s,
                None => "info"@,
            }
        },
        None => match chosen {
            Some(s) => s,
            None => "info"@,
        },
    }
}

pub fn requested_subdomain(custom: &Option<String>, chosen: &Option<String>) -> (r: String)
    ensures
        r@ == spec_requested_subdomain(opt_view(*custom), opt_view(*chosen)),
{
    match custom {
        Some(c) => {
            if !c.as_str().is_empty() {
                return string_from(&chars_of(c.as_str()));
            }
        },
        None => {},
    }
    match chosen {
        Some(s) => string_from(&chars_of(s.as_str())),
        None => "info".to_owned(),
    }
}

/// A user who may not bypass the limit and already holds the maximum may not create
/// another alias.
pub fn alias_limit_reached(can_bypass: bool, alias_count: i64) -> (b: bool)
    ensures
        b == (!can_bypass && alias_count >= MAX_ALIASES_PER_USER),
{
    !can_bypass && alias_count >= MAX_ALIASES_PER_USER
}

/// The message shown when an alias is refused.
pub fn alias_error_message(locale: Locale, e: &AliasError) -> (m: String)
    ensures
        match e {
            AliasError::TooLong => m@ == locale.error_alias_too_long_text(MAX_ALIAS_LEN as nat),
            AliasError::Reserved => m@ == locale.error_alias_reserved_text(),
            AliasError::InvalidFormat => m@ == locale.error_alias_invalid_format_text(),
        },
{
    match e {
        AliasError::TooLong => locale.error_alias_too_long(MAX_ALIAS_LEN),
        AliasError::Reserved => locale.error_alias_reserved().to_owned(),
        AliasError::InvalidFormat => locale.error_alias_invalid_format().to_owned(),
    }
}

/// Why a request to create an alias is refused.
#[derive(Debug, PartialEq, Eq, Structural)]
pub enum AliasRefusal {
    /// The user holds the maximum number of aliases and may not bypass it.
    LimitReached,
    /// The requested subdomain is not a valid alias.
    Invalid(AliasError),
    /// The subdomain is no longer available on the domain.
    Taken,
}

/// The checks made on a request to create an alias before the subdomain's availability
/// is looked up, in order: first the user's alias limit, then the validity of the
/// requested subdomain (the custom one, else the chosen suggestion, else `info`).
/// `Ok` holds the subdomain to register once it is found available.
pub fn check_alias_request(
    can_bypass: bool,
    alias_count: i64,
    custom: &Option<String>,
    chosen: &Option<String>,
    is_admin: bool,
) -> (r: Result<String, AliasRefusal>)
    ensures
        (!can_bypass && alias_count >= MAX_ALIASES_PER_USER) ==> r == Err::<String, AliasRefusal>(
            AliasRefusal::LimitReached,
        ),
        !(!can_bypass && alias_count >= MAX_ALIASES_PER_USER) ==> match spec_validate_alias(
            spec_requested_subdomain(opt_view(*custom), opt_view(*chosen)),
            is_admin,
        ) {
            Ok(_) => r matches Ok(s) && s@ == spec_requested_subdomain(opt_view(*custom), opt_view(*chosen)),
            Err(e) => r == Err::<String, AliasRefusal>(AliasRefusal::Invalid(e)),
        },
{
    if alias_limit_reached(can_bypass, alias_count) {
        return Err(AliasRefusal::LimitReached);
    }
    let subdomain = requested_subdomain(custom, chosen);
    match validate_alias(subdomain.as_str(), is_admin) {
        Ok(()) => Ok(subdomain),
        Err(e) => Err(AliasRefusal::Invalid(e)),
    }
}

/// The message shown when an alias request is refused.
pub fn alias_refusal_message(locale: Locale, refusal: &AliasRefusal) -> (m: String)
    ensures
        match refusal {
            AliasRefusal::LimitReached => m@ == locale.error_alias_limit_reached_text(MAX_ALIASES_PER_USER as int),
            AliasRefusal::Invalid(AliasError::TooLong) => m@ == locale.error_alias_too_long_text(MAX_ALIAS_LEN as nat),
            AliasRefusal::Invalid(AliasError::Reserved) => m@ == locale.error_alias_reserved_text(),
            AliasRefusal::Invalid(AliasError::InvalidFormat) => m@ == locale.error_alias_invalid_format_text(),
            AliasRefusal::Taken => m@ == locale.error_alias_taken_text(),
        },
{
    match refusal {
        AliasRefusal::LimitReached => locale.error_alias_limit_reached(MAX_ALIASES_PER_USER),
        AliasRefusal::Invalid(e) => alias_error_message(locale, e),
        AliasRefusal::Taken => locale.error_alias_taken().to_owned(),
    }
}

/// The suggestions to offer: the candidates that are not taken, in order, at most eight.
pub open spec fn spec_available_suggestions(candidates: Seq<Seq<char>>, taken: Seq<Seq<char>>) -> Seq<Seq<char>> {
    let free = candidates.filter(|c: Seq<char>| !taken.contains(c));
    if free.len() <= 8 {
        free
    } else {
        free.take(8)
    }
}

pub open spec fn str_views(v: Seq<String>) -> Seq<Seq<char>> {
    v.map_values(|s: String| s@)
}

pub fn available_suggestions(candidates: &Vec<String>, taken: &Vec<String>) -> (r: Vec<String>)
    ensures
        str_views(r@) == spec_available_suggestions(str_views(candidates@), str_views(taken@)),
{
    let ghost cs = str_views(candidates@);
    let ghost ts = str_views(taken@);
    let mut out: Vec<String> = Vec::new();
    let mut i: usize = 0;
    while i < candidates.len() && out.len() < 8
        invariant
            i <= candidates.len(),
            cs == str_views(candidates@),
            ts == str_views(taken@),
            out@.len() <= 8,
            str_views(out@) == cs.take(i as int).filter(|c: Seq<char>| !ts.contains(c)),
        decreases candidates.len() - i,
    {
        let c = &candidates[i];
        let mut hit = false;
        let mut j: usize = 0;
        while j < taken.len()
            invariant
                j <= taken.len(),
                ts == str_views(taken@),
                hit == (exists|k: int| 0 <= k < j && ts[k] == c@),
            decreases taken.len() - j,
        {
            if str_eq(taken[j].as_str(), c.as_str()) {
                assert(ts[j as int] == c@);
                hit = true;
            }
            j = j + 1;
        }
        proof {
            assert(hit == ts.contains(c@));
            assert(cs.take(i + 1) =~= cs.take(i as int).push(cs[i as int]));
            assert(cs[i as int] == c@);
            cs.take(i as int).lemma_filter_push(cs[i as int], |x: Seq<char>| !ts.contains(x));
        }
        if !hit {
            let ghost before = out@;
            out.push(string_from(&chars_of(c.as_str())));
            assert(str_views(out@) =~= str_views(before).push(c@));
        }
        i = i + 1;
    }
    proof {
        let free = cs.filter(|c: Seq<char>| !ts.contains(c));
        if i == candidates.len() {
            assert(cs.take(i as int) =~= cs);
        } else {
            assert(out@.len() == 8);
            lemma_filter_prefix(cs, ts, i as int);
        }
    }
    out
}

proof fn lemma_filter_prefix(cs: Seq<Seq<char>>, ts: Seq<Seq<char>>, i: int)
    requires
        0 <= i <= cs.len(),
        cs.take(i).filter(|c: Seq<char>| !ts.contains(c)).len() == 8,
    ensures
        cs.filter(|c: Seq<char>| !ts.contains(c)).len() >= 8,
        cs.filter(|c: Seq<char>| !ts.contains(c)).take(8) == cs.take(i).filter(|c: Seq<char>| !ts.contains(c)),
    decreases cs.len() - i,
{
    let f = |c: Seq<char>| !ts.contains(c);
    if i == cs.len() {
        assert(cs.take(i) =~= cs);
        assert(cs.filter(f).take(8) =~= cs.filter(f));
    } else {
        assert(cs.take(i + 1) =~= cs.take(i).push(cs[i]));
        cs.take(i).lemma_filter_push(cs[i], f);
        let a = cs.take(i).filter(f);
        let b = cs.take(i + 1).filter(f);
        if f(cs[i]) {
            assert(b == a.push(cs[i]));
            assert(b.len() == 9);
            lemma_filter_prefix_grow(cs, ts, i + 1);
            assert(b.take(8) =~= a);
        } else {
            assert(b == a);
            lemma_filter_prefix(cs, ts, i + 1);
        }
    }
}

proof fn lemma_filter_prefix_grow(cs: Seq<Seq<char>>, ts: Seq<Seq<char>>, i: int)
    requires
        0 <= i <= cs.len(),
    ensures
        cs.filter(|c: Seq<char>| !ts.contains(c)).len() >= cs.take(i).filter(|c: Seq<char>| !ts.contains(c)).len(),
        cs.filter(|c: Seq<char>| !ts.contains(c)).take(cs.take(i).filter(|c: Seq<char>| !ts.contains(c)).len() as int)
            == cs.take(i).filter(|c: Seq<char>| !ts.contains(c)),
    decreases cs.len() - i,
{
    let f = |c: Seq<char>| !ts.contains(c);
    if i == cs.len() {
        assert(cs.take(i) =~= cs);
        assert(cs.filter(f).take(cs.filter(f).len() as int) =~= cs.filter(f));
    } else {
        assert(cs.take(i + 1) =~= cs.take(i).push(cs[i]));
        cs.take(i).lemma_filter_push(cs[i], f);
        lemma_filter_prefix_grow(cs, ts, i + 1);
        let a = cs.take(i).filter(f);
        let b = cs.take(i + 1).filter(f);
        let all = cs.filter(f);
        if f(cs[i]) {
            assert(all.take(b.len() as int) == b);
            assert(all.take(a.len() as int) =~= b.take(a.len() as int));
            assert(b.take(a.len() as int) =~= a);
        }
    }
}

// ------------------------------------------------------------------
// Pages
// ------------------------------------------------------------------

/// The cell of the admin user table that shows and toggles a setting.
pub open spec fn spec_toggle_td(
    is_enabled: bool,
    tooltip: Seq<char>,
    post_url: Seq<char>,
    status_yes: Seq<char>,
    status_no: Seq<char>,
) -> Seq<char> {
    let status_class = if is_enabled { "maileroo-status-enabled"@ } else { "maileroo-status-disabled"@ };
    let status_text = if is_enabled { status_yes } else { status_no };
    let checked = if is_enabled { "checked"@ } else { ""@ };
    "<td class=\"desktop-only text-center\">\n               <div class=\"maileroo-toggle-wrapper\">\n                   <label class=\"maileroo-toggle-switch\" title=\""@
        + tooltip
        + "\">\n                       <input type=\"checkbox\"\n                              "@
        + checked
        + "\n                              hx-post=\""@
        + post_url
        + "\"\n                              hx-swap=\"outerHTML\"\n                              hx-target=\"closest td\">\n                       <span class=\"maileroo-toggle-slider\"></span>\n                   </label>\n                   <span class=\""@
        + status_class
        + "\">\n                       "@
        + status_text
        + "\n                   </span>\n               </div>\n           </td>"@
}

pub fn render_toggle_td(
    is_enabled: bool,
    tooltip: &str,
    post_url: &str,
    status_yes: &str,
    status_no: &str,
) -> (html: String)
    ensures
        html@ == spec_toggle_td(is_enabled, tooltip@, post_url@, status_yes@, status_no@),
{
    let status_class = if is_enabled { "maileroo-status-enabled" } else { "maileroo-status-disabled" };
    let status_text = if is_enabled { status_yes } else { status_no };
    let checked = if is_enabled { "checked" } else { "" };
    let mut s = String::new();
    push_str(
        &mut s,
        "<td class=\"desktop-only text-center\">\n               <div class=\"maileroo-toggle-wrapper\">\n                   <label class=\"maileroo-toggle-switch\" title=\"",
    );
    push_str(&mut s, tooltip);
    push_str(&mut s, "\">\n                       <input type=\"checkbox\"\n                              ");
    push_str(&mut s, checked);
    push_str(&mut s, "\n                              hx-post=\"");
    push_str(&mut s, post_url);
    push_str(
        &mut s,
        "\"\n                              hx-swap=\"outerHTML\"\n                              hx-target=\"closest td\">\n                       <span class=\"maileroo-toggle-slider\"></span>\n                   </label>\n                   <span class=\"",
    );
    push_str(&mut s, status_class);
    push_str(&mut s, "\">\n                       ");
    push_str(&mut s, status_text);
    push_str(&mut s, "\n                   </span>\n               </div>\n           </td>");
    proof {
        reveal_strlit("");
    }
    s
}

// ------------------------------------------------------------------
// Access
// ------------------------------------------------------------------

#[derive(Debug, PartialEq, Eq, Structural)]
pub enum AuthError {
    NotLoggedIn,
    SessionError,
    UserNotFound,
    Forbidden,
    CsrfVerificationFailed,
}

/// Only state-changing requests are checked: the `X-CSRF-Token` header must equal the
/// session's token, which must not be empty.
pub open spec fn spec_csrf_ok(method: Seq<char>, header_token: Option<Seq<char>>, session_token: Option<Seq<char>>) -> bool {
    if method == "GET"@ || method == "OPTIONS"@ || method == "HEAD"@ {
        true
    } else {
        match (header_token, session_token) {
            (Some(h), Some(s)) => h == s && s.len() > 0,
            _ => false,
        }
    }
}

pub open spec fn opt_str(o: Option<&str>) -> Option<Seq<char>> {
    match o {
        Some(s) => Some(s@),
        None => None,
    }
}

/// Validates the CSRF token of a request with the given method name.
pub fn validate_csrf_token(method: &str, header_token: Option<&str>, session_token: Option<&str>) -> (r: Result<(), AuthError>)
    ensures
        spec_csrf_ok(method@, opt_str(header_token), opt_str(session_token)) <==> r is Ok,
        r matches Err(e) ==> e == AuthError::CsrfVerificationFailed,
{
    if str_eq(method, "GET") || str_eq(method, "OPTIONS") || str_eq(method, "HEAD") {
        return Ok(());
    }
    match (header_token, session_token) {
        (Some(h), Some(s)) => {
            if str_eq(h, s) && !s.is_empty() {
                Ok(())
            } else {
                Err(AuthError::CsrfVerificationFailed)
            }
        },
        _ => Err(AuthError::CsrfVerificationFailed),
    }
}

/// The user a request is made by.
pub struct AuthenticatedUser {
    pub user_id: u128,
    pub is_admin: bool,
    pub bypass_alias_limit: bool,
    pub can_send_firsthand: bool,
}

impl AuthenticatedUser {
    /// Administrators and users granted it may hold more aliases than the limit.
    pub fn can_bypass_alias_limit(&self) -> (b: bool)
        ensures
            b == (self.is_admin || self.bypass_alias_limit),
    {
        self.is_admin || self.bypass_alias_limit
    }

    /// Admin pages are for administrators only.
    pub fn require_admin(&self) -> (r: Result<(), AuthError>)
        ensures
            self.is_admin <==> r is Ok,
            r matches Err(e) ==> e == AuthError::Forbidden,
    {
        if self.is_admin {
            Ok(())
        } else {
            Err(AuthError::Forbidden)
        }
    }

    /// Sending mail first-hand is for users granted it and for administrators.
    pub fn require_firsthand_sender(&self) -> (r: Result<(), AuthError>)
        ensures
            (self.can_send_firsthand || self.is_admin) <==> r is Ok,
            r matches Err(e) ==> e == AuthError::Forbidden,
    {
        if self.can_send_firsthand || self.is_admin {
            Ok(())
        } else {
            Err(AuthError::Forbidden)
        }
    }
}

/// The `Set-Cookie` value that hands the CSRF token to the browser's scripts.
pub open spec fn spec_csrf_cookie(token: Seq<char>, cookie_domain: Seq<char>, secure: bool) -> Seq<char> {
    "csrf_token="@ + token + "; Path=/; SameSite=Lax"@ + (if cookie_domain.len() > 0 {
        "; Domain="@ + cookie_domain
    } else {
        Seq::empty()
    }) + (if secure { "; Secure"@ } else { Seq::empty() })
}

/// The CSRF cookie for `token` (an empty token clears it: `Max-Age=0`), scoped to
/// `cookie_domain` when one is configured, and `Secure` unless `SECURE_COOKIES` is
/// something other than `true`.
pub fn csrf_cookie(token: Option<&str>, cookie_domain: &str, secure_setting: &str) -> (c: String)
    ensures
        c@ == (match token {
            Some(t) => spec_csrf_cookie(t@, cookie_domain@, secure_setting@ == "true"@),
            None => "csrf_token=; Path=/; SameSite=Lax; Max-Age=0"@ + (if cookie_domain@.len() > 0 {
                "; Domain="@ + cookie_domain@
            } else {
                Seq::empty()
            }) + (if secure_setting@ == "true"@ { "; Secure"@ } else { Seq::empty() }),
        }),
{
    let mut c = String::new();
    match token {
        Some(t) => {
            push_str(&mut c, "csrf_token=");
            push_str(&mut c, t);
            push_str(&mut c, "; Path=/; SameSite=Lax");
        },
        None => {
            push_str(&mut c, "csrf_token=; Path=/; SameSite=Lax; Max-Age=0");
        },
    }
    let ghost head = c@;
    if !cookie_domain.is_empty() {
        push_str(&mut c, "; Domain=");
        push_str(&mut c, cookie_domain);
    }
    let ghost mid = c@;
    if str_eq(secure_setting, "true") {
        push_str(&mut c, "; Secure");
    }
    proof {
        assert(head + Seq::<char>::empty() =~= head);
        assert(mid + Seq::<char>::empty() =~= mid);
        assert(("csrf_token="@ + token.unwrap()@) + "; Path=/; SameSite=Lax"@ =~= "csrf_token="@ + token.unwrap()@ + "; Path=/; SameSite=Lax"@) by {
        }
    }
    c
}

/// Login refuses passwords longer than 128 bytes before looking anything up.
pub fn login_password_acceptable(password: &str) -> (b: bool)
    ensures
        b == (encode_utf8(password@).len() <= 128),
{
    password.as_bytes().len() <= 128
}

/// Registration wants a password of 8 to 128 bytes.
pub fn register_password_acceptable(password: &str) -> (b: bool)
    ensures
        b == (8 <= encode_utf8(password@).len() <= 128),
{
    let n = password.as_bytes().len();
    8 <= n && n <= 128
}

// ------------------------------------------------------------------
// Threads
// ------------------------------------------------------------------

/// A message of a conversation, as shown under the received email.
pub enum ThreadMessage {
    Inbound { id: u128, sender: String, body_text: String, sent_at: i128 },
    Outbound { id: u128, body_text: String, sent_at: i128 },
}

impl ThreadMessage {
    /// When the message was sent, in nanoseconds since the Unix epoch.
    pub fn sent_at(&self) -> (t: i128)
        ensures
            t == self.time(),
    {
        match self {
            ThreadMessage::Inbound { sent_at, .. } => *sent_at,
            ThreadMessage::Outbound { sent_at, .. } => *sent_at,
        }
    }

    pub open spec fn time(self) -> i128 {
        match self {
            ThreadMessage::Inbound { sent_at, .. } => sent_at,
            ThreadMessage::Outbound { sent_at, .. } => sent_at,
        }
    }
}

/// `s` with `m` inserted after every message sent no later than it.
pub open spec fn insert_by_time(s: Seq<ThreadMessage>, m: ThreadMessage) -> Seq<ThreadMessage>
    decreases s.len(),
{
    if s.len() == 0 {
        seq![m]
    } else if s.last().time() <= m.time() {
        s.push(m)
    } else {
        insert_by_time(s.drop_last(), m).push(s.last())
    }
}

/// A stable sort by time: messages in order of time, and in their given order when
/// sent at the same time.
pub open spec fn sort_by_time(s: Seq<ThreadMessage>) -> Seq<ThreadMessage>
    decreases s.len(),
{
    if s.len() == 0 {
        Seq::empty()
    } else {
        insert_by_time(sort_by_time(s.drop_last()), s.last())
    }
}

pub open spec fn time_ordered(s: Seq<ThreadMessage>) -> bool {
    forall|i: int, j: int| 0 <= i < j < s.len() ==> s[i].time() <= s[j].time()
}

proof fn lemma_insert_ordered(s: Seq<ThreadMessage>, m: ThreadMessage)
    requires
        time_ordered(s),
    ensures
        time_ordered(insert_by_time(s, m)),
        insert_by_time(s, m).to_multiset() == s.to_multiset().insert(m),
        insert_by_time(s, m).len() == s.len() + 1,
    decreases s.len(),
{
    broadcast use vstd::seq_lib::group_to_multiset_ensures;
    if s.len() == 0 {
        assert(seq![m] =~= Seq::<ThreadMessage>::empty().push(m));
    } else if s.last().time() <= m.time() {
    } else {
        let r = insert_by_time(s.drop_last(), m);
        lemma_insert_ordered(s.drop_last(), m);
        assert(s =~= s.drop_last().push(s.last()));
        assert forall|k: int| 0 <= k < r.len() implies #[trigger] r[k].time() <= s.last().time() by {
            lemma_insert_members(s.drop_last(), m, k);
        }
    }
}

proof fn lemma_insert_members(s: Seq<ThreadMessage>, m: ThreadMessage, k: int)
    requires
        0 <= k < insert_by_time(s, m).len(),
    ensures
        insert_by_time(s, m)[k] == m || exists|i: int| 0 <= i < s.len() && insert_by_time(s, m)[k] == s[i],
        insert_by_time(s, m).len() == s.len() + 1,
    decreases s.len(),
{
    if s.len() == 0 {
    } else if s.last().time() <= m.time() {
        if k < s.len() {
            assert(insert_by_time(s, m)[k] == s[k]);
        }
    } else {
        let r = insert_by_time(s.drop_last(), m);
        lemma_insert_members(s.drop_last(), m, 0);
        if k < r.len() {
            lemma_insert_members(s.drop_last(), m, k);
            if insert_by_time(s, m)[k] != m {
                let i = choose|i: int| 0 <= i < s.drop_last().len() && r[k] == s.drop_last()[i];
                assert(insert_by_time(s, m)[k] == s[i]);
            }
        } else {
            assert(insert_by_time(s, m)[k] == s[s.len() - 1]);
        }
    }
}

fn insert_sorted(r: &mut Vec<ThreadMessage>, m: ThreadMessage)
    ensures
        final(r)@ == insert_by_time(old(r)@, m),
{
    let mut k: usize = r.len();
    let ghost s = r@;
    assert(s.take(k as int) =~= s);
    assert(s + s.skip(k as int) =~= s);
    assert(insert_by_time(s, m) + s.skip(k as int) =~= insert_by_time(s, m));
    while k > 0 && r[k - 1].sent_at() > m.sent_at()
        invariant
            k <= r@.len(),
            r@ == s,
            insert_by_time(s, m) == insert_by_time(s.take(k as int), m) + s.skip(k as int),
            forall|j: int| k <= j < s.len() ==> #[trigger] s[j].time() > m.time(),
        decreases k,
    {
        proof {
            let t = s.take(k as int);
            assert(t.drop_last() =~= s.take(k - 1));
            assert(t.last() == s[k - 1]);
            assert(s.skip(k - 1) =~= seq![s[k - 1]] + s.skip(k as int));
            assert(insert_by_time(s.take(k - 1), m).push(s[k - 1]) + s.skip(k as int)
                =~= insert_by_time(s.take(k - 1), m) + s.skip(k - 1));
        }
        k = k - 1;
    }
    proof {
        let t = s.take(k as int);
        if k > 0 {
            assert(t.last() == s[k - 1]);
        }
        assert(insert_by_time(t, m) =~= t.push(m));
        assert(t.push(m) + s.skip(k as int) =~= s.take(k as int) + seq![m] + s.skip(k as int));
    }
    r.insert(k, m);
    assert(r@ =~= s.take(k as int) + seq![m] + s.skip(k as int));
}

/// Merges the replies received in a thread with those sent from it, ordered by the
/// time they were sent (messages of equal time keep their order, the received ones
/// first).
pub fn merge_thread_messages(inbound: Vec<ThreadMessage>, outbound: Vec<ThreadMessage>) -> (r: Vec<ThreadMessage>)
    ensures
        r@ == sort_by_time(inbound@ + outbound@),
{
    let mut all = inbound;
    let mut rest = outbound;
    all.append(&mut rest);
    let ghost s = all@;
    assert(s.len() == all.len());
    let mut r: Vec<ThreadMessage> = Vec::new();
    let mut i: usize = 0;
    assert(s.take(0) =~= Seq::<ThreadMessage>::empty());
    assert(s.skip(0) =~= s);
    while all.len() > 0
        invariant
            i <= s.len(),
            s.len() <= usize::MAX,
            all@ == s.skip(i as int),
            r@ == sort_by_time(s.take(i as int)),
        decreases all.len(),
    {
        let m = all.remove(0);
        proof {
            assert(m == s[i as int]);
            assert(s.take(i + 1).drop_last() =~= s.take(i as int));
            assert(s.take(i + 1).last() == s[i as int]);
            assert(all@ =~= s.skip(i + 1));
        }
        insert_sorted(&mut r, m);
        i = i + 1;
    }
    assert(s.take(i as int) =~= s);
    r
}

/// The sorted merge is ordered by time and holds exactly the given messages.
pub proof fn lemma_sort_by_time(s: Seq<ThreadMessage>)
    ensures
        time_ordered(sort_by_time(s)),
        sort_by_time(s).to_multiset() == s.to_multiset(),
    decreases s.len(),
{
    broadcast use vstd::seq_lib::group_to_multiset_ensures;
    if s.len() > 0 {
        lemma_sort_by_time(s.drop_last());
        lemma_insert_ordered(sort_by_time(s.drop_last()), s.last());
        assert(s =~= s.drop_last().push(s.last()));
    }
}

// ------------------------------------------------------------------
// Requests and page fragments
// ------------------------------------------------------------------

pub struct RegisterRequest {
    pub email: String,
    pub password: String,
}

pub struct LoginRequest {
    pub email: String,
    pub password: String,
}

pub struct LoginTemplate {
    pub error: Option<String>,
    pub locale: Locale,
}

pub struct RegisterTemplate {
    pub error: Option<String>,
    pub locale: Locale,
}

/// The request shape of the aliases and domains pages.
pub struct PaginationParams {
    pub page: Option<i64>,
    pub alias: Option<String>,
    pub q: Option<String>,
}

/// A user as the admin's user list shows it.  Times are nanoseconds since the Unix
/// epoch.
pub struct UserWithStats {
    pub id: u128,
    pub email: String,
    pub is_admin: bool,
    pub bypass_alias_limit: bool,
    pub disable_autoclean: bool,
    pub can_send_firsthand: bool,
    pub created_at: i128,
    pub last_login_at: Option<i128>,
    pub last_login_ip: Option<String>,
    pub alias_count: i64,
    pub email_count: i64,
}

/// The admin's user list page.
pub struct AdminUsersTemplate {
    pub users: Vec<UserWithStats>,
    pub locale: Locale,
    pub is_admin: bool,
}

/// An API key as its owner's key list shows it (only its hash is kept).
pub struct ApiKey {
    pub id: u128,
    pub user_id: u128,
    pub key_hash: String,
    pub name: String,
    pub created_at: i128,
}

/// The API keys page; `new_key` is the token just created, shown once.
pub struct ApiKeysTemplate {
    pub keys: Vec<ApiKey>,
    pub locale: Locale,
    pub new_key: Option<String>,
}

pub struct CreateDomainRequest {
    pub domain_name: String,
}

pub struct CreateApiKeyRequest {
    pub name: String,
}

pub struct ToggleAutoForwardRequest {
    pub auto_forward: bool,
}

pub struct SuggestionListTemplate {
    pub suggestions: Vec<String>,
}

/// A confirmation dialog.
pub struct ModalTemplate {
    pub title: String,
    pub message: String,
    pub action_label: String,
    pub cancel_label: String,
    pub action_url: String,
    pub action_method: String,
    pub action_color: String,
    pub target: String,
    pub swap: String,
    pub include_target: Option<String>,
}

pub struct PasswordInputTemplate {
    pub show: bool,
    pub value: String,
    pub minlength: Option<String>,
    pub placeholder: Option<String>,
    pub autocomplete: Option<String>,
}

pub struct PasswordToggleRequest {
    pub show: bool,
    pub password: Option<String>,
    pub minlength: Option<String>,
    pub placeholder: Option<String>,
    pub autocomplete: Option<String>,
}

pub struct ModalQuery {
    pub tab: Option<String>,
}

pub struct CreateLabelForm {
    pub name: String,
    pub color: Option<String>,
}

pub struct ReplyRequest {
    pub body_text: String,
}

pub struct ToastTemplate {
    pub message: String,
    pub success: bool,
}

/// Conversion from a shared state, as request extractors use it.
pub trait FromRef<T>: Sized {
    fn from_ref(input: &T) -> Self;
}

impl<T: Clone> FromRef<T> for T {
    fn from_ref(input: &T) -> Self {
        input.clone()
    }
}

/// The password field after the show/hide toggle: the same settings, the typed
/// password kept (empty when none was sent).
pub fn password_input_from_request(req: PasswordToggleRequest) -> (t: PasswordInputTemplate)
    ensures
        t.show == req.show,
        t.value@ == crate::config::value_or(opt_view(req.password), Seq::empty()),
        opt_view(t.minlength) == opt_view(req.minlength),
        opt_view(t.placeholder) == opt_view(req.placeholder),
        opt_view(t.autocomplete) == opt_view(req.autocomplete),
{
    let value = match req.password {
        Some(p) => p,
        None => String::new(),
    };
    PasswordInputTemplate {
        show: req.show,
        value,
        minlength: req.minlength,
        placeholder: req.placeholder,
        autocomplete: req.autocomplete,
    }
}

/// The dialog that confirms deleting the alias `subdomain@domain_name` (identified by
/// `alias_id` in the page).
pub fn delete_alias_modal(locale: Locale, alias_id: &str, subdomain: &str, domain_name: &str) -> (m: ModalTemplate)
    ensures
        m.title@ == locale.delete_alias_title_text(),
        m.message@ == locale.delete_alias_message_text(subdomain@ + "@"@ + domain_name@),
        m.action_label@ == locale.modal_delete_confirm_text(),
        m.cancel_label@ == locale.modal_cancel_text(),
        m.action_url@ == "/aliases/"@ + alias_id@,
        m.action_method@ == "delete"@,
        m.action_color@ == "danger"@,
        m.target@ == "#alias-"@ + alias_id@,
        m.swap@ == "outerHTML"@,
        m.include_target is None,
{
    let mut address = subdomain.to_owned();
    push_str(&mut address, "@");
    push_str(&mut address, domain_name);
    let mut url = "/aliases/".to_owned();
    push_str(&mut url, alias_id);
    let mut target = "#alias-".to_owned();
    push_str(&mut target, alias_id);
    ModalTemplate {
        title: locale.delete_alias_title().to_owned(),
        message: locale.delete_alias_message(address.as_str()),
        action_label: locale.modal_delete_confirm().to_owned(),
        cancel_label: locale.modal_cancel().to_owned(),
        action_url: url,
        action_method: "delete".to_owned(),
        action_color: "danger".to_owned(),
        target,
        swap: "outerHTML".to_owned(),
        include_target: None,
    }
}

/// The dialog that confirms deleting the email `email_id` with subject `subject`:
/// the page element it replaces defaults to the email's row, the swap to `outerHTML`,
/// and a `redirect=true` request comes back to the dashboard after the deletion.
pub fn delete_email_modal(
    locale: Locale,
    email_id: u128,
    subject: &str,
    target: Option<String>,
    swap: Option<String>,
    redirect: Option<&str>,
) -> (m: ModalTemplate)
    ensures
        m.title@ == locale.delete_email_title_text(),
        m.message@ == locale.delete_email_message_text(subject@),
        m.action_label@ == locale.modal_delete_confirm_text(),
        m.cancel_label@ == locale.modal_cancel_text(),
        m.action_url@ == "/emails/"@ + crate::email_body::uuid_hyphenated(email_id) + (if opt_str(redirect)
            == Some("true"@) {
            "?redirect=true"@
        } else {
            Seq::empty()
        }),
        m.action_method@ == "delete"@,
        m.action_color@ == "danger"@,
        m.target@ == match target {
            Some(t) => t@,
            None => "#email-"@ + crate::email_body::uuid_hyphenated(email_id),
        },
        m.swap@ == match swap {
            Some(w) => w@,
            None => "outerHTML"@,
        },
        m.include_target is None,
{
    let id = crate::email_body::uuid_text(email_id);
    let target = match target {
        Some(t) => t,
        None => {
            let mut t = "#email-".to_owned();
            push_str(&mut t, id.as_str());
            t
        },
    };
    let swap = match swap {
        Some(w) => w,
        None => "outerHTML".to_owned(),
    };
    let mut url = "/emails/".to_owned();
    push_str(&mut url, id.as_str());
    let ghost base = url@;
    let wants_redirect = match redirect {
        Some(r) => crate::text::str_eq(r, "true"),
        None => false,
    };
    if wants_redirect {
        push_str(&mut url, "?redirect=true");
    } else {
        assert(base + Seq::<char>::empty() =~= base);
    }
    ModalTemplate {
        title: locale.delete_email_title().to_owned(),
        message: locale.delete_email_message(subject),
        action_label: locale.modal_delete_confirm().to_owned(),
        cancel_label: locale.modal_cancel().to_owned(),
        action_url: url,
        action_method: "delete".to_owned(),
        action_color: "danger".to_owned(),
        target,
        swap,
        include_target: None,
    }
}

/// The dialog that confirms deleting the selected emails; none when nothing is
/// selected.
pub fn batch_delete_modal(locale: Locale, count: usize) -> (m: Option<ModalTemplate>)
    ensures
        count == 0 ==> m is None,
        count > 0 ==> (m matches Some(t) && t.title@ == locale.batch_delete_modal_title_text()
            && t.message@ == locale.batch_delete_modal_message_text(count as nat)
            && t.action_label@ == locale.modal_delete_confirm_text() && t.cancel_label@
            == locale.modal_cancel_text() && t.action_url@ == "/emails/batch-delete"@ && t.action_method@ == "post"@
            && t.action_color@ == "danger"@ && t.target@ == "body"@ && t.swap@ == "outerHTML"@
            && opt_view(t.include_target) == Some("#batch-delete-form"@)),
{
    if count == 0 {
        return None;
    }
    Some(ModalTemplate {
        title: locale.batch_delete_modal_title().to_owned(),
        message: locale.batch_delete_modal_message(count),
        action_label: locale.modal_delete_confirm().to_owned(),
        cancel_label: locale.modal_cancel().to_owned(),
        action_url: "/emails/batch-delete".to_owned(),
        action_method: "post".to_owned(),
        action_color: "danger".to_owned(),
        target: "body".to_owned(),
        swap: "outerHTML".to_owned(),
        include_target: Some("#batch-delete-form".to_owned()),
    })
}

/// The auto-forward switch of an alias row after it was toggled.
pub open spec fn spec_forward_toggle(auto_forward: bool, alias_id: Seq<char>, status_text: Seq<char>) -> Seq<char> {
    let checked = if auto_forward { "checked"@ } else { ""@ };
    let status_class = if auto_forward { "maileroo-status-enabled"@ } else { "maileroo-status-disabled"@ };
    "<div class=\"maileroo-toggle-wrapper\">\n                    <label class=\"maileroo-toggle-switch\">\n                        <input type=\"checkbox\" name=\"auto_forward\" value=\"true\" "@
        + checked
        + " \n                               hx-post=\"/aliases/"@
        + alias_id
        + "/toggle-forward\" \n                               hx-target=\"closest td\" \n                               hx-swap=\"innerHTML settle:400ms\">\n                        <span class=\"maileroo-toggle-slider\"></span>\n                    </label>\n                    <span class=\""@
        + status_class
        + "\">"@
        + status_text
        + "</span>\n                </div>"@
}

pub fn forward_toggle_html(locale: Locale, auto_forward: bool, alias_id: &str) -> (html: String)
    ensures
        html@ == spec_forward_toggle(
            auto_forward,
            alias_id@,
            if auto_forward { locale.status_enabled_text() } else { locale.status_disabled_text() },
        ),
{
    let checked = if auto_forward { "checked" } else { "" };
    let status_text = if auto_forward { locale.status_enabled() } else { locale.status_disabled() };
    let status_class = if auto_forward { "maileroo-status-enabled" } else { "maileroo-status-disabled" };
    let mut s = String::new();
    push_str(
        &mut s,
        "<div class=\"maileroo-toggle-wrapper\">\n                    <label class=\"maileroo-toggle-switch\">\n                        <input type=\"checkbox\" name=\"auto_forward\" value=\"true\" ",
    );
    push_str(&mut s, checked);
    push_str(&mut s, " \n                               hx-post=\"/aliases/");
    push_str(&mut s, alias_id);
    push_str(
        &mut s,
        "/toggle-forward\" \n                               hx-target=\"closest td\" \n                               hx-swap=\"innerHTML settle:400ms\">\n                        <span class=\"maileroo-toggle-slider\"></span>\n                    </label>\n                    <span class=\"",
    );
    push_str(&mut s, status_class);
    push_str(&mut s, "\">");
    push_str(&mut s, status_text);
    push_str(&mut s, "</span>\n                </div>");
    s
}

pub open spec fn hex_digit(n: u8) -> char {
    if n < 10 {
        (('0' as u8) + n) as char
    } else {
        (('a' as u8) + n - 10) as char
    }
}

/// Lowercase hexadecimal, two digits per byte.
pub open spec fn hex(bytes: Seq<u8>) -> Seq<char>
    decreases bytes.len(),
{
    if bytes.len() == 0 {
        Seq::empty()
    } else {
        hex(bytes.drop_last()) + seq![hex_digit(bytes.last() / 16), hex_digit(bytes.last() % 16)]
    }
}

fn hex_char(n: u8) -> (c: char)
    requires
        n < 16,
    ensures
        c == hex_digit(n),
{
    if n < 10 {
        ((0x30u8 + n) as char)
    } else {
        ((0x61u8 + n - 10) as char)
    }
}

/// How an API key is stored: the lowercase hex SHA-256 of the token.
pub fn api_key_hash(token: &str) -> (h: String)
    ensures
        h@ == hex(crate::crypto::spec_sha256(encode_utf8(token@))),
{
    let digest = crate::crypto::sha256(token.as_bytes());
    let mut out = String::new();
    let mut i: usize = 0;
    while i < digest.len()
        invariant
            i <= digest@.len(),
            out@ == hex(digest@.take(i as int)),
        decreases digest@.len() - i,
    {
        let b = digest[i];
        let ghost before = out@;
        let hi = hex_char(b / 16);
        let lo = hex_char(b % 16);
        let pair: Vec<char> = vec![hi, lo];
        push_chars(&mut out, &pair);
        proof {
            assert(digest@.take(i + 1).drop_last() =~= digest@.take(i as int));
            assert(digest@.take(i + 1).last() == b);
            assert(pair@ =~= seq![hex_digit(b / 16), hex_digit(b % 16)]);
        }
        i = i + 1;
    }
    assert(digest@.take(digest@.len() as int) =~= digest@);
    out
}

/// Why an API request is refused.
#[derive(Debug, PartialEq, Eq, Structural)]
pub enum ApiKeyError {
    /// No `Authorization` header: `Missing API key`.
    Missing,
    /// The header is not `Bearer <token>`: `Invalid API key format`.
    BadFormat,
}

/// The stored hash to look an API request's key up by, from its `Authorization`
/// header (`Bearer <token>`).
pub fn api_key_lookup_hash(authorization: Option<&str>) -> (r: Result<String, ApiKeyError>)
    ensures
        authorization is None ==> r == Err::<String, ApiKeyError>(ApiKeyError::Missing),
        authorization matches Some(h) ==> (if starts_with(h@, "Bearer "@) {
            r matches Ok(x) && x@ == hex(crate::crypto::spec_sha256(encode_utf8(h@.skip(7))))
        } else {
            r == Err::<String, ApiKeyError>(ApiKeyError::BadFormat)
        }),
{
    proof {
        reveal_strlit("Bearer ");
    }
    match authorization {
        None => Err(ApiKeyError::Missing),
        Some(h) => {
            if !str_starts_with(h, "Bearer ") {
                return Err(ApiKeyError::BadFormat);
            }
            let v = chars_of(h);
            let token = string_from(&crate::text::slice_of(&v, 7, v.len()));
            assert(token@ =~= h@.skip(7));
            Ok(api_key_hash(token.as_str()))
        },
    }
}

impl ApiKeyError {
    /// The message the refusal carries.
    pub fn message(&self) -> (m: &'static str)
        ensures
            m@ == match *self {
                ApiKeyError::Missing => "Missing API key"@,
                ApiKeyError::BadFormat => "Invalid API key format"@,
            },
    {
        match self {
            ApiKeyError::Missing => "Missing API key",
            ApiKeyError::BadFormat => "Invalid API key format",
        }
    }
}

// ------------------------------------------------------------------
// Domain list
// ------------------------------------------------------------------

pub open spec fn dns_ok_badge() -> Seq<char> {
    "<span class='badge' style='background: #e6fffa; color: #2c7a7b;'>DNS OK</span>"@
}

pub open spec fn dns_issue_badge() -> Seq<char> {
    "<span class='badge' style='background: #fff5f5; color: #c53030;'>DNS Issue</span>"@
}

pub open spec fn dns_unknown_badge() -> Seq<char> {
    "<span class='badge' style='background: #edf2f7; color: #4a5568;'>DNS Unknown</span>"@
}

pub open spec fn no_dkim_badge() -> Seq<char> {
    "<span class='badge' style='background: #fffaf0; border: 1px solid #feebc8; color: #c05621;'>⚠️ No DKIM</span>"@
}

pub open spec fn rotating_badge() -> Seq<char> {
    "<span class='badge' style='background: #ebf8ff; border: 1px solid #bee3f8; color: #2b6cb0;'>⏳ Rotating</span>"@
}

/// The DNS badge of a domain: OK or issue, with the three record messages in a
/// tooltip, or unknown when the check failed.
pub open spec fn spec_dns_badge(dns: Option<(bool, Seq<char>, Seq<char>, Seq<char>)>) -> Seq<char> {
    match dns {
        Some((ok, mx, spf, dmarc)) => "<div class='maileroo-tooltip-container'>"@ + (if ok {
            dns_ok_badge()
        } else {
            dns_issue_badge()
        }) + "<div class='maileroo-tooltip-text'><strong>MX:</strong> "@ + mx + "<br><strong>SPF:</strong> "@ + spf
            + "<br><strong>DMARC:</strong> "@ + dmarc + "</div></div>"@,
        None => dns_unknown_badge(),
    }
}

/// The DKIM badge: no key yet, or a rotation in progress.
pub open spec fn spec_dkim_badge(has_key: bool, rotating: bool) -> Seq<char> {
    if !has_key {
        no_dkim_badge()
    } else if rotating {
        rotating_badge()
    } else {
        Seq::empty()
    }
}

/// The row of a domain in the admin's domain list.
pub open spec fn spec_domain_row(
    id: Seq<char>,
    name: Seq<char>,
    dns: Option<(bool, Seq<char>, Seq<char>, Seq<char>)>,
    has_key: bool,
    rotating: bool,
    created: Seq<char>,
) -> Seq<char> {
    "<tr id='domain-"@ + id + "'><td style='font-weight: 500;'>"@ + name + "</td><td>"@
        + "<div style='display: flex; align-items: center; gap: 5px; flex-wrap: wrap;'>"@ + spec_dns_badge(dns)
        + spec_dkim_badge(has_key, rotating) + "</div>"@ + "</td><td style='color: #666; font-size: 0.9rem;'>"@
        + created
        + "</td><td style='text-align: right;'><button class='maileroo-alias-btn' style='background: #edf2f7; color: #4a5568; margin-right: 5px;' hx-get='/domains/"@
        + id
        + "/dkim-modal' hx-target='#maileroo-modal-placeholder' hx-swap='innerHTML'>DKIM Settings</button><button class='maileroo-alias-btn maileroo-alias-btn-delete' hx-delete='/domains/"@
        + id + "' hx-target='#domain-"@ + id
        + "' hx-swap='outerHTML' hx-confirm='Are you sure you want to delete this domain?'>Delete</button></td></tr>"@
}

pub open spec fn dns_summary(dns: Option<crate::dns::DnsCheckResult>) -> Option<(bool, Seq<char>, Seq<char>, Seq<char>)> {
    match dns {
        Some(d) => Some((d.is_ok, d.mx_status.message@, d.spf_status.message@, d.dmarc_status.message@)),
        None => None,
    }
}

/// The row of a domain in the admin's domain list: its id, name, DNS and DKIM badges
/// and creation date (`created`, as shown), with its DKIM and delete buttons.
pub fn domain_row_html(
    id: u128,
    name: &str,
    dns: &Option<crate::dns::DnsCheckResult>,
    has_dkim_key: bool,
    rotating: bool,
    created: &str,
) -> (html: String)
    ensures
        html@ == spec_domain_row(
            crate::email_body::uuid_hyphenated(id),
            name@,
            dns_summary(*dns),
            has_dkim_key,
            rotating,
            created@,
        ),
{
    let ids = crate::email_body::uuid_text(id);
    let id_s = ids.as_str();
    let mut h = "<tr id='domain-".to_owned();
    push_str(&mut h, id_s);
    push_str(&mut h, "'><td style='font-weight: 500;'>");
    push_str(&mut h, name);
    push_str(&mut h, "</td><td>");
    push_str(&mut h, "<div style='display: flex; align-items: center; gap: 5px; flex-wrap: wrap;'>");
    let ghost before_dns = h@;
    match dns {
        Some(d) => {
            push_str(&mut h, "<div class='maileroo-tooltip-container'>");
            if d.is_ok {
                push_str(&mut h, "<span class='badge' style='background: #e6fffa; color: #2c7a7b;'>DNS OK</span>");
            } else {
                push_str(&mut h, "<span class='badge' style='background: #fff5f5; color: #c53030;'>DNS Issue</span>");
            }
            push_str(&mut h, "<div class='maileroo-tooltip-text'><strong>MX:</strong> ");
            push_str(&mut h, d.mx_status.message.as_str());
            push_str(&mut h, "<br><strong>SPF:</strong> ");
            push_str(&mut h, d.spf_status.message.as_str());
            push_str(&mut h, "<br><strong>DMARC:</strong> ");
            push_str(&mut h, d.dmarc_status.message.as_str());
            push_str(&mut h, "</div></div>");
        },
        None => {
            push_str(&mut h, "<span class='badge' style='background: #edf2f7; color: #4a5568;'>DNS Unknown</span>");
        },
    }
    assert(h@ == before_dns + spec_dns_badge(dns_summary(*dns)));
    let ghost before_dkim = h@;
    if !has_dkim_key {
        push_str(
            &mut h,
            "<span class='badge' style='background: #fffaf0; border: 1px solid #feebc8; color: #c05621;'>⚠️ No DKIM</span>",
        );
    } else if rotating {
        push_str(
            &mut h,
            "<span class='badge' style='background: #ebf8ff; border: 1px solid #bee3f8; color: #2b6cb0;'>⏳ Rotating</span>",
        );
    }
    assert(h@ == before_dkim + spec_dkim_badge(has_dkim_key, rotating)) by {
        if has_dkim_key && !rotating {
            assert(before_dkim + Seq::<char>::empty() =~= before_dkim);
        }
    }
    push_str(&mut h, "</div>");
    push_str(&mut h, "</td><td style='color: #666; font-size: 0.9rem;'>");
    push_str(&mut h, created);
    push_str(
        &mut h,
        "</td><td style='text-align: right;'><button class='maileroo-alias-btn' style='background: #edf2f7; color: #4a5568; margin-right: 5px;' hx-get='/domains/",
    );
    push_str(&mut h, id_s);
    push_str(
        &mut h,
        "/dkim-modal' hx-target='#maileroo-modal-placeholder' hx-swap='innerHTML'>DKIM Settings</button><button class='maileroo-alias-btn maileroo-alias-btn-delete' hx-delete='/domains/",
    );
    push_str(&mut h, id_s);
    push_str(&mut h, "' hx-target='#domain-");
    push_str(&mut h, id_s);
    push_str(
        &mut h,
        "' hx-swap='outerHTML' hx-confirm='Are you sure you want to delete this domain?'>Delete</button></td></tr>",
    );
    h
}

// ------------------------------------------------------------------
// Email listing API
// ------------------------------------------------------------------

/// What a request to the email listing API asks for.
pub struct ApiListing {
    /// The page, counted from 1.
    pub page: i64,
    pub page_size: i64,
    /// How many emails precede the page.
    pub offset: i64,
    pub alias_filter: Option<String>,
    pub query: Option<String>,
}

/// The listing an API request asks for: page at least 1, ten emails per page, an empty
/// alias filter dropped (the search text is taken as it is).
pub fn api_listing(params: &PaginationParams) -> (l: ApiListing)
    ensures
        l.page == (match params.page {
            Some(p) => if p >= 1 { p } else { 1 },
            None => 1,
        }),
        l.page_size == 10,
        l.offset == ((l.page - 1) as i64).wrapping_mul(10),
        opt_view(l.alias_filter) == crate::dashboard::nonempty(opt_view(params.alias)),
        opt_view(l.query) == opt_view(params.q),
{
    let page = match params.page {
        Some(p) => if p >= 1 { p } else { 1 },
        None => 1,
    };
    let alias_filter = match &params.alias {
        Some(a) => if a.as_str().is_empty() {
            None
        } else {
            Some(string_from(&chars_of(a.as_str())))
        },
        None => None,
    };
    let query = match &params.q {
        Some(q) => Some(string_from(&chars_of(q.as_str()))),
        None => None,
    };
    ApiListing { page, page_size: 10, offset: (page - 1).wrapping_mul(10), alias_filter, query }
}

/// The number of pages the API reports for `total_emails` emails: the quotient by ten
/// rounded up (none for no emails).
pub fn api_total_pages(total_emails: i64) -> (p: i64)
    ensures
        total_emails == 0 ==> p == 0,
        total_emails != 0 ==> p == crate::dashboard::spec_total_pages(total_emails as int, 10),
{
    if total_emails == 0 {
        0
    } else {
        crate::dashboard::calculate_total_pages(total_emails, 10)
    }
}

} // verus!
