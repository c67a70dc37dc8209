use hmac::{Hmac, Mac};
use maileroo::srs::{decode_srs, decode_srs_at, encode_srs, encode_srs_at, get_current_srs_timestamp, srs_day};
use sha2::Sha256;

#[test]
fn test_get_current_srs_timestamp_range() {
    let ts = get_current_srs_timestamp();
    assert!(ts < 1024);
}

#[test]
fn test_encode_srs_format() {
    let secret = "secret";
    let domain = "example.com";
    let sender = "alice@gmail.com";
    let encoded = encode_srs(sender, domain, secret);

    assert!(encoded.starts_with("SRS0+"));
    assert!(encoded.contains("=gmail.com=alice@example.com"));
}

#[test]
fn test_encode_srs_consistency() {
    let secret = "secret";
    let domain = "example.com";
    let sender = "alice@gmail.com";

    let encoded1 = encode_srs(sender, domain, secret);
    let encoded2 = encode_srs(sender, domain, secret);

    assert_eq!(encoded1, encoded2);
}

#[test]
fn test_encode_srs_different_domains() {
    let secret = "secret";
    let sender = "alice@gmail.com";

    let encoded1 = encode_srs(sender, "example.com", secret);
    let encoded2 = encode_srs(sender, "other.com", secret);

    assert_ne!(encoded1, encoded2);
    assert!(encoded1.ends_with("@example.com"));
    assert!(encoded2.ends_with("@other.com"));
}

#[test]
fn test_decode_srs_valid() {
    let secret = "secret";
    let domain = "example.com";
    let sender = "alice@gmail.com";

    let encoded = encode_srs(sender, domain, secret);
    let decoded = decode_srs(&encoded, secret);

    assert_eq!(decoded, Some(sender.to_string()));
}

#[test]
fn test_decode_srs_invalid_secret() {
    let secret = "secret";
    let domain = "example.com";
    let sender = "alice@gmail.com";

    let encoded = encode_srs(sender, domain, secret);
    let decoded = decode_srs(&encoded, "wrong_secret");

    assert_eq!(decoded, None);
}

#[test]
fn test_decode_srs_tampered_hash() {
    let secret = "secret";
    let domain = "example.com";
    let sender = "alice@gmail.com";

    let encoded = encode_srs(sender, domain, secret);
    let tampered = encoded.replace("SRS0+", "SRS0+A");
    let decoded = decode_srs(&tampered, secret);

    assert_eq!(decoded, None);
}

#[test]
fn test_decode_srs_expired_timestamp() {
    let secret = "secret";
    let current_timestamp = (std::time::SystemTime::now()
        .duration_since(std::time::UNIX_EPOCH)
        .unwrap()
        .as_secs()
        / 86400)
        % 1024;
    let expired_timestamp = (current_timestamp + 1024 - 30) % 1024;

    let mut mac = <Hmac<Sha256> as Mac>::new_from_slice(secret.as_bytes()).unwrap();
    mac.update(format!("{}gmail.comalice", expired_timestamp).as_bytes());
    let result = mac.finalize().into_bytes();
    let hash = &base32::encode(base32::Alphabet::Crockford, &result)[..4];

    let expired_srs = format!(
        "SRS0+{}={}={}={}@example.com",
        hash, expired_timestamp, "gmail.com", "alice"
    );
    let decoded = decode_srs(&expired_srs, secret);

    assert_eq!(decoded, None);
}

#[test]
fn test_decode_non_srs() {
    assert_eq!(decode_srs("alice@gmail.com", "secret"), None);
    assert_eq!(
        decode_srs("SRS1+hash=timestamp=domain=local@domain.com", "secret"),
        None
    );
}

#[test]
fn srs_roundtrip_at_fixed_day() {
    let encoded = encode_srs_at("bob@example.org", "relay.net", "k", 1000);
    assert!(encoded.starts_with("SRS0+"));
    assert!(encoded.ends_with("=1000=example.org=bob@relay.net"));
    assert_eq!(decode_srs_at(&encoded, "k", 1000), Some("bob@example.org".to_string()));
    assert_eq!(decode_srs_at(&encoded, "k", 1021), Some("bob@example.org".to_string()));
    assert_eq!(decode_srs_at(&encoded, "k", 1022), None);
}

#[test]
fn srs_freshness_wraps_at_1024_days() {
    let encoded = encode_srs_at("bob@example.org", "relay.net", "k", 1020);
    assert_eq!(decode_srs_at(&encoded, "k", 5), Some("bob@example.org".to_string()));
    assert_eq!(decode_srs_at(&encoded, "k", 17), Some("bob@example.org".to_string()));
    assert_eq!(decode_srs_at(&encoded, "k", 18), None);
}

#[test]
fn srs_sender_without_at_uses_unknown_domain() {
    let encoded = encode_srs_at("postmaster", "relay.net", "k", 5);
    assert!(encoded.ends_with("=5=unknown=postmaster@relay.net"));
    assert_eq!(decode_srs_at(&encoded, "k", 5), Some("postmaster@unknown".to_string()));
}

#[test]
fn srs_lowercase_prefix_is_accepted() {
    let encoded = encode_srs_at("alice@gmail.com", "example.com", "secret", 42);
    let lowered = encoded.replacen("SRS0+", "srs0+", 1);
    assert_eq!(decode_srs_at(&lowered, "secret", 42), Some("alice@gmail.com".to_string()));
}

#[test]
fn srs_day_counts_days_since_the_epoch_modulo_1024() {
    assert_eq!(srs_day(0), 0);
    assert_eq!(srs_day(86_399), 0);
    assert_eq!(srs_day(86_400), 1);
    assert_eq!(srs_day(1024 * 86_400), 0);
    assert_eq!(srs_day(1_700_000_000), 219);
    let secs = std::time::SystemTime::now().duration_since(std::time::UNIX_EPOCH).unwrap().as_secs();
    let today = srs_day(secs);
    let now = get_current_srs_timestamp();
    // the clock may pass midnight between the two readings
    assert!(now == today || now == (today + 1) % 1024);
}
