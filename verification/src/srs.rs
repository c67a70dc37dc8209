//! Sender Rewriting Scheme (SRS0) addresses.
//!
//! A forwarded message gets the envelope sender
//! `SRS0+Hash=Timestamp=OriginalDomain=LocalPart@IdentityDomain`, where the
//! hash is the first four Crockford base32 characters of an HMAC-SHA256 over
//! the timestamp, the original domain and the local part.  Decoding checks the
//! hash and that the timestamp (days modulo 1024) is at most 21 days old.
use vstd::prelude::*;
use hmac::Mac;
use crate::text::{
    contains, lacks, lemma_dec_digits, lemma_parse_dec, lemma_split_once_at, lemma_split_once_parts,
    ascii_lower_chars, ascii_lower_seq, chars_eq, chars_of, dec, dec_u64, is_digit, parse_u64,
    parse_unsigned, push_chars, push_str, slice_of, split_once, split_once_char, string_from, to_vec,
    spec_to_uppercase, to_uppercase,
};
use vstd::utf8::encode_utf8;
use vstd::string::StringSliceAdditionalSpecFns;

verus! {

// ------------------------------------------------------------------
// Outside functions
// ------------------------------------------------------------------

/// The HMAC-SHA256 tag of `msg` under `key`.
pub uninterp spec fn spec_hmac_sha256(key: Seq<u8>, msg: Seq<u8>) -> Seq<u8>;

/// The Crockford base32 encoding of `data`.
pub uninterp spec fn spec_base32_crockford(data: Seq<u8>) -> Seq<char>;

/// A character of the Crockford base32 alphabet `0-9A-Z` without `I`, `L`, `O`, `U`.
pub open spec fn is_crockford_char(c: char) -> bool {
    ||| is_digit(c)
    ||| ('A' <= c <= 'Z' && c != 'I' && c != 'L' && c != 'O' && c != 'U')
}

/// `Hmac::<Sha256>::new_from_slice`, `update`, `finalize`: HMAC accepts keys of any
/// length, so the call cannot fail; the tag is 32 bytes and depends on key and message only.
#[verifier::external_body]
fn hmac_sha256(key: &[u8], msg: &[u8]) -> (tag: Vec<u8>)
    ensures
        tag@ == spec_hmac_sha256(key@, msg@),
        tag@.len() == 32,
{
    let mut mac = <hmac::Hmac<sha2::Sha256> as hmac::Mac>::new_from_slice(key).expect("any key size");
    mac.update(msg);
    mac.finalize().into_bytes().to_vec()
}

/// `base32::encode(Alphabet::Crockford, data)`: unpadded output of `ceil(8 * len / 5)`
/// characters, all from the Crockford alphabet.
#[verifier::external_body]
fn base32_crockford(data: &[u8]) -> (s: String)
    ensures
        s@ == spec_base32_crockford(data@),
        s@.len() == (data@.len() * 8 + 4) / 5,
        forall|i: int| 0 <= i < s@.len() ==> is_crockford_char(#[trigger] s@[i]),
{
    base32::encode(base32::Alphabet::Crockford, data)
}

/// Seconds since the Unix epoch from the system clock (`SystemTime::now`), or 0 when the
/// clock reads a time before the epoch.  Nothing is claimed of the value.
#[verifier::external_body]
fn unix_seconds_now() -> u64 {
    std::time::SystemTime::now().duration_since(std::time::UNIX_EPOCH).unwrap_or_default().as_secs()
}

// ------------------------------------------------------------------
// Specification
// ------------------------------------------------------------------

pub open spec fn srs0_prefix() -> Seq<char> {
    seq!['S', 'R', 'S', '0', '+']
}

pub open spec fn srs0_prefix_lower() -> Seq<char> {
    seq!['s', 'r', 's', '0', '+']
}

pub open spec fn unknown_domain() -> Seq<char> {
    seq!['u', 'n', 'k', 'n', 'o', 'w', 'n']
}

/// The local part and domain of the original sender (split at the first `@`);
/// a sender without `@` counts as the local part of domain `unknown`.
pub open spec fn sender_parts(sender: Seq<char>) -> (Seq<char>, Seq<char>) {
    match split_once(sender, seq!['@']) {
        Some(p) => p,
        None => (sender, unknown_domain()),
    }
}

/// The four-character hash that authenticates an SRS address.
pub open spec fn srs_hash(secret: Seq<char>, ts: nat, sender_domain: Seq<char>, local: Seq<char>) -> Seq<char> {
    spec_base32_crockford(
        spec_hmac_sha256(encode_utf8(secret), encode_utf8(dec(ts) + sender_domain + local)),
    ).take(4)
}

/// Four characters, all from the Crockford alphabet.
pub open spec fn is_crockford_hash(h: Seq<char>) -> bool {
    h.len() == 4 && forall|i: int| 0 <= i < 4 ==> is_crockford_char(#[trigger] h[i])
}

/// The SRS0 address for `sender`, rewritten into `domain` with timestamp `ts`.
pub open spec fn spec_encode_srs(sender: Seq<char>, domain: Seq<char>, secret: Seq<char>, ts: nat) -> Seq<char> {
    let (local, sd) = sender_parts(sender);
    srs0_prefix() + srs_hash(secret, ts, sd, local) + seq!['='] + dec(ts) + seq!['='] + sd + seq!['=']
        + local + seq!['@'] + domain
}

/// A timestamp `ts` (days modulo 1024) is accepted at day `now` when it is at most 21
/// days old, counting across the wrap-around at 1024.
pub open spec fn srs_fresh(now: nat, ts: nat) -> bool {
    if now >= ts {
        now - ts <= 21
    } else {
        ts <= now + 1024 && now + 1024 - ts <= 21
    }
}

/// What decoding an SRS address at day `now` yields: the original sender, or nothing
/// when the address is not SRS0, is malformed, is stale, or carries a wrong hash.
pub open spec fn spec_decode_srs(addr: Seq<char>, secret: Seq<char>, now: nat) -> Option<Seq<char>> {
    match split_once(addr, seq!['@']) {
        None => None,
        Some((local_part, _)) => {
            if !(local_part.len() >= 5 && ascii_lower_seq(local_part.take(5)) == srs0_prefix_lower()) {
                None
            } else {
                match split_once(local_part, seq!['+']) {
                    None => None,
                    Some((_, data)) => match split_once(data, seq!['=']) {
                        None => None,
                        Some((hash, r1)) => match split_once(r1, seq!['=']) {
                            None => None,
                            Some((ts_text, r2)) => match split_once(r2, seq!['=']) {
                                None => None,
                                Some((sd, sl)) => match parse_unsigned(ts_text, u64::MAX as nat) {
                                    None => None,
                                    Some(ts) => {
                                        if !srs_fresh(now, ts) {
                                            None
                                        } else if spec_to_uppercase(hash) != spec_to_uppercase(
                                            srs_hash(secret, ts, sd, sl),
                                        ) {
                                            None
                                        } else {
                                            Some(sl + seq!['@'] + sd)
                                        }
                                    },
                                },
                            },
                        },
                    },
                }
            }
        },
    }
}

pub open spec fn opt_string_view(r: Option<String>) -> Option<Seq<char>> {
    match r {
        Some(s) => Some(s@),
        None => None,
    }
}

// ------------------------------------------------------------------
// Laws
// ------------------------------------------------------------------

proof fn lemma_crockford_lacks(h: Seq<char>, c: char)
    requires
        is_crockford_hash(h),
        c == '@' || c == '=' || c == '+',
    ensures
        lacks(h, c),
{
    assert forall|i: int| 0 <= i < h.len() implies h[i] != c by {
        assert(is_crockford_char(h[i]));
    }
}

proof fn lemma_dec_lacks(n: nat, c: char)
    requires
        c == '@' || c == '=',
    ensures
        lacks(dec(n), c),
{
    lemma_dec_digits(n);
    assert forall|i: int| 0 <= i < dec(n).len() implies dec(n)[i] != c by {
        assert(is_digit(dec(n)[i]));
    }
}

/// Decoding what encoding produced gives the original sender back, as long as the
/// timestamp is still fresh.  This holds for senders with an `@` whose domain part holds
/// neither `@` nor `=` (the characters that delimit the rewritten address), and for hashes
/// as the base32 encoder produces them.
pub proof fn lemma_srs_roundtrip(sender: Seq<char>, domain: Seq<char>, secret: Seq<char>, ts: nat, now: nat)
    requires
        ts < 1024,
        srs_fresh(now, ts),
        contains(sender, seq!['@']),
        lacks(sender_parts(sender).1, '@'),
        lacks(sender_parts(sender).1, '='),
        is_crockford_hash(srs_hash(secret, ts, sender_parts(sender).1, sender_parts(sender).0)),
    ensures
        spec_decode_srs(spec_encode_srs(sender, domain, secret, ts), secret, now) == Some(sender),
{
    let (local, sd) = sender_parts(sender);
    lemma_split_once_parts(sender, '@');
    let h = srs_hash(secret, ts, sd, local);
    let d = dec(ts);
    lemma_crockford_lacks(h, '@');
    lemma_crockford_lacks(h, '=');
    lemma_crockford_lacks(h, '+');
    lemma_dec_lacks(ts, '@');
    lemma_dec_lacks(ts, '=');
    let p = srs0_prefix();
    let tail3 = sd + seq!['='] + local;
    let tail2 = d + seq!['='] + tail3;
    let data = h + seq!['='] + tail2;
    let lp = p + data;
    let addr = spec_encode_srs(sender, domain, secret, ts);
    assert(addr =~= lp + seq!['@'] + domain);
    assert(lacks(lp, '@')) by {
        assert forall|i: int| 0 <= i < lp.len() implies lp[i] != '@' by {
            if i < 5 {
            } else if i < 9 {
                assert(lp[i] == h[i - 5]);
            } else if i == 9 {
            } else if i < 10 + d.len() {
                assert(lp[i] == d[i - 10]);
            } else if i == 10 + d.len() {
            } else if i < 11 + d.len() + sd.len() {
                assert(lp[i] == sd[i - 11 - d.len()]);
            } else if i == 11 + d.len() + sd.len() {
            } else {
                assert(lp[i] == local[i - 12 - d.len() - sd.len()]);
            }
        }
    }
    lemma_split_once_at(lp, domain, '@');
    assert(lp.take(5) =~= p);
    assert(ascii_lower_seq(p) =~= srs0_prefix_lower());
    let p4 = seq!['S', 'R', 'S', '0'];
    assert(lp =~= p4 + seq!['+'] + data);
    lemma_split_once_at(p4, data, '+');
    assert(data =~= h + seq!['='] + tail2);
    lemma_split_once_at(h, tail2, '=');
    assert(tail2 =~= d + seq!['='] + tail3);
    lemma_split_once_at(d, tail3, '=');
    lemma_split_once_at(sd, local, '=');
    lemma_parse_dec(ts, u64::MAX as nat);
    assert(local + seq!['@'] + sd =~= sender);
}

// ------------------------------------------------------------------
// Implementation
// ------------------------------------------------------------------

/// The SRS day of a moment `secs` seconds after the Unix epoch: whole days since the
/// epoch, modulo 1024.
pub open spec fn spec_srs_day(secs: nat) -> nat {
    (secs / 86400) % 1024
}

/// The SRS timestamp of a moment `secs` seconds after the Unix epoch.
pub fn srs_day(secs: u64) -> (t: u64)
    ensures
        t == spec_srs_day(secs as nat),
        t < 1024,
{
    (secs / 86400) % 1024
}

/// The current SRS timestamp: the SRS day of the system clock's seconds since the Unix
/// epoch (of 0 when the clock reads a time before the epoch).  Which moment the clock
/// gives is not claimed.
pub fn get_current_srs_timestamp() -> (t: u64)
    ensures
        exists|secs: u64| t == spec_srs_day(secs as nat),
        t < 1024,
{
    let secs = unix_seconds_now();
    srs_day(secs)
}

/// Computes the four-character hash for a timestamp, original domain and local part.
fn compute_hash(secret: &str, ts: u64, sender_domain: &[char], local: &[char]) -> (h: Vec<char>)
    ensures
        h@ == srs_hash(secret@, ts as nat, sender_domain@, local@),
        is_crockford_hash(h@),
{
    let mut msg = string_from(&dec_u64(ts));
    push_chars(&mut msg, sender_domain);
    push_chars(&mut msg, local);
    let key = secret.as_bytes();
    let body = msg.as_str().as_bytes();
    let tag = hmac_sha256(key, body);
    let encoded = base32_crockford(tag.as_slice());
    let chars = chars_of(encoded.as_str());
    let h = slice_of(&chars, 0, 4);
    assert(h@ =~= chars@.take(4));
    h
}

/// Rewrites `original_sender` into an SRS0 address of `domain`, with the given timestamp.
pub fn encode_srs_at(original_sender: &str, domain: &str, secret: &str, timestamp: u64) -> (r: String)
    ensures
        r@ == spec_encode_srs(original_sender@, domain@, secret@, timestamp as nat),
        is_crockford_hash(
            srs_hash(
                secret@,
                timestamp as nat,
                sender_parts(original_sender@).1,
                sender_parts(original_sender@).0,
            ),
        ),
{
    let sender = chars_of(original_sender);
    let (local, sender_domain) = match split_once_char(&sender, '@') {
        Some(p) => p,
        None => {
            let mut u: Vec<char> = Vec::new();
            u.push('u');
            u.push('n');
            u.push('k');
            u.push('n');
            u.push('o');
            u.push('w');
            u.push('n');
            assert(u@ =~= unknown_domain());
            (to_vec(&sender), u)
        },
    };
    let hash = compute_hash(secret, timestamp, &sender_domain, &local);
    let mut out = String::new();
    push_chars(&mut out, &['S', 'R', 'S', '0', '+']);
    push_chars(&mut out, &hash);
    push_chars(&mut out, &['=']);
    push_chars(&mut out, &dec_u64(timestamp));
    push_chars(&mut out, &['=']);
    push_chars(&mut out, &sender_domain);
    push_chars(&mut out, &['=']);
    push_chars(&mut out, &local);
    push_chars(&mut out, &['@']);
    push_str(&mut out, domain);
    proof {
        let (l, d) = sender_parts(original_sender@);
        assert(l == local@ && d == sender_domain@);
        assert(out@ =~= spec_encode_srs(original_sender@, domain@, secret@, timestamp as nat));
    }
    out
}

/// Rewrites `original_sender` into an SRS0 address of `domain`, stamped with today's
/// SRS timestamp.
pub fn encode_srs(original_sender: &str, domain: &str, secret: &str) -> (r: String)
    ensures
        exists|t: nat| t < 1024 && r@ == spec_encode_srs(original_sender@, domain@, secret@, t),
{
    let t = get_current_srs_timestamp();
    encode_srs_at(original_sender, domain, secret, t)
}

/// Decodes an SRS0 address at SRS day `now`.
pub fn decode_srs_at(srs_address: &str, secret: &str, now: u64) -> (r: Option<String>)
    requires
        now < 1024,
    ensures
        opt_string_view(r) == spec_decode_srs(srs_address@, secret@, now as nat),
{
    let addr = chars_of(srs_address);
    let (local_part, _rest) = match split_once_char(&addr, '@') {
        Some(p) => p,
        None => return None,
    };
    if local_part.len() < 5 {
        return None;
    }
    let head = ascii_lower_chars(&slice_of(&local_part, 0, 5));
    assert(local_part@.subrange(0, 5) =~= local_part@.take(5));
    if !chars_eq(&head, &['s', 'r', 's', '0', '+']) {
        return None;
    }
    let (_tag, data) = match split_once_char(&local_part, '+') {
        Some(p) => p,
        None => return None,
    };
    let (hash, r1) = match split_once_char(&data, '=') {
        Some(p) => p,
        None => return None,
    };
    let (ts_text, r2) = match split_once_char(&r1, '=') {
        Some(p) => p,
        None => return None,
    };
    let (sender_domain, sender_local) = match split_once_char(&r2, '=') {
        Some(p) => p,
        None => return None,
    };
    let ts = match parse_u64(&ts_text) {
        Some(t) => t,
        None => return None,
    };
    let diff: u64 = if now >= ts {
        now - ts
    } else if ts <= now + 1024 {
        now + 1024 - ts
    } else {
        return None;
    };
    if diff > 21 {
        return None;
    }
    let expected = compute_hash(secret, ts, &sender_domain, &sender_local);
    let given_upper = to_uppercase(string_from(&hash).as_str());
    let expected_upper = to_uppercase(string_from(&expected).as_str());
    let g = chars_of(given_upper.as_str());
    let e = chars_of(expected_upper.as_str());
    if !chars_eq(&g, &e) {
        return None;
    }
    let mut out = string_from(&sender_local);
    push_chars(&mut out, &['@']);
    push_chars(&mut out, &sender_domain);
    Some(out)
}

/// Decodes an SRS0 address back to the original sender, checking it against today's
/// SRS timestamp.  `None` when the address is not SRS0, is malformed, expired or tampered.
pub fn decode_srs(srs_address: &str, secret: &str) -> (r: Option<String>)
    ensures
        exists|now: nat| now < 1024 && opt_string_view(r) == spec_decode_srs(srs_address@, secret@, now),
{
    let now = get_current_srs_timestamp();
    decode_srs_at(srs_address, secret, now)
}

} // verus!
