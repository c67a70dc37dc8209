//! Encryption of secrets at rest (DKIM private keys in the database).
//!
//! An encrypted value is `$v1$` followed by the standard base64 of a 24-byte random
//! nonce and the XChaCha20-Poly1305 ciphertext of the UTF-8 plaintext, under the
//! SHA-256 of the master key.  Values without the prefix are plaintext.
use vstd::prelude::*;
use vstd::utf8::{decode_utf8, encode_utf8, valid_utf8};
use vstd::string::StringSliceAdditionalSpecFns;
use crate::mime::{base64_standard, spec_base64_standard};
use crate::text::{chars_of, push_str, slice_of, starts_with, str_starts_with, string_from, trim, trim_chars};

verus! {

// ------------------------------------------------------------------
// Outside functions
// ------------------------------------------------------------------

/// The SHA-256 digest of `data`.
pub uninterp spec fn spec_sha256(data: Seq<u8>) -> Seq<u8>;

/// The XChaCha20-Poly1305 ciphertext (with its tag) of `plaintext`.
pub uninterp spec fn spec_aead_seal(key: Seq<u8>, nonce: Seq<u8>, plaintext: Seq<u8>) -> Seq<u8>;

/// The XChaCha20-Poly1305 plaintext of `ciphertext`, or nothing when it is not authentic.
pub uninterp spec fn spec_aead_open(key: Seq<u8>, nonce: Seq<u8>, ciphertext: Seq<u8>) -> Option<Seq<u8>>;

/// The bytes that the standard base64 text `text` encodes, or nothing when it is not
/// valid standard base64.
pub uninterp spec fn spec_base64_decode(text: Seq<char>) -> Option<Seq<u8>>;

pub open spec fn opt_bytes(r: Option<Vec<u8>>) -> Option<Seq<u8>> {
    match r {
        Some(v) => Some(v@),
        None => None,
    }
}

/// `Sha256::digest`: a 32-byte digest that depends on the data alone.
#[verifier::external_body]
pub(crate) fn sha256(data: &[u8]) -> (h: Vec<u8>)
    ensures
        h@ == spec_sha256(data@),
        h@.len() == 32,
{
    <sha2::Sha256 as sha2::Digest>::digest(data).to_vec()
}

/// `XChaCha20Poly1305::encrypt`: fails exactly for plaintexts of 64 * (2^32 - 1) bytes
/// or more.
#[verifier::external_body]
fn aead_seal(key: &[u8], nonce: &[u8], plaintext: &[u8]) -> (r: Option<Vec<u8>>)
    requires
        key@.len() == 32,
        nonce@.len() == 24,
    ensures
        plaintext@.len() / 64 < u32::MAX <==> r is Some,
        r matches Some(c) ==> c@ == spec_aead_seal(key@, nonce@, plaintext@),
{
    let cipher = <chacha20poly1305::XChaCha20Poly1305 as chacha20poly1305::aead::KeyInit>::new(
        chacha20poly1305::Key::from_slice(key),
    );
    chacha20poly1305::aead::Aead::encrypt(&cipher, chacha20poly1305::XNonce::from_slice(nonce), plaintext).ok()
}

/// `XChaCha20Poly1305::decrypt`: authenticated decryption, which gives back what
/// encryption under the same key and nonce sealed.
#[verifier::external_body]
fn aead_open(key: &[u8], nonce: &[u8], ciphertext: &[u8]) -> (r: Option<Vec<u8>>)
    requires
        key@.len() == 32,
        nonce@.len() == 24,
    ensures
        opt_bytes(r) == spec_aead_open(key@, nonce@, ciphertext@),
        forall|p: Seq<u8>|
            ciphertext@ == #[trigger] spec_aead_seal(key@, nonce@, p) && p.len() / 64 < u32::MAX ==> opt_bytes(r) == Some(p),
{
    let cipher = <chacha20poly1305::XChaCha20Poly1305 as chacha20poly1305::aead::KeyInit>::new(
        chacha20poly1305::Key::from_slice(key),
    );
    chacha20poly1305::aead::Aead::decrypt(&cipher, chacha20poly1305::XNonce::from_slice(nonce), ciphertext).ok()
}

/// `XChaCha20Poly1305::generate_nonce(&mut OsRng)`: 24 random bytes.
#[verifier::external_body]
fn random_nonce() -> (n: Vec<u8>)
    ensures
        n@.len() == 24,
{
    <chacha20poly1305::XChaCha20Poly1305 as chacha20poly1305::aead::AeadCore>::generate_nonce(
        &mut chacha20poly1305::aead::OsRng,
    ).to_vec()
}

/// `STANDARD.decode`: decoding gives back the bytes that encoding encoded.
#[verifier::external_body]
fn base64_decode(text: &str) -> (r: Option<Vec<u8>>)
    ensures
        opt_bytes(r) == spec_base64_decode(text@),
        forall|b: Seq<u8>| text@ == #[trigger] spec_base64_standard(b) ==> opt_bytes(r) == Some(b),
{
    base64::Engine::decode(&base64::engine::general_purpose::STANDARD, text).ok()
}

/// `String::from_utf8`: succeeds exactly on valid UTF-8, and the string holds the
/// characters those bytes encode.
#[verifier::external_body]
fn string_from_utf8(bytes: Vec<u8>) -> (r: Option<String>)
    ensures
        (r is Some) == valid_utf8(bytes@),
        r matches Some(s) ==> s@ == decode_utf8(bytes@),
{
    String::from_utf8(bytes).ok()
}

// ------------------------------------------------------------------
// Specification
// ------------------------------------------------------------------

#[derive(Debug, PartialEq, Eq, Structural)]
pub enum CryptoError {
    /// The value is encrypted but no master key is configured.
    MissingKey,
    /// The plaintext is too long to encrypt.
    Encryption,
    /// The encrypted value is not valid base64.
    Base64,
    /// The encrypted value is shorter than a nonce.
    TooShort,
    /// The ciphertext is not authentic under this key.
    Decryption,
    /// The decrypted bytes are not UTF-8.
    Utf8,
}

pub open spec fn prefix_v1() -> Seq<char> {
    "$v1$"@
}

/// The cipher key: the SHA-256 of the master key's UTF-8 bytes.
pub open spec fn derived_key(master_key: Seq<char>) -> Seq<u8> {
    spec_sha256(encode_utf8(master_key))
}

/// The encrypted form of `plaintext` under `master_key` with `nonce`.
pub open spec fn sealed_text(plaintext: Seq<char>, master_key: Seq<char>, nonce: Seq<u8>) -> Seq<char> {
    prefix_v1() + spec_base64_standard(nonce + spec_aead_seal(derived_key(master_key), nonce, encode_utf8(plaintext)))
}

/// Whether a plaintext is short enough to be encrypted.
pub open spec fn encryptable(plaintext: Seq<char>) -> bool {
    encode_utf8(plaintext).len() / 64 < u32::MAX
}

/// What decrypting `value` under `master_key` gives: a value without the prefix as it
/// is; otherwise the decrypted text, or the step that failed.
pub open spec fn spec_decrypt_with_key(value: Seq<char>, master_key: Seq<char>) -> Result<Seq<char>, CryptoError> {
    if !starts_with(value, prefix_v1()) {
        Ok(value)
    } else {
        match spec_base64_decode(value.skip(4)) {
            None => Err(CryptoError::Base64),
            Some(packed) => if packed.len() < 24 {
                Err(CryptoError::TooShort)
            } else {
                match spec_aead_open(derived_key(master_key), packed.take(24), packed.skip(24)) {
                    None => Err(CryptoError::Decryption),
                    Some(pt) => if valid_utf8(pt) {
                        Ok(decode_utf8(pt))
                    } else {
                        Err(CryptoError::Utf8)
                    },
                }
            },
        }
    }
}

pub open spec fn result_view(r: Result<String, CryptoError>) -> Result<Seq<char>, CryptoError> {
    match r {
        Ok(s) => Ok(s@),
        Err(e) => Err(e),
    }
}

// ------------------------------------------------------------------
// Implementation
// ------------------------------------------------------------------

fn derive_key(master_key: &str) -> (k: Vec<u8>)
    ensures
        k@ == derived_key(master_key@),
        k@.len() == 32,
{
    sha256(master_key.as_bytes())
}

/// Encrypts `plaintext` under `master_key` with a fresh random nonce.
pub fn encrypt_with_key(plaintext: &str, master_key: &str) -> (r: Result<String, CryptoError>)
    ensures
        encryptable(plaintext@) <==> r is Ok,
        r matches Ok(c) ==> exists|nonce: Seq<u8>| nonce.len() == 24 && c@ == sealed_text(plaintext@, master_key@, nonce),
        r matches Err(e) ==> e == CryptoError::Encryption,
{
    let key = derive_key(master_key);
    let nonce = random_nonce();
    let sealed = match aead_seal(&key, &nonce, plaintext.as_bytes()) {
        Some(c) => c,
        None => {
            return Err(CryptoError::Encryption);
        },
    };
    let mut packed = nonce.clone();
    let ghost n = nonce@;
    let mut c2 = sealed;
    packed.append(&mut c2);
    assert(packed@ =~= n + spec_aead_seal(derived_key(master_key@), n, encode_utf8(plaintext@)));
    let encoded = base64_standard(&packed);
    let mut out = "$v1$".to_owned();
    push_str(&mut out, encoded.as_str());
    assert(out@ == sealed_text(plaintext@, master_key@, n));
    Ok(out)
}

/// Decrypts a `$v1$` value under `master_key`; other values are plaintext and come back
/// as they are.  What encryption under the same key produced always decrypts to its
/// plaintext.
pub fn decrypt_with_key(value: &str, master_key: &str) -> (r: Result<String, CryptoError>)
    ensures
        result_view(r) == spec_decrypt_with_key(value@, master_key@),
        forall|p: Seq<char>, nonce: Seq<u8>|
            nonce.len() == 24 && encryptable(p) && value@ == #[trigger] sealed_text(p, master_key@, nonce)
                ==> result_view(r) == Ok::<Seq<char>, CryptoError>(p),
{
    let v = chars_of(value);
    proof {
        reveal_strlit("$v1$");
    }
    if !str_starts_with(value, "$v1$") {
        proof {
            assert forall|p: Seq<char>, nonce: Seq<u8>|
                nonce.len() == 24 && encryptable(p) && value@ == #[trigger] sealed_text(p, master_key@, nonce)
                implies false by {
                assert(value@.subrange(0, 4) =~= prefix_v1());
            }
        }
        return Ok(string_from(&v));
    }
    let encoded = string_from(&slice_of(&v, 4, v.len()));
    assert(encoded@ =~= value@.skip(4));
    let key = derive_key(master_key);
    let packed = match base64_decode(encoded.as_str()) {
        Some(p) => p,
        None => {
            proof { lemma_sealed_parts(value@, master_key@); }
            return Err(CryptoError::Base64);
        },
    };
    if packed.len() < 24 {
        proof { lemma_sealed_parts(value@, master_key@); }
        return Err(CryptoError::TooShort);
    }
    let nonce = crate::text::bytes_slice(&packed, 0, 24);
    let ct = crate::text::bytes_slice(&packed, 24, packed.len());
    assert(nonce@ =~= packed@.take(24));
    assert(ct@ =~= packed@.skip(24));
    let pt = match aead_open(&key, &nonce, &ct) {
        Some(p) => p,
        None => {
            proof { lemma_sealed_parts(value@, master_key@); }
            return Err(CryptoError::Decryption);
        },
    };
    let ghost ptv = pt@;
    match string_from_utf8(pt) {
        Some(s) => {
            proof {
                lemma_sealed_parts(value@, master_key@);
                assert forall|p: Seq<char>, nonce: Seq<u8>|
                    nonce.len() == 24 && encryptable(p) && value@ == #[trigger] sealed_text(p, master_key@, nonce)
                    implies s@ == p by {
                    vstd::utf8::encode_utf8_decode_utf8(p);
                }
            }
            Ok(s)
        },
        None => {
            proof {
                lemma_sealed_parts(value@, master_key@);
                assert forall|p: Seq<char>, nonce: Seq<u8>|
                    nonce.len() == 24 && encryptable(p) && value@ == #[trigger] sealed_text(p, master_key@, nonce)
                    implies false by {
                    vstd::utf8::encode_utf8_valid_utf8(p);
                }
            }
            Err(CryptoError::Utf8)
        },
    }
}

/// What a sealed text is made of, for reading it back.
proof fn lemma_sealed_parts(value: Seq<char>, master_key: Seq<char>)
    ensures
        forall|p: Seq<char>, nonce: Seq<u8>|
            nonce.len() == 24 && value == #[trigger] sealed_text(p, master_key, nonce) ==> {
                let packed = nonce + spec_aead_seal(derived_key(master_key), nonce, encode_utf8(p));
                &&& value.skip(4) == spec_base64_standard(packed)
                &&& packed.len() >= 24
                &&& packed.take(24) == nonce
                &&& packed.skip(24) == spec_aead_seal(derived_key(master_key), nonce, encode_utf8(p))
            },
{
    reveal_strlit("$v1$");
    assert forall|p: Seq<char>, nonce: Seq<u8>|
        nonce.len() == 24 && value == #[trigger] sealed_text(p, master_key, nonce) implies {
            let packed = nonce + spec_aead_seal(derived_key(master_key), nonce, encode_utf8(p));
            &&& value.skip(4) == spec_base64_standard(packed)
            &&& packed.len() >= 24
            &&& packed.take(24) == nonce
            &&& packed.skip(24) == spec_aead_seal(derived_key(master_key), nonce, encode_utf8(p))
        } by {
        let packed = nonce + spec_aead_seal(derived_key(master_key), nonce, encode_utf8(p));
        assert(value.skip(4) =~= spec_base64_standard(packed));
        assert(packed.take(24) =~= nonce);
        assert(packed.skip(24) =~= spec_aead_seal(derived_key(master_key), nonce, encode_utf8(p)));
    }
}

/// Encrypts `plaintext` when a master key is configured (`DB_ENCRYPTION_KEY`, given
/// here); with a blank key the plaintext is stored as it is.
pub fn encrypt(plaintext: &str, master_key: &str) -> (r: Result<String, CryptoError>)
    ensures
        trim(master_key@).len() == 0 ==> (r matches Ok(s) && s@ == plaintext@),
        trim(master_key@).len() > 0 ==> (encryptable(plaintext@) <==> r is Ok),
        trim(master_key@).len() > 0 ==> (r matches Ok(c) ==> exists|nonce: Seq<u8>|
            nonce.len() == 24 && c@ == sealed_text(plaintext@, master_key@, nonce)),
        r matches Err(e) ==> e == CryptoError::Encryption,
{
    if trim_chars(&chars_of(master_key)).len() == 0 {
        return Ok(plaintext.to_owned());
    }
    encrypt_with_key(plaintext, master_key)
}

/// Decrypts `value` when it carries the `$v1$` prefix, under the configured master key
/// (given here); a prefixed value with a blank key is an error, and a value without
/// the prefix comes back as it is.
pub fn decrypt(value: &str, master_key: &str) -> (r: Result<String, CryptoError>)
    ensures
        !starts_with(value@, prefix_v1()) ==> result_view(r) == Ok::<Seq<char>, CryptoError>(value@),
        starts_with(value@, prefix_v1()) && trim(master_key@).len() == 0 ==> (r matches Err(e) && e
            == CryptoError::MissingKey),
        starts_with(value@, prefix_v1()) && trim(master_key@).len() > 0 ==> result_view(r)
            == spec_decrypt_with_key(value@, master_key@),
{
    if !str_starts_with(value, "$v1$") {
        return Ok(value.to_owned());
    }
    if trim_chars(&chars_of(master_key)).len() == 0 {
        return Err(CryptoError::MissingKey);
    }
    decrypt_with_key(value, master_key)
}

} // verus!
