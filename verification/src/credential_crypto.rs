//! The encrypted local credential cache: the key derived for one data
//! folder, and the record that holds an encrypted secret (a random nonce
//! and the XChaCha20-Poly1305 ciphertext, each written as a little-endian
//! 64-bit length and its bytes). Reading and writing the files, and the
//! environment the key is derived from, stay with the caller.

use vstd::prelude::*;
use crate::bytes::{copy_range, extend_range};
use crate::transfer_store::le_value;
use chacha20poly1305::aead::{Aead, KeyInit, Payload};
use rand_core::RngCore;
use sha2::Digest;

verus! {

pub const ENCRYPTED_CREDENTIAL_KEY_LEN: usize = 32;
pub const ENCRYPTED_CREDENTIAL_NONCE_LEN: usize = 24;
pub const CREDENTIAL_SERVICE_NAME: &'static str = "mica-term";
pub const CREDENTIAL_CACHE_AAD: &'static str = "mica-term-credential-cache";

// ---------------------------------------------------------------------------
// The outside primitives
// ---------------------------------------------------------------------------

/// The SHA-256 digest of a byte sequence.
pub uninterp spec fn sha256_digest(bytes: Seq<u8>) -> Seq<u8>;

/// `sha2::Sha256::digest`. Its result is named by `sha256_digest`; a digest
/// is 32 bytes long.
#[verifier::external_body]
fn sha256(bytes: &[u8]) -> (r: [u8; 32])
    ensures
        r@ == sha256_digest(bytes@),
{
    sha2::Sha256::digest(bytes).into()
}

/// `rand_core::OsRng::fill_bytes` on a fresh nonce: 24 random bytes. Nothing
/// is promised of them; the call panics only when the system has no random
/// source to offer.
#[verifier::external_body]
fn random_nonce() -> (r: [u8; 24]) {
    let mut nonce = [0u8; 24];
    rand_core::OsRng.fill_bytes(&mut nonce);
    nonce
}

/// What XChaCha20-Poly1305 makes of a message under a key, a nonce and
/// associated data: the ciphertext with its tag, or nothing when it refuses.
pub uninterp spec fn xchacha_sealed(key: Seq<u8>, nonce: Seq<u8>, aad: Seq<u8>, msg: Seq<u8>) -> Option<Seq<u8>>;

/// What XChaCha20-Poly1305 finds in a ciphertext under a key, a nonce and
/// associated data: the message, or nothing when the ciphertext does not
/// authenticate.
pub uninterp spec fn xchacha_opened(key: Seq<u8>, nonce: Seq<u8>, aad: Seq<u8>, ciphertext: Seq<u8>) -> Option<Seq<u8>>;

pub open spec fn opt_bytes(o: Option<Vec<u8>>) -> Option<Seq<u8>> {
    match o {
        Some(v) => Some(v@),
        None => None,
    }
}

/// `XChaCha20Poly1305::encrypt` (crate `chacha20poly1305`). Its result is
/// named by `xchacha_sealed`. As the crate's source shows, it refuses only a
/// message of 2^32 blocks of 64 bytes or more, and the ciphertext is the
/// message's length plus a 16-byte tag.
#[verifier::external_body]
fn xchacha_seal(key: &[u8; 32], nonce: &[u8; 24], aad: &[u8], msg: &[u8]) -> (r: Option<Vec<u8>>)
    ensures
        opt_bytes(r) == xchacha_sealed(key@, nonce@, aad@, msg@),
        r is Some <==> msg@.len() / 64 < 0xffff_ffff,
        r matches Some(c) ==> c@.len() == msg@.len() + 16,
{
    let cipher = chacha20poly1305::XChaCha20Poly1305::new(key.into());
    cipher.encrypt(nonce.into(), Payload { msg, aad }).ok()
}

/// `XChaCha20Poly1305::decrypt` (crate `chacha20poly1305`). Its result is
/// named by `xchacha_opened`. As the construction in the crate's source
/// shows (the message is the ciphertext with the same key stream taken off,
/// accepted only when the tag over the ciphertext matches), what opens seals
/// back to the same ciphertext, and every ciphertext that some message seals
/// to opens.
#[verifier::external_body]
fn xchacha_open(key: &[u8; 32], nonce: &[u8; 24], aad: &[u8], ciphertext: &[u8]) -> (r: Option<Vec<u8>>)
    ensures
        opt_bytes(r) == xchacha_opened(key@, nonce@, aad@, ciphertext@),
        r matches Some(p) ==> xchacha_sealed(key@, nonce@, aad@, p@) == Some(ciphertext@),
        r is None ==> forall|m: Seq<u8>| xchacha_sealed(key@, nonce@, aad@, m) != Some(ciphertext@),
{
    let cipher = chacha20poly1305::XChaCha20Poly1305::new(key.into());
    cipher.decrypt(nonce.into(), Payload { msg: ciphertext, aad }).ok()
}

// ---------------------------------------------------------------------------
// The key
// ---------------------------------------------------------------------------

pub open spec fn text_bytes(s: Seq<char>) -> Seq<u8> {
    vstd::utf8::encode_utf8(s)
}

pub open spec fn opt_text_bytes(s: Option<&str>) -> Seq<u8> {
    match s {
        Some(t) => text_bytes(t@),
        None => Seq::empty(),
    }
}

/// What the key of a data folder is derived from: the service name, the
/// folder, and the user and host names when the environment gives them.
pub open spec fn key_material(root_dir: Seq<char>, user: Option<&str>, host: Option<&str>) -> Seq<u8> {
    text_bytes(CREDENTIAL_SERVICE_NAME@) + text_bytes(root_dir) + opt_text_bytes(user) + opt_text_bytes(host)
}

fn append_text(out: &mut Vec<u8>, s: &str)
    ensures
        final(out)@ == old(out)@ + text_bytes(s@),
{
    let b = s.as_bytes();
    extend_range(out, b, 0, b.len());
    assert(b@.subrange(0, b@.len() as int) =~= b@);
}

/// The key that encrypts the credential cache kept in `root_dir`, for the
/// given user and host names.
pub fn derive_local_encryption_key(root_dir: &str, user: Option<&str>, host: Option<&str>) -> (r: [u8; 32])
    ensures
        r@ == sha256_digest(key_material(root_dir@, user, host)),
{
    let mut material: Vec<u8> = Vec::new();
    append_text(&mut material, CREDENTIAL_SERVICE_NAME);
    append_text(&mut material, root_dir);
    match user {
        Some(u) => append_text(&mut material, u),
        None => {},
    }
    let ghost after_user = material@;
    match host {
        Some(h) => append_text(&mut material, h),
        None => {},
    }
    proof {
        assert(after_user + opt_text_bytes(host) =~= material@);
    }
    assert(material@ =~= key_material(root_dir@, user, host));
    sha256(material.as_slice())
}

// ---------------------------------------------------------------------------
// The record
// ---------------------------------------------------------------------------

/// `n` as eight little-endian bytes.
pub open spec fn le64(b: Seq<u8>, n: nat) -> bool {
    b.len() == 8 && le_value(b) == n
}

/// A byte string as the record writes it: its length, then its bytes.
pub open spec fn framed(lenb: Seq<u8>, bytes: Seq<u8>) -> bool {
    le64(lenb, bytes.len())
}

/// The record of `nonce` and `ciphertext`, as eight length bytes before each.
pub open spec fn is_record(record: Seq<u8>, nonce: Seq<u8>, ciphertext: Seq<u8>) -> bool {
    &&& record.len() == 16 + nonce.len() + ciphertext.len()
    &&& framed(record.take(8), nonce)
    &&& record.subrange(8, 8 + nonce.len() as int) == nonce
    &&& framed(record.subrange(8 + nonce.len() as int, 16 + nonce.len() as int), ciphertext)
    &&& record.skip(16 + nonce.len() as int) == ciphertext
}

/// Writes the record of `nonce` and `ciphertext`.
pub fn encode_credential_record(nonce: &[u8], ciphertext: &[u8]) -> (r: Vec<u8>)
    ensures
        is_record(r@, nonce@, ciphertext@),
{
    let mut out = crate::transfer_store::encode_schema_version(nonce.len() as u64);
    let ghost first = out@;
    extend_range(&mut out, nonce, 0, nonce.len());
    let ghost after_nonce = out@;
    let second = crate::transfer_store::encode_schema_version(ciphertext.len() as u64);
    extend_range(&mut out, second.as_slice(), 0, 8);
    extend_range(&mut out, ciphertext, 0, ciphertext.len());
    proof {
        assert(nonce@.subrange(0, nonce@.len() as int) =~= nonce@);
        assert(second@.subrange(0, 8) =~= second@);
        assert(ciphertext@.subrange(0, ciphertext@.len() as int) =~= ciphertext@);
        let n = nonce@.len() as int;
        assert(out@.take(8) =~= first);
        assert(le_value(out@.take(8)) == nonce@.len());
        assert(out@.subrange(8, 8 + n) =~= nonce@);
        assert(out@.subrange(8 + n, 16 + n) =~= second@);
        assert(le_value(second@) == ciphertext@.len());
        assert(out@.skip(16 + n) =~= ciphertext@);
    }
    out
}

/// Reads a little-endian 64-bit length at `at`, if it fits in `usize`.
fn read_len(bytes: &[u8], at: usize) -> (r: Option<usize>)
    requires
        at + 8 <= bytes@.len(),
    ensures
        match r {
            Some(n) => n == le_value(bytes@.subrange(at as int, at + 8)),
            None => le_value(bytes@.subrange(at as int, at + 8)) > usize::MAX,
        },
{
    assert(bytes.len() == bytes@.len());
    let field = copy_range(bytes, at, at + 8);
    match crate::transfer_store::decode_schema_version(field.as_slice()) {
        Ok(v) => {
            if v as u128 > usize::MAX as u128 {
                None
            } else {
                Some(v as usize)
            }
        },
        Err(_) => None,
    }
}

/// Where the record at the front of `bytes` ends, when one is there.
pub open spec fn record_prefix(bytes: Seq<u8>) -> Option<(Seq<u8>, Seq<u8>)> {
    if bytes.len() < 8 {
        None
    } else {
        let n = le_value(bytes.take(8));
        if n > usize::MAX || 8 + n + 8 > bytes.len() {
            None
        } else {
            let m = le_value(bytes.subrange(8 + n as int, 16 + n as int));
            if m > usize::MAX || 16 + n + m > bytes.len() {
                None
            } else {
                Some((bytes.subrange(8, 8 + n as int), bytes.subrange(16 + n as int, 16 + n + m as int)))
            }
        }
    }
}

/// Reads a record: its nonce and its ciphertext. What follows the record is ignored.
pub fn decode_credential_record(bytes: &[u8]) -> (r: Option<(Vec<u8>, Vec<u8>)>)
    ensures
        match record_prefix(bytes@) {
            Some((n, c)) => r matches Some((a, b)) && a@ == n && b@ == c,
            None => r is None,
        },
{
    if bytes.len() < 8 {
        return None;
    }
    assert(bytes@.subrange(0, 8) =~= bytes@.take(8));
    let n = read_len(bytes, 0)?;
    if bytes.len() - 8 < n || bytes.len() - 8 - n < 8 {
        return None;
    }
    let m = read_len(bytes, 8 + n)?;
    if bytes.len() - 16 - n < m {
        return None;
    }
    let nonce = copy_range(bytes, 8, 8 + n);
    let ciphertext = copy_range(bytes, 16 + n, 16 + n + m);
    Some((nonce, ciphertext))
}

/// A record reads back as the nonce and the ciphertext it was written with.
pub proof fn lemma_credential_record_round_trip(record: Seq<u8>, nonce: Seq<u8>, ciphertext: Seq<u8>)
    requires
        is_record(record, nonce, ciphertext),
        nonce.len() <= usize::MAX,
        ciphertext.len() <= usize::MAX,
    ensures
        record_prefix(record) == Some((nonce, ciphertext)),
{
    let n = nonce.len() as int;
    assert(record.subrange(8, 8 + n) == nonce);
    assert(record.subrange(16 + n, 16 + n + ciphertext.len()) =~= record.skip(16 + n));
}

// ---------------------------------------------------------------------------
// Encrypting and decrypting a secret
// ---------------------------------------------------------------------------

#[derive(Debug, Clone, PartialEq, Eq)]
pub enum CredentialCryptoError {
    EncryptFailed,
    DecodeFailed,
    InvalidNonceLength,
    DecryptFailed,
}

impl CredentialCryptoError {
    pub open spec fn message_spec(&self) -> Seq<char> {
        match self {
            CredentialCryptoError::EncryptFailed => "failed to encrypt credential payload"@,
            CredentialCryptoError::DecodeFailed => "failed to decode encrypted credential payload"@,
            CredentialCryptoError::InvalidNonceLength => "invalid encrypted credential nonce length"@,
            CredentialCryptoError::DecryptFailed => "failed to decrypt credential payload"@,
        }
    }

    pub fn message(&self) -> (r: &'static str)
        ensures
            r@ == self.message_spec(),
    {
        match self {
            CredentialCryptoError::EncryptFailed => "failed to encrypt credential payload",
            CredentialCryptoError::DecodeFailed => "failed to decode encrypted credential payload",
            CredentialCryptoError::InvalidNonceLength => "invalid encrypted credential nonce length",
            CredentialCryptoError::DecryptFailed => "failed to decrypt credential payload",
        }
    }
}

pub open spec fn aad_bytes() -> Seq<u8> {
    text_bytes(CREDENTIAL_CACHE_AAD@)
}

/// The record holding `plaintext` encrypted under `key` with `nonce`.
pub fn seal_credential_bytes(plaintext: &[u8], key: &[u8; 32], nonce: &[u8; 24]) -> (r: Result<Vec<u8>, CredentialCryptoError>)
    ensures
        match xchacha_sealed(key@, nonce@, aad_bytes(), plaintext@) {
            Some(c) => r matches Ok(rec) && is_record(rec@, nonce@, c),
            None => r == Err::<Vec<u8>, CredentialCryptoError>(CredentialCryptoError::EncryptFailed),
        },
        r is Ok <==> plaintext@.len() / 64 < 0xffff_ffff,
{
    let aad = CREDENTIAL_CACHE_AAD.as_bytes();
    match xchacha_seal(key, nonce, aad, plaintext) {
        Some(ciphertext) => Ok(encode_credential_record(nonce, ciphertext.as_slice())),
        None => Err(CredentialCryptoError::EncryptFailed),
    }
}

/// `plaintext` encrypted under `key` with a fresh random nonce, as a record.
pub fn encrypt_local_credential_bytes(plaintext: &[u8], key: &[u8; 32]) -> (r: Result<Vec<u8>, CredentialCryptoError>)
    ensures
        exists|nonce: Seq<u8>| nonce.len() == 24 && match xchacha_sealed(key@, nonce, aad_bytes(), plaintext@) {
            Some(c) => r matches Ok(rec) && is_record(rec@, nonce, c),
            None => r == Err::<Vec<u8>, CredentialCryptoError>(CredentialCryptoError::EncryptFailed),
        },
        r is Ok <==> plaintext@.len() / 64 < 0xffff_ffff,
{
    let nonce = random_nonce();
    let r = seal_credential_bytes(plaintext, key, &nonce);
    assert(nonce@.len() == 24);
    r
}

/// The secret in a record, decrypted under `key`.
pub fn decrypt_local_credential_bytes(encoded: &[u8], key: &[u8; 32]) -> (r: Result<Vec<u8>, CredentialCryptoError>)
    ensures
        match record_prefix(encoded@) {
            None => r == Err::<Vec<u8>, CredentialCryptoError>(CredentialCryptoError::DecodeFailed),
            Some((nonce, c)) => if nonce.len() != 24 {
                r == Err::<Vec<u8>, CredentialCryptoError>(CredentialCryptoError::InvalidNonceLength)
            } else {
                match xchacha_opened(key@, nonce, aad_bytes(), c) {
                    Some(p) => r matches Ok(v) && v@ == p,
                    None => r == Err::<Vec<u8>, CredentialCryptoError>(CredentialCryptoError::DecryptFailed),
                }
            },
        },
        forall|nonce: Seq<u8>, c: Seq<u8>, m: Seq<u8>|
            #![trigger is_record(encoded@, nonce, c), xchacha_sealed(key@, nonce, aad_bytes(), m)]
            is_record(encoded@, nonce, c) && nonce.len() == 24 && xchacha_sealed(key@, nonce, aad_bytes(), m) == Some(c)
                ==> (r matches Ok(p) && xchacha_sealed(key@, nonce, aad_bytes(), p@) == Some(c)),
{
    proof {
        assert(encoded.len() == encoded@.len());
        assert forall|n: Seq<u8>, c: Seq<u8>| #[trigger] is_record(encoded@, n, c)
            implies record_prefix(encoded@) == Some((n, c)) by {
            lemma_credential_record_round_trip(encoded@, n, c);
        }
    }
    let (nonce_bytes, ciphertext) = match decode_credential_record(encoded) {
        Some(parts) => parts,
        None => return Err(CredentialCryptoError::DecodeFailed),
    };
    if nonce_bytes.len() != 24 {
        return Err(CredentialCryptoError::InvalidNonceLength);
    }
    let nonce: [u8; 24] = [
        nonce_bytes[0], nonce_bytes[1], nonce_bytes[2], nonce_bytes[3], nonce_bytes[4], nonce_bytes[5],
        nonce_bytes[6], nonce_bytes[7], nonce_bytes[8], nonce_bytes[9], nonce_bytes[10], nonce_bytes[11],
        nonce_bytes[12], nonce_bytes[13], nonce_bytes[14], nonce_bytes[15], nonce_bytes[16], nonce_bytes[17],
        nonce_bytes[18], nonce_bytes[19], nonce_bytes[20], nonce_bytes[21], nonce_bytes[22], nonce_bytes[23],
    ];
    assert(nonce@ =~= nonce_bytes@);
    proof {
        assert forall|n: Seq<u8>, c: Seq<u8>, m: Seq<u8>|
            #![trigger is_record(encoded@, n, c), xchacha_sealed(key@, n, aad_bytes(), m)]
            is_record(encoded@, n, c) && n.len() == 24 && xchacha_sealed(key@, n, aad_bytes(), m) == Some(c)
            implies n == nonce_bytes@ && c == ciphertext@ by {
            lemma_credential_record_round_trip(encoded@, n, c);
        }
    }
    let aad = CREDENTIAL_CACHE_AAD.as_bytes();
    match xchacha_open(key, &nonce, aad, ciphertext.as_slice()) {
        Some(p) => Ok(p),
        None => Err(CredentialCryptoError::DecryptFailed),
    }
}

} // verus!
