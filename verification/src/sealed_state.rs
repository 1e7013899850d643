//! The on-disk format of the state file: a fresh 12-byte nonce followed by the
//! AES-256-GCM encryption, under a key built into the client, of the state's
//! JSON text.
use aes_gcm::aead::{Aead, KeyInit};
use aes_gcm::{Aes256Gcm, Nonce};
use rand::Rng;
use vstd::prelude::*;
use vstd::string::StringExecFns;
use vstd::slice::slice_subrange;
use vstd::utf8::{decode_utf8, encode_utf8, valid_utf8};

verus! {

broadcast use {vstd::utf8::encode_utf8_valid_utf8, vstd::utf8::encode_utf8_decode_utf8};

/// The key that seals the state file: the ASCII text
/// `exam_state_encryption_key_v_2026`.
pub const STATE_ENCRYPTION_KEY: [u8; 32] = [
    101u8, 120, 97, 109, 95, 115, 116, 97, 116, 101, 95, 101, 110, 99, 114, 121,
    112, 116, 105, 111, 110, 95, 107, 101, 121, 95, 118, 95, 50, 48, 50, 54,
];

/// Length of the nonce that opens a sealed state file.
pub const STATE_NONCE_LEN: usize = 12;

/// Length of the authentication tag that AES-GCM appends to a ciphertext.
pub const AEAD_TAG_LEN: usize = 16;

/// The longest plaintext, in bytes, that AES-GCM accepts (2^36).
pub const AES_GCM_MAX_PLAINTEXT: u64 = 0x10_0000_0000;

#[verifier::external_type_specification]
#[verifier::external_body]
pub struct ExAeadError(aes_gcm::Error);

/// What AES-256-GCM (no associated data) produces for a key, a 12-byte nonce
/// and a plaintext: the ciphertext followed by the tag.
pub uninterp spec fn aes256gcm_seal(key: Seq<u8>, nonce: Seq<u8>, plaintext: Seq<u8>) -> Seq<u8>;

/// What AES-256-GCM (no associated data) recovers from a key, a 12-byte nonce
/// and a ciphertext with its tag: the plaintext, or nothing when the tag does
/// not authenticate.
pub uninterp spec fn aes256gcm_open(key: Seq<u8>, nonce: Seq<u8>, ciphertext: Seq<u8>) -> Option<Seq<u8>>;

/// Calls `Aead::encrypt` of an `aes_gcm::Aes256Gcm` built from `key` by
/// `KeyInit::new` (the nonce and plaintext are passed as they are). Trusted:
/// it fails exactly when the plaintext exceeds 2^36 bytes (the check in
/// `encrypt_in_place_detached`), its output is the plaintext's length plus the
/// 16-byte tag, and decrypting that output under the same key and nonce gives
/// the plaintext back.
#[verifier::external_body]
fn aes256gcm_encrypt(key: &[u8; 32], nonce: &[u8; 12], plaintext: &[u8]) -> (r: Result<Vec<u8>, aes_gcm::Error>)
    ensures
        r is Ok <==> plaintext@.len() <= AES_GCM_MAX_PLAINTEXT,
        r matches Ok(c) ==> c@ == aes256gcm_seal(key@, nonce@, plaintext@),
        r matches Ok(c) ==> c@.len() == plaintext@.len() + AEAD_TAG_LEN,
        r matches Ok(c) ==> aes256gcm_open(key@, nonce@, c@) == Some(plaintext@),
{
    Aes256Gcm::new(key.into()).encrypt(Nonce::from_slice(nonce), plaintext)
}

/// Calls `Aead::decrypt` of an `aes_gcm::Aes256Gcm` built from `key` by
/// `KeyInit::new`; `Nonce::from_slice` needs 12 bytes. Trusted:
/// its outcome is `aes256gcm_open` of its arguments; an input shorter than the
/// tag is refused, and a recovered plaintext is the input less the tag.
#[verifier::external_body]
fn aes256gcm_decrypt(key: &[u8; 32], nonce: &[u8], ciphertext: &[u8]) -> (r: Result<Vec<u8>, aes_gcm::Error>)
    requires
        nonce@.len() == STATE_NONCE_LEN,
    ensures
        match r {
            Ok(p) => aes256gcm_open(key@, nonce@, ciphertext@) == Some(p@),
            Err(_) => aes256gcm_open(key@, nonce@, ciphertext@) is None,
        },
        ciphertext@.len() < AEAD_TAG_LEN ==> r is Err,
        r matches Ok(p) ==> p@.len() + AEAD_TAG_LEN == ciphertext@.len(),
{
    Aes256Gcm::new(key.into()).decrypt(Nonce::from_slice(nonce), ciphertext)
}

/// The text of `aes_gcm::Error`'s `Display`, which writes `aead::Error`.
#[verifier::external_body]
fn aead_error_text(e: &aes_gcm::Error) -> (s: String)
    ensures
        s@ == "aead::Error"@,
{
    format!("{}", e)
}

/// Draws a nonce from `rand::thread_rng()`. Nothing is known of its value.
#[verifier::external_body]
fn fresh_nonce() -> (n: [u8; 12]) {
    rand::thread_rng().gen()
}

/// The text that `String::from_utf8` reports, through its error's `Display`,
/// for bytes that are not UTF-8 (it is a function of the bytes).
pub uninterp spec fn utf8_error_message(bytes: Seq<u8>) -> Seq<char>;

/// Calls `String::from_utf8`, which succeeds exactly on valid UTF-8 and then
/// holds the decoded characters; on failure its error is handed back as its
/// `Display` text, named `utf8_error_message` of the bytes.
#[verifier::external_body]
fn string_from_utf8(bytes: Vec<u8>) -> (r: Result<String, String>)
    ensures
        r is Ok <==> valid_utf8(bytes@),
        r matches Ok(s) ==> s@ == decode_utf8(bytes@),
        r matches Err(t) ==> t@ == utf8_error_message(bytes@),
{
    match String::from_utf8(bytes) {
        Ok(s) => Ok(s),
        Err(e) => Err(format!("{}", e)),
    }
}

/// Why a state file could not be sealed or opened.
#[derive(Debug)]
pub enum StateFileError {
    /// AES-GCM refused to encrypt; holds the cipher's error text.
    EncryptFailed(String),
    /// The data is shorter than a nonce.
    TooShort,
    /// The tag did not authenticate (wrong key, damaged or forged data);
    /// holds the cipher's error text.
    DecryptFailed(String),
    /// The decrypted bytes are not UTF-8; holds the conversion's error text.
    InvalidUtf8(String),
}

impl StateFileError {
    /// The message logged for this error.
    pub fn message(&self) -> (r: String)
        ensures
            r@ == match self {
                StateFileError::EncryptFailed(t) => "加密失败: "@ + t@,
                StateFileError::TooShort => "加密数据格式错误"@,
                StateFileError::DecryptFailed(t) => "解密失败: "@ + t@,
                StateFileError::InvalidUtf8(t) => t@,
            },
    {
        match self {
            StateFileError::EncryptFailed(t) => {
                let mut m = String::from_str("加密失败: ");
                m.append(t.as_str());
                m
            },
            StateFileError::TooShort => String::from_str("加密数据格式错误"),
            StateFileError::DecryptFailed(t) => {
                let mut m = String::from_str("解密失败: ");
                m.append(t.as_str());
                m
            },
            StateFileError::InvalidUtf8(t) => t.clone(),
        }
    }
}

/// The nonce part of a sealed state file.
pub open spec fn sealed_nonce(data: Seq<u8>) -> Seq<u8> {
    data.subrange(0, STATE_NONCE_LEN as int)
}

/// The ciphertext part (with its tag) of a sealed state file.
pub open spec fn sealed_ciphertext(data: Seq<u8>) -> Seq<u8> {
    data.subrange(STATE_NONCE_LEN as int, data.len() as int)
}

/// The plaintext bytes a sealed state file authenticates to, if any.
pub open spec fn opened_bytes(data: Seq<u8>) -> Option<Seq<u8>> {
    if data.len() < STATE_NONCE_LEN {
        None
    } else {
        aes256gcm_open(STATE_ENCRYPTION_KEY@, sealed_nonce(data), sealed_ciphertext(data))
    }
}

/// The state text that a sealed state file holds, if it opens and is UTF-8.
pub open spec fn opened_state_text(data: Seq<u8>) -> Option<Seq<char>> {
    match opened_bytes(data) {
        Some(p) => if valid_utf8(p) { Some(decode_utf8(p)) } else { None },
        None => None,
    }
}

/// Seals the state's JSON text: a fresh nonce followed by the AES-256-GCM
/// encryption of the text's UTF-8 bytes. What comes out opens to the same text.
pub fn encrypt_state_file(json: &str) -> (r: Result<Vec<u8>, StateFileError>)
    ensures
        r is Ok <==> encode_utf8(json@).len() <= AES_GCM_MAX_PLAINTEXT,
        r matches Err(e) ==> e matches StateFileError::EncryptFailed(t) && t@ == "aead::Error"@,
        r matches Ok(data) ==> {
            &&& data@.len() == STATE_NONCE_LEN + encode_utf8(json@).len() + AEAD_TAG_LEN
            &&& sealed_ciphertext(data@) == aes256gcm_seal(
                STATE_ENCRYPTION_KEY@,
                sealed_nonce(data@),
                encode_utf8(json@),
            )
        },
        r matches Ok(data) ==> opened_state_text(data@) == Some(json@),
{
    let key = STATE_ENCRYPTION_KEY;
    let nonce = fresh_nonce();
    let bytes = json.as_bytes();
    match aes256gcm_encrypt(&key, &nonce, bytes) {
        Ok(ciphertext) => {
            let mut out: Vec<u8> = Vec::new();
            out.extend_from_slice(nonce.as_slice());
            out.extend_from_slice(ciphertext.as_slice());
            proof {
                assert(out@ =~= nonce@ + ciphertext@);
                assert(sealed_nonce(out@) =~= nonce@);
                assert(sealed_ciphertext(out@) =~= ciphertext@);
            }
            Ok(out)
        },
        Err(e) => Err(StateFileError::EncryptFailed(aead_error_text(&e))),
    }
}

/// Opens a sealed state file and returns the state's JSON text.
pub fn decrypt_state_file(data: &[u8]) -> (r: Result<String, StateFileError>)
    ensures
        r is Ok <==> opened_state_text(data@) is Some,
        r matches Ok(s) ==> opened_state_text(data@) == Some(s@),
        r matches Err(e) ==> match e {
            StateFileError::TooShort => data@.len() < STATE_NONCE_LEN,
            StateFileError::DecryptFailed(t) => data@.len() >= STATE_NONCE_LEN
                && opened_bytes(data@) is None && t@ == "aead::Error"@,
            StateFileError::InvalidUtf8(t) => opened_bytes(data@) matches Some(p) && !valid_utf8(p)
                && t@ == utf8_error_message(p),
            StateFileError::EncryptFailed(_) => false,
        },
        STATE_NONCE_LEN <= data@.len() < STATE_NONCE_LEN + AEAD_TAG_LEN
            ==> r matches Err(StateFileError::DecryptFailed(_)),
{
    if data.len() < STATE_NONCE_LEN {
        return Err(StateFileError::TooShort);
    }
    let key = STATE_ENCRYPTION_KEY;
    let nonce = slice_subrange(data, 0, STATE_NONCE_LEN);
    let ciphertext = slice_subrange(data, STATE_NONCE_LEN, data.len());
    match aes256gcm_decrypt(&key, nonce, ciphertext) {
        Ok(plaintext) => {
            match string_from_utf8(plaintext) {
                Ok(text) => Ok(text),
                Err(t) => Err(StateFileError::InvalidUtf8(t)),
            }
        },
        Err(e) => Err(StateFileError::DecryptFailed(aead_error_text(&e))),
    }
}

/// A state file is read as its first 12 bytes (the nonce) followed by the
/// rest (ciphertext and tag): data made as a nonce followed by a ciphertext
/// opens as AES-256-GCM would open that ciphertext under that nonce and the
/// built-in key; anything shorter than a nonce opens to nothing.
pub proof fn lemma_file_is_nonce_then_ciphertext(nonce: Seq<u8>, ciphertext: Seq<u8>, data: Seq<u8>)
    ensures
        nonce.len() == 12 ==> opened_bytes(nonce + ciphertext) == aes256gcm_open(
            STATE_ENCRYPTION_KEY@,
            nonce,
            ciphertext,
        ),
        data.len() < 12 ==> opened_bytes(data) is None,
        opened_bytes(data) matches Some(p) ==> (valid_utf8(p) <==> opened_state_text(data) == Some(decode_utf8(p))),
        opened_bytes(data) is None ==> opened_state_text(data) is None,
{
    if nonce.len() == 12 {
        assert((nonce + ciphertext).subrange(0, 12) =~= nonce);
        assert((nonce + ciphertext).subrange(12, (nonce + ciphertext).len() as int) =~= ciphertext);
    }
}

} // verus!
