//! Authenticated encryption of one text value.
//!
//! A protected value is the base64 text of a 12-byte nonce followed by the
//! AES-256-GCM ciphertext and its 16-byte tag. The empty string stands for
//! "no credential" and passes through both directions untouched.

use crate::key::derive_key;
use crate::key::MachineIdentity;
use aes_gcm::aead::Aead;
use aes_gcm::aead::KeyInit;
use aes_gcm::Aes256Gcm;
use aes_gcm::Key;
use aes_gcm::Nonce;
use base64::engine::general_purpose::STANDARD;
use base64::Engine;
use rand::Rng;
use vstd::prelude::*;
use vstd::slice::*;
use vstd::string::*;
use vstd::utf8::*;

verus! {

/// Number of bytes in a nonce.
pub const NONCE_SIZE: usize = 12;

/// Number of bytes in an authentication tag.
pub const TAG_SIZE: usize = 16;

/// The longest plaintext, in bytes, that AES-GCM accepts.
pub const MAX_PLAINTEXT_LEN: u64 = 68_719_476_736;

/// Why a value could not be protected or recovered. Where another crate
/// found the fault, its own words are kept as the cause.
#[derive(Debug, Clone, PartialEq, Eq)]
pub enum CodecError {
    /// The plaintext could not be encrypted or encoded; holds the cause.
    Encrypt(String),
    /// The text is not valid base64; holds the decoder's words.
    Decode(String),
    /// The decoded bytes are shorter than a nonce.
    Malformed,
    /// Authentication failed: wrong key, or the bytes were changed.
    Decrypt,
    /// The recovered bytes are not UTF-8 text; holds the converter's words.
    Encoding(String),
}

/// Why a value could not be protected or recovered, as plain values.
pub enum CodecFault {
    Encrypt(Seq<char>),
    Decode(Seq<char>),
    Malformed,
    Decrypt,
    Encoding(Seq<char>),
}

impl View for CodecError {
    type V = CodecFault;

    open spec fn view(&self) -> CodecFault {
        match *self {
            CodecError::Encrypt(cause) => CodecFault::Encrypt(cause@),
            CodecError::Decode(cause) => CodecFault::Decode(cause@),
            CodecError::Malformed => CodecFault::Malformed,
            CodecError::Decrypt => CodecFault::Decrypt,
            CodecError::Encoding(cause) => CodecFault::Encoding(cause@),
        }
    }
}

/// The error of the `aes-gcm` crate, which says nothing of the cause.
#[verifier::external_type_specification]
#[verifier::external_body]
pub struct ExAeadError(aes_gcm::Error);

/// The error of decoding with the `base64` crate.
#[verifier::external_type_specification]
#[verifier::external_body]
pub struct ExDecodeError(base64::DecodeError);

/// The error of `String::from_utf8`.
#[verifier::external_type_specification]
#[verifier::external_body]
pub struct ExFromUtf8Error(std::string::FromUtf8Error);

/// The ciphertext and tag that AES-256-GCM produces for a plaintext under a
/// 32-byte key and a 12-byte nonce, with no associated data.
pub uninterp spec fn aes256_gcm_sealed(key: Seq<u8>, nonce: Seq<u8>, plaintext: Seq<u8>) -> Seq<u8>;

/// The plaintext that AES-256-GCM recovers from ciphertext and tag under a
/// key and a nonce, or `None` when authentication fails.
pub uninterp spec fn aes256_gcm_opened(key: Seq<u8>, nonce: Seq<u8>, sealed: Seq<u8>) -> Option<
    Seq<u8>,
>;

/// The padded standard-alphabet base64 text of a byte string.
pub uninterp spec fn base64_text(bytes: Seq<u8>) -> Seq<char>;

/// The bytes that a padded standard-alphabet base64 text stands for, or the
/// words of the decoder's error when the text is not valid base64.
pub uninterp spec fn base64_bytes(text: Seq<char>) -> Result<Seq<u8>, Seq<char>>;

/// The words of a `base64::DecodeError`, as its `Display` writes them.
pub uninterp spec fn decode_error_message(error: base64::DecodeError) -> Seq<char>;

/// The words of the error that `String::from_utf8` gives for bytes that are
/// not valid UTF-8.
pub uninterp spec fn utf8_fault(bytes: Seq<u8>) -> Seq<char>;

/// The words of a `FromUtf8Error`, as its `Display` writes them.
pub uninterp spec fn utf8_error_message(error: std::string::FromUtf8Error) -> Seq<char>;

/// The words of the `aes-gcm` crate's error, which are always the same.
pub open spec fn aead_error_message() -> Seq<char> {
    "aead::Error"@
}

/// Length of the padded base64 text of `n` bytes.
pub open spec fn base64_len(n: nat) -> nat {
    if n % 3 == 0 {
        n / 3 * 4
    } else {
        n / 3 * 4 + 4
    }
}

/// Whether a character is one that padded standard base64 text is made of:
/// a letter, a digit, `+`, `/` or the padding `=`.
pub open spec fn is_base64_char(c: char) -> bool {
    let code = c as u32;
    ||| 0x41 <= code <= 0x5a
    ||| 0x61 <= code <= 0x7a
    ||| 0x30 <= code <= 0x39
    ||| c == '+'
    ||| c == '/'
    ||| c == '='
}

/// Whether a text is made of base64 characters alone.
pub open spec fn is_base64_text(text: Seq<char>) -> bool {
    forall|i: int| 0 <= i < text.len() ==> is_base64_char(#[trigger] text[i])
}

/// The outcome of a decoding that gives `bytes`.
pub open spec fn decoding(bytes: Seq<u8>) -> Result<Seq<u8>, Seq<char>> {
    Ok(bytes)
}

/// The outcome of a decoding that fails with the words `cause`.
pub open spec fn decoding_fault(cause: Seq<char>) -> Result<Seq<u8>, Seq<char>> {
    Err(cause)
}

/// Whether decoding `text` gives `bytes`.
pub open spec fn decodes_to(text: Seq<char>, bytes: Seq<u8>) -> bool {
    base64_bytes(text) == decoding(bytes)
}

/// Encrypts with `Aes256Gcm::encrypt` from the `aes-gcm` crate, the cipher
/// being made from the key by `Aes256Gcm::new`. The call fails exactly when
/// the plaintext is longer than the cipher's limit. On success the result is
/// the named ciphertext-and-tag, 16 bytes longer than the plaintext, and
/// opening it under the same key and nonce gives the plaintext back.
#[verifier::external_body]
fn aes256_gcm_encrypt(key: &[u8; 32], nonce: &[u8], plaintext: &[u8]) -> (r: Result<
    Vec<u8>,
    aes_gcm::Error,
>)
    requires
        nonce@.len() == NONCE_SIZE,
    ensures
        r is Ok <==> plaintext@.len() <= MAX_PLAINTEXT_LEN,
        r matches Ok(sealed) ==> {
            &&& sealed@ == aes256_gcm_sealed(key@, nonce@, plaintext@)
            &&& sealed@.len() == plaintext@.len() + TAG_SIZE
            &&& aes256_gcm_opened(key@, nonce@, sealed@) == Some(plaintext@)
        },
{
    Aes256Gcm::new(Key::<Aes256Gcm>::from_slice(key)).encrypt(Nonce::from_slice(nonce), plaintext)
}

/// Decrypts with `Aes256Gcm::decrypt` from the `aes-gcm` crate. The result
/// is the named outcome of opening: the plaintext, 16 bytes shorter than what
/// was given, or an error when the tag does not match.
#[verifier::external_body]
fn aes256_gcm_decrypt(key: &[u8; 32], nonce: &[u8], sealed: &[u8]) -> (r: Result<
    Vec<u8>,
    aes_gcm::Error,
>)
    requires
        nonce@.len() == NONCE_SIZE,
    ensures
        match r {
            Ok(plaintext) => {
                &&& aes256_gcm_opened(key@, nonce@, sealed@) == Some(plaintext@)
                &&& plaintext@.len() + TAG_SIZE == sealed@.len()
            },
            Err(_) => aes256_gcm_opened(key@, nonce@, sealed@) is None,
        },
{
    Aes256Gcm::new(Key::<Aes256Gcm>::from_slice(key)).decrypt(Nonce::from_slice(nonce), sealed)
}

/// The words of the `aes-gcm` crate's error, written by its `Display`, which
/// writes the same fixed text for every error.
#[verifier::external_body]
fn aead_error_text(error: &aes_gcm::Error) -> (text: String)
    ensures
        text@ == aead_error_message(),
{
    format!("{}", error)
}

/// Encodes with `Engine::encode` of `base64`'s `STANDARD` engine, which
/// panics only when the length of the text does not fit in `usize`. The
/// result is the named text, has the padded length, is made of characters of
/// the standard alphabet and the padding sign, and decodes back to the bytes
/// given.
#[verifier::external_body]
fn base64_encode(bytes: &[u8]) -> (text: String)
    requires
        bytes@.len() / 3 * 4 + 4 <= usize::MAX,
    ensures
        text@ == base64_text(bytes@),
        text@.len() == base64_len(bytes@.len()),
        is_base64_text(text@),
        base64_bytes(text@) == decoding(bytes@),
{
    STANDARD.encode(bytes)
}

/// Decodes with `Engine::decode` of `base64`'s `STANDARD` engine: the named
/// bytes, or the error whose words the name holds when the text is not valid
/// base64.
#[verifier::external_body]
fn base64_decode(text: &str) -> (r: Result<Vec<u8>, base64::DecodeError>)
    ensures
        match r {
            Ok(bytes) => base64_bytes(text@) == decoding(bytes@),
            Err(e) => base64_bytes(text@) == decoding_fault(decode_error_message(e)),
        },
{
    STANDARD.decode(text)
}

/// The words of a `base64::DecodeError`, written by its `Display`.
#[verifier::external_body]
fn decode_error_text(error: &base64::DecodeError) -> (text: String)
    ensures
        text@ == decode_error_message(*error),
{
    format!("{}", error)
}

/// Converts with `String::from_utf8`: the text that the bytes encode when
/// they are valid UTF-8; when they are not, the error whose words are named
/// for these bytes.
#[verifier::external_body]
fn text_from_utf8(bytes: Vec<u8>) -> (r: Result<String, std::string::FromUtf8Error>)
    ensures
        match r {
            Ok(text) => valid_utf8(bytes@) && text@ == decode_utf8(bytes@),
            Err(e) => !valid_utf8(bytes@) && utf8_error_message(e) == utf8_fault(bytes@),
        },
{
    String::from_utf8(bytes)
}

/// The words of a `FromUtf8Error`, written by its `Display`.
#[verifier::external_body]
fn utf8_error_text(error: &std::string::FromUtf8Error) -> (text: String)
    ensures
        text@ == utf8_error_message(*error),
{
    format!("{}", error)
}

/// Draws a nonce from `rand::rng()`, the thread-local generator seeded by
/// the operating system. Nothing is claimed of its bytes: that they differ
/// from call to call is the generator's promise, not a fact proved here.
#[verifier::external_body]
fn random_nonce() -> (nonce: [u8; 12]) {
    let mut nonce = [0u8; 12];
    rand::rng().fill(&mut nonce);
    nonce
}

/// The view of an outcome that carries text.
pub open spec fn text_outcome(r: Result<String, CodecError>) -> Result<Seq<char>, CodecFault> {
    match r {
        Ok(text) => Ok(text@),
        Err(e) => Err(e@),
    }
}

/// Whether nonce, ciphertext and tag for a plaintext of `n` bytes encode to a
/// text whose length fits in `usize`.
pub open spec fn encodable(n: nat) -> bool {
    (n + NONCE_SIZE + TAG_SIZE) / 3 * 4 + 4 <= usize::MAX
}

/// Whether a plaintext of `n` bytes can be sealed: the cipher accepts it and
/// the text of nonce, ciphertext and tag has a length that fits in `usize`.
pub open spec fn sealable(n: nat) -> bool {
    &&& n <= MAX_PLAINTEXT_LEN
    &&& encodable(n)
}

/// The cause given when the protected text would be too long to hold.
pub open spec fn too_long_to_encode() -> Seq<char> {
    "protected text too long to address"@
}

/// The bytes behind a protected text: the nonce, then the ciphertext and tag
/// of the plaintext's UTF-8 bytes.
pub open spec fn blob_of(key: Seq<u8>, nonce: Seq<u8>, plaintext: Seq<char>) -> Seq<u8> {
    nonce + aes256_gcm_sealed(key, nonce, encode_utf8(plaintext))
}

/// Number of bytes in the blob of a plaintext: nonce, ciphertext as long as
/// the plaintext's UTF-8 form, tag.
pub open spec fn blob_len(plaintext: Seq<char>) -> nat {
    (NONCE_SIZE + encode_utf8(plaintext).len() + TAG_SIZE) as nat
}

/// The protected text of `plaintext` under a key and a nonce: an error with
/// the cipher's words when the cipher refuses the length, an error when the
/// text would not fit, else the base64 text of the blob.
pub open spec fn sealed_text(key: Seq<u8>, nonce: Seq<u8>, plaintext: Seq<char>) -> Result<
    Seq<char>,
    CodecFault,
> {
    let n = encode_utf8(plaintext).len();
    if n > MAX_PLAINTEXT_LEN {
        Err(CodecFault::Encrypt(aead_error_message()))
    } else if !encodable(n) {
        Err(CodecFault::Encrypt(too_long_to_encode()))
    } else {
        Ok(base64_text(blob_of(key, nonce, plaintext)))
    }
}

/// What encrypting `plaintext` gives: the empty string stays empty, anything
/// else is sealed.
pub open spec fn encrypted(key: Seq<u8>, nonce: Seq<u8>, plaintext: Seq<char>) -> Result<
    Seq<char>,
    CodecFault,
> {
    if plaintext.len() == 0 {
        Ok(Seq::empty())
    } else {
        sealed_text(key, nonce, plaintext)
    }
}

/// The text recovered from bytes that came out of the cipher, or the
/// encoding error with the converter's words.
pub open spec fn recovered_text(bytes: Seq<u8>) -> Result<Seq<char>, CodecFault> {
    if valid_utf8(bytes) {
        Ok(decode_utf8(bytes))
    } else {
        Err(CodecFault::Encoding(utf8_fault(bytes)))
    }
}

/// What opening a decoded blob gives. Fewer bytes than a nonce are
/// malformed. The first 12 bytes are the nonce, the rest is ciphertext and
/// tag: when that rest is shorter than a tag, or the cipher does not
/// authenticate it, decryption fails.
pub open spec fn opened_blob(key: Seq<u8>, blob: Seq<u8>) -> Result<Seq<char>, CodecFault> {
    if blob.len() < NONCE_SIZE {
        Err(CodecFault::Malformed)
    } else if blob.len() < NONCE_SIZE + TAG_SIZE {
        Err(CodecFault::Decrypt)
    } else {
        match aes256_gcm_opened(
            key,
            blob.subrange(0, NONCE_SIZE as int),
            blob.subrange(NONCE_SIZE as int, blob.len() as int),
        ) {
            Some(bytes) => recovered_text(bytes),
            None => Err(CodecFault::Decrypt),
        }
    }
}

/// What decrypting a protected text gives: the empty string stays empty,
/// anything else is decoded and opened; text that is not base64 gives the
/// decode error with the decoder's words.
pub open spec fn decrypted(key: Seq<u8>, text: Seq<char>) -> Result<Seq<char>, CodecFault> {
    if text.len() == 0 {
        Ok(Seq::empty())
    } else {
        match base64_bytes(text) {
            Ok(blob) => opened_blob(key, blob),
            Err(cause) => Err(CodecFault::Decode(cause)),
        }
    }
}

/// Whether decrypting `text` under `key` succeeds and gives `plaintext`.
pub open spec fn decrypts_to(key: Seq<u8>, text: Seq<char>, plaintext: Seq<char>) -> bool {
    decrypted(key, text) == Ok::<Seq<char>, CodecFault>(plaintext)
}

/// The shape of a protected text and of what is behind it: the text is
/// made of base64 characters and stands for a blob of nonce, ciphertext and
/// tag; it has the padded base64 length of that many bytes, which is at least
/// 40 characters, and is longer than the plaintext, so it is never the
/// plaintext itself.
pub open spec fn sized_for(text: Seq<char>, plaintext: Seq<char>) -> bool {
    &&& is_base64_text(text)
    &&& base64_bytes(text) matches Ok(blob) && blob.len() == blob_len(plaintext)
    &&& text.len() == base64_len(blob_len(plaintext))
    &&& text.len() >= 40
    &&& text.len() > plaintext.len()
    &&& text != plaintext
}

/// Whether `text` protects `plaintext` under a key and a nonce: it is base64
/// for the nonce followed by ciphertext and tag, it has the size that goes
/// with the plaintext, and it decrypts to the plaintext.
pub open spec fn protects(
    text: Seq<char>,
    key: Seq<u8>,
    nonce: Seq<u8>,
    plaintext: Seq<char>,
) -> bool {
    &&& decodes_to(text, blob_of(key, nonce, plaintext))
    &&& sized_for(text, plaintext)
    &&& decrypts_to(key, text, plaintext)
}

/// Whether `r` is what encrypting `plaintext` under a key gives when the
/// nonce drawn is `nonce`.
pub open spec fn encrypts_as(
    r: Result<String, CodecError>,
    key: Seq<u8>,
    nonce: Seq<u8>,
    plaintext: Seq<char>,
) -> bool {
    &&& text_outcome(r) == encrypted(key, nonce, plaintext)
    &&& r matches Ok(text) ==> plaintext.len() > 0 ==> protects(text@, key, nonce, plaintext)
}

/// The message of a codec error: what failed and, where another crate found
/// the fault, a colon, a space and its words.
pub open spec fn codec_message(fault: CodecFault) -> Seq<char> {
    match fault {
        CodecFault::Encrypt(cause) => "Encryption failed: "@ + cause,
        CodecFault::Decode(cause) => "Failed to decode base64: "@ + cause,
        CodecFault::Malformed => "Invalid encrypted data"@,
        CodecFault::Decrypt => "Decryption failed - key may have changed"@,
        CodecFault::Encoding(cause) => "Invalid UTF-8: "@ + cause,
    }
}

impl CodecError {
    /// The text shown for this error.
    pub fn message(&self) -> (text: String)
        ensures
            text@ == codec_message(self@),
    {
        match self {
            CodecError::Encrypt(cause) => String::from_str("Encryption failed: ").concat(
                cause.as_str(),
            ),
            CodecError::Decode(cause) => String::from_str("Failed to decode base64: ").concat(
                cause.as_str(),
            ),
            CodecError::Malformed => String::from_str("Invalid encrypted data"),
            CodecError::Decrypt => String::from_str("Decryption failed - key may have changed"),
            CodecError::Encoding(cause) => String::from_str("Invalid UTF-8: ").concat(
                cause.as_str(),
            ),
        }
    }
}

/// Joins a nonce and the sealed bytes into one blob, nonce first.
pub fn frame_blob(nonce: &[u8], sealed: Vec<u8>) -> (blob: Vec<u8>)
    ensures
        blob@ == nonce@ + sealed@,
{
    let mut blob = slice_to_vec(nonce);
    let mut sealed = sealed;
    blob.append(&mut sealed);
    blob
}

/// Splits a blob into its nonce and the sealed bytes that follow, or gives
/// `None` when it is too short to hold a nonce.
pub fn split_blob(blob: &[u8]) -> (parts: Option<(&[u8], &[u8])>)
    ensures
        parts is Some <==> blob@.len() >= NONCE_SIZE,
        parts matches Some((nonce, sealed)) ==> {
            &&& nonce@ == blob@.subrange(0, NONCE_SIZE as int)
            &&& sealed@ == blob@.subrange(NONCE_SIZE as int, blob@.len() as int)
        },
{
    if blob.len() < NONCE_SIZE {
        None
    } else {
        let nonce = slice_subrange(blob, 0, NONCE_SIZE);
        let sealed = slice_subrange(blob, NONCE_SIZE, blob.len());
        Some((nonce, sealed))
    }
}

/// Reads the bytes that came out of the cipher as UTF-8 text.
pub fn plaintext_text(bytes: Vec<u8>) -> (r: Result<String, CodecError>)
    ensures
        text_outcome(r) == recovered_text(bytes@),
{
    match text_from_utf8(bytes) {
        Ok(text) => Ok(text),
        Err(e) => Err(CodecError::Encoding(utf8_error_text(&e))),
    }
}

/// Opens a decoded blob under a key. A blob that opens holds a nonce, a tag
/// and exactly the bytes of the text recovered; one that holds a nonce but
/// not a whole tag fails to decrypt.
pub fn open_blob(blob: &[u8], key: &[u8; 32]) -> (r: Result<String, CodecError>)
    ensures
        text_outcome(r) == opened_blob(key@, blob@),
        r matches Ok(text) ==> blob@.len() == blob_len(text@),
        NONCE_SIZE <= blob@.len() < NONCE_SIZE + TAG_SIZE ==> text_outcome(r) == Err::<
            Seq<char>,
            CodecFault,
        >(CodecFault::Decrypt),
{
    match split_blob(blob) {
        None => Err(CodecError::Malformed),
        Some((nonce, sealed)) => match aes256_gcm_decrypt(key, nonce, sealed) {
            Ok(bytes) => {
                proof {
                    if valid_utf8(bytes@) {
                        decode_utf8_encode_utf8(bytes@);
                    }
                }
                plaintext_text(bytes)
            },
            Err(_) => Err(CodecError::Decrypt),
        },
    }
}

/// What holds of a text that was decrypted, beyond the outcome itself: when
/// it gave a plaintext and is not empty, it is base64 for a blob of nonce,
/// ciphertext as long as the plaintext's UTF-8 form, and tag, so of at least
/// 28 bytes; when it is base64 for a nonce without a whole tag, the outcome is
/// the decryption error.
pub open spec fn decryption_of(r: Result<String, CodecError>, encrypted: Seq<char>) -> bool {
    encrypted.len() > 0 ==> match base64_bytes(encrypted) {
        Ok(blob) => {
            &&& r matches Ok(text) ==> blob.len() == blob_len(text@) && blob.len() >= NONCE_SIZE
                + TAG_SIZE
            &&& NONCE_SIZE <= blob.len() < NONCE_SIZE + TAG_SIZE ==> text_outcome(r) == Err::<
                Seq<char>,
                CodecFault,
            >(CodecFault::Decrypt)
        },
        Err(_) => r is Err,
    }
}

/// Recovers the plaintext of a protected text under a key.
pub fn decrypt_with_key(encrypted: &str, key: &[u8; 32]) -> (r: Result<String, CodecError>)
    ensures
        text_outcome(r) == decrypted(key@, encrypted@),
        decryption_of(r, encrypted@),
{
    if encrypted.is_empty() {
        return Ok(String::new());
    }
    match base64_decode(encrypted) {
        Ok(blob) => open_blob(blob.as_slice(), key),
        Err(e) => Err(CodecError::Decode(decode_error_text(&e))),
    }
}

/// Recovers the plaintext of a protected text for an identity. The empty
/// string is returned as it is.
pub fn decrypt_string(encrypted: &str, identity: &MachineIdentity) -> (r: Result<
    String,
    CodecError,
>)
    ensures
        text_outcome(r) == decrypted(identity.key(), encrypted@),
        decryption_of(r, encrypted@),
{
    let key = derive_key(identity);
    decrypt_with_key(encrypted, &key)
}

/// A text has at most as many characters as its UTF-8 form has bytes.
pub proof fn lemma_utf8_is_no_shorter(text: Seq<char>)
    ensures
        text.len() <= encode_utf8(text).len(),
    decreases text.len(),
{
    if text.len() > 0 {
        lemma_utf8_is_no_shorter(text.drop_first());
        assert(encode_utf8(text) == encode_scalar(text[0] as u32) + encode_utf8(text.drop_first()));
        assert(encode_scalar(text[0] as u32).len() > 0);
    }
}

/// Seals a plaintext under a key and a nonce and encodes nonce, ciphertext
/// and tag as one base64 text. The text has the size that goes with the
/// plaintext, and decrypting it under the same key gives the plaintext back.
pub fn seal_with_nonce(plaintext: &str, key: &[u8; 32], nonce: &[u8; 12]) -> (r: Result<
    String,
    CodecError,
>)
    ensures
        text_outcome(r) == sealed_text(key@, nonce@, plaintext@),
        r matches Ok(text) ==> protects(text@, key@, nonce@, plaintext@),
{
    let bytes = plaintext.as_bytes();
    match aes256_gcm_encrypt(key, nonce.as_slice(), bytes) {
        Err(e) => Err(CodecError::Encrypt(aead_error_text(&e))),
        Ok(sealed) => {
            let ghost sealed_bytes = sealed@;
            let blob = frame_blob(nonce.as_slice(), sealed);
            if blob.len() / 3 > (usize::MAX - 4) / 4 {
                Err(CodecError::Encrypt(String::from_str("protected text too long to address")))
            } else {
                let text = base64_encode(blob.as_slice());
                proof {
                    assert(blob@.subrange(0, NONCE_SIZE as int) =~= nonce@);
                    assert(blob@.subrange(NONCE_SIZE as int, blob@.len() as int) =~= sealed_bytes);
                    encode_utf8_valid_utf8(plaintext@);
                    encode_utf8_decode_utf8(plaintext@);
                    lemma_utf8_is_no_shorter(plaintext@);
                }
                Ok(text)
            }
        },
    }
}

/// Protects a plaintext under a key with a nonce drawn afresh for this call.
/// The empty string is returned as it is.
pub fn encrypt_with_key(plaintext: &str, key: &[u8; 32]) -> (r: Result<String, CodecError>)
    ensures
        exists|nonce: Seq<u8>|
            nonce.len() == NONCE_SIZE && #[trigger] encrypts_as(r, key@, nonce, plaintext@),
        r is Ok <==> plaintext@.len() == 0 || sealable(encode_utf8(plaintext@).len()),
        r matches Ok(text) ==> {
            &&& text@.len() == 0 <==> plaintext@.len() == 0
            &&& plaintext@.len() > 0 ==> sized_for(text@, plaintext@)
            &&& decrypts_to(key@, text@, plaintext@)
        },
{
    if plaintext.is_empty() {
        let text = String::new();
        assert(plaintext@ =~= Seq::<char>::empty());
        assert(encrypts_as(Ok(text), key@, Seq::new(NONCE_SIZE as nat, |i: int| 0u8), plaintext@));
        return Ok(text);
    }
    let nonce = random_nonce();
    let r = seal_with_nonce(plaintext, key, &nonce);
    assert(encrypts_as(r, key@, nonce@, plaintext@));
    r
}

/// Protects a plaintext for an identity. The empty string is returned as it
/// is; anything else becomes a text of at least 40 characters, never the
/// plaintext itself, that `decrypt_string` turns back into the plaintext for
/// the same identity.
pub fn encrypt_string(plaintext: &str, identity: &MachineIdentity) -> (r: Result<
    String,
    CodecError,
>)
    ensures
        exists|nonce: Seq<u8>|
            nonce.len() == NONCE_SIZE && #[trigger] encrypts_as(
                r,
                identity.key(),
                nonce,
                plaintext@,
            ),
        r is Ok <==> plaintext@.len() == 0 || sealable(encode_utf8(plaintext@).len()),
        r matches Ok(text) ==> {
            &&& text@.len() == 0 <==> plaintext@.len() == 0
            &&& plaintext@.len() > 0 ==> sized_for(text@, plaintext@)
            &&& decrypts_to(identity.key(), text@, plaintext@)
        },
{
    let key = derive_key(identity);
    encrypt_with_key(plaintext, &key)
}

/// Texts that protect under different nonces differ: as long as no nonce is
/// drawn twice, no two encryptions give the same text, whatever the
/// plaintexts.
pub proof fn lemma_fresh_nonce_fresh_text(
    key: Seq<u8>,
    first_nonce: Seq<u8>,
    first_plaintext: Seq<char>,
    first_text: Seq<char>,
    second_nonce: Seq<u8>,
    second_plaintext: Seq<char>,
    second_text: Seq<char>,
)
    requires
        first_nonce.len() == NONCE_SIZE,
        second_nonce.len() == NONCE_SIZE,
        first_nonce != second_nonce,
        protects(first_text, key, first_nonce, first_plaintext),
        protects(second_text, key, second_nonce, second_plaintext),
    ensures
        first_text != second_text,
{
    let first = blob_of(key, first_nonce, first_plaintext);
    let second = blob_of(key, second_nonce, second_plaintext);
    assert(first.subrange(0, NONCE_SIZE as int) =~= first_nonce);
    assert(second.subrange(0, NONCE_SIZE as int) =~= second_nonce);
}

/// No plaintext comes out of bytes that the cipher does not authenticate:
/// when a text decodes to a blob whose tag does not match under the key,
/// decrypting fails, and with the one error kept for that.
pub proof fn lemma_unauthentic_blob_is_refused(key: Seq<u8>, text: Seq<char>, blob: Seq<u8>)
    requires
        text.len() > 0,
        decodes_to(text, blob),
        blob.len() >= NONCE_SIZE,
        aes256_gcm_opened(
            key,
            blob.subrange(0, NONCE_SIZE as int),
            blob.subrange(NONCE_SIZE as int, blob.len() as int),
        ) is None,
    ensures
        decrypted(key, text) == Err::<Seq<char>, CodecFault>(CodecFault::Decrypt),
{
}

/// Decrypting gives a plaintext only through the cipher: whenever a text
/// that is not empty decrypts, it is base64 for a blob that holds a nonce and
/// a tag, and what the cipher opened it to is the UTF-8 form of the plaintext.
pub proof fn lemma_plaintext_comes_from_the_cipher(key: Seq<u8>, text: Seq<char>)
    requires
        text.len() > 0,
        decrypted(key, text) is Ok,
    ensures
        base64_bytes(text) matches Ok(blob) && blob.len() >= NONCE_SIZE + TAG_SIZE
            && aes256_gcm_opened(
            key,
            blob.subrange(0, NONCE_SIZE as int),
            blob.subrange(NONCE_SIZE as int, blob.len() as int),
        ) == Some(encode_utf8(decrypted(key, text)->Ok_0)),
{
    let blob = base64_bytes(text)->Ok_0;
    let bytes = aes256_gcm_opened(
        key,
        blob.subrange(0, NONCE_SIZE as int),
        blob.subrange(NONCE_SIZE as int, blob.len() as int),
    )->Some_0;
    decode_utf8_encode_utf8(bytes);
}

/// A text that stands for a nonce and less than a whole tag never decrypts:
/// it gives the decryption error, not the malformed one and not a plaintext.
pub proof fn lemma_blob_without_a_tag_fails_to_decrypt(key: Seq<u8>, text: Seq<char>, blob: Seq<u8>)
    requires
        text.len() > 0,
        decodes_to(text, blob),
        NONCE_SIZE <= blob.len() < NONCE_SIZE + TAG_SIZE,
    ensures
        decrypted(key, text) == Err::<Seq<char>, CodecFault>(CodecFault::Decrypt),
{
}

} // verus!
