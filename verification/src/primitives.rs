//! The calls this library makes into std and into the cryptographic
//! crates, each with the contract that the callee's source or
//! documentation supports. Nothing in this file is proved: every other
//! module is proved against what is stated here.
use vstd::prelude::*;
use vstd::utf8::*;
use base64::Engine;
use chacha20poly1305::aead::{Aead, KeyInit, Payload};
use zeroize::Zeroize;

verus! {

// ---------------------------------------------------------------------
// Outside types that pass through the library unopened.
// ---------------------------------------------------------------------

#[verifier::external_type_specification]
#[verifier::external_body]
pub struct ExArgon2Params(argon2::Params);

#[verifier::external_type_specification]
#[verifier::external_body]
pub struct ExArgon2Error(argon2::Error);

#[verifier::external_type_specification]
#[verifier::external_body]
pub struct ExAeadError(chacha20poly1305::Error);

#[verifier::external_type_specification]
#[verifier::external_body]
pub struct ExDecodeError(base64::DecodeError);

#[verifier::external_type_specification]
#[verifier::external_body]
pub struct ExRandomError(getrandom::Error);

#[verifier::external_type_specification]
#[verifier::external_body]
pub struct ExFromUtf8Error(std::string::FromUtf8Error);

#[verifier::external_type_specification]
#[verifier::external_body]
pub struct ExInstant(std::time::Instant);

// ---------------------------------------------------------------------
// Text: whitespace trimming, UTF-8 decoding, big-endian integers.
// ---------------------------------------------------------------------

/// The Unicode `White_Space` property (PropList.txt), which is what
/// `char::is_whitespace` and `str::trim` test.
pub open spec fn is_unicode_whitespace(c: char) -> bool {
    let u = c as u32;
    ||| 0x9 <= u <= 0xD
    ||| u == 0x20
    ||| u == 0x85
    ||| u == 0xA0
    ||| u == 0x1680
    ||| 0x2000 <= u <= 0x200A
    ||| u == 0x2028
    ||| u == 0x2029
    ||| u == 0x202F
    ||| u == 0x205F
    ||| u == 0x3000
}

/// `s` without its leading whitespace.
pub open spec fn trim_start_spec(s: Seq<char>) -> Seq<char>
    decreases s.len(),
{
    if s.len() > 0 && is_unicode_whitespace(s[0]) {
        trim_start_spec(s.drop_first())
    } else {
        s
    }
}

/// `s` without its trailing whitespace.
pub open spec fn trim_end_spec(s: Seq<char>) -> Seq<char>
    decreases s.len(),
{
    if s.len() > 0 && is_unicode_whitespace(s.last()) {
        trim_end_spec(s.drop_last())
    } else {
        s
    }
}

/// `s` without leading and trailing whitespace.
pub open spec fn trim_spec(s: Seq<char>) -> Seq<char> {
    trim_end_spec(trim_start_spec(s))
}

/// `str::trim`: the documentation says it returns the slice with leading and
/// trailing `White_Space` characters removed; that is what is claimed.
#[verifier::external_body]
pub(crate) fn str_trim(s: &str) -> (r: &str)
    ensures
        r@ == trim_spec(s@),
{
    s.trim()
}

/// `String::from_utf8`: documented to succeed exactly on valid UTF-8 and then
/// to hold the decoded characters. Claimed over vstd's UTF-8 model.
#[verifier::external_body]
pub(crate) fn string_from_utf8(bytes: Vec<u8>) -> (r: Result<String, std::string::FromUtf8Error>)
    ensures
        match r {
            Ok(s) => valid_utf8(bytes@) && s@ == decode_utf8(bytes@),
            Err(_) => !valid_utf8(bytes@),
        },
{
    String::from_utf8(bytes)
}

/// The eight big-endian bytes of `v`.
pub open spec fn u64_be_bytes_spec(v: u64) -> Seq<u8> {
    seq![
        (v >> 56u64) as u8,
        (v >> 48u64) as u8,
        (v >> 40u64) as u8,
        (v >> 32u64) as u8,
        (v >> 24u64) as u8,
        (v >> 16u64) as u8,
        (v >> 8u64) as u8,
        v as u8,
    ]
}

/// `u64::to_be_bytes`: the memory representation in big-endian byte order,
/// as its documentation says.
#[verifier::external_body]
pub(crate) fn u64_to_be_bytes(v: u64) -> (r: [u8; 8])
    ensures
        r@ == u64_be_bytes_spec(v),
{
    v.to_be_bytes()
}

// ---------------------------------------------------------------------
// base64 (URL-safe alphabet, no padding).
// ---------------------------------------------------------------------

/// What `base64::engine::general_purpose::URL_SAFE_NO_PAD.encode` returns
/// for the given bytes.
pub uninterp spec fn b64url_encode(bytes: Seq<u8>) -> Seq<char>;

/// What `URL_SAFE_NO_PAD.decode` returns for the given text: the decoded
/// bytes, or `None` where it returns a `DecodeError`.
pub uninterp spec fn b64url_decode(text: Seq<char>) -> Option<Seq<u8>>;

/// `URL_SAFE_NO_PAD.encode`. Claimed: the result is the name applied to the
/// input, and decoding it with the same engine gives the input back (the
/// engine's encode and decode are inverse, as its documentation and round
/// trip tests show).
#[verifier::external_body]
pub(crate) fn b64url_encode_bytes(bytes: &[u8]) -> (r: String)
    ensures
        r@ == b64url_encode(bytes@),
        b64url_decode(r@) == Some(bytes@),
{
    base64::engine::general_purpose::URL_SAFE_NO_PAD.encode(bytes)
}

/// `URL_SAFE_NO_PAD.decode` on the UTF-8 bytes of `text`. Claimed: the
/// outcome is the name applied to the text.
#[verifier::external_body]
pub(crate) fn b64url_decode_text(text: &str) -> (r: Result<Vec<u8>, base64::DecodeError>)
    ensures
        match r {
            Ok(v) => b64url_decode(text@) == Some(v@),
            Err(_) => b64url_decode(text@) is None,
        },
{
    base64::engine::general_purpose::URL_SAFE_NO_PAD.decode(text)
}

// ---------------------------------------------------------------------
// XChaCha20-Poly1305.
// ---------------------------------------------------------------------

/// What `XChaCha20Poly1305::encrypt` returns (ciphertext followed by tag)
/// for a key, a nonce, associated data and a message.
pub uninterp spec fn xchacha_seal(key: Seq<u8>, nonce: Seq<u8>, aad: Seq<u8>, msg: Seq<u8>) -> Seq<u8>;

/// What `XChaCha20Poly1305::decrypt` returns for a key, a nonce, associated
/// data and a ciphertext: the message, or `None` where it fails.
pub uninterp spec fn xchacha_open(key: Seq<u8>, nonce: Seq<u8>, aad: Seq<u8>, ct: Seq<u8>) -> Option<Seq<u8>>;

/// The messages the cipher can process. After the first keystream block,
/// which keys Poly1305, ChaCha20's 32-bit block counter leaves 2^32 - 2
/// blocks of 64 bytes. `encrypt` refuses messages of 2^32 - 1 or more blocks
/// and panics on the lengths in between (the keystream runs out); so does
/// `decrypt` on such a message once its tag verifies.
pub open spec fn xchacha_msg_len_ok(len: nat) -> bool {
    len <= 0xFFFF_FFFE * 64
}

/// The ciphertexts (message followed by the 16-byte tag) `decrypt` can
/// process without reaching the end of the keystream.
pub open spec fn xchacha_ct_len_ok(len: nat) -> bool {
    len <= 0xFFFF_FFFE * 64 + 16
}

/// `XChaCha20Poly1305::new(key).encrypt(nonce, Payload { msg, aad })`.
/// Claimed, for the message lengths the cipher can process: it succeeds;
/// the result is the name applied to the inputs and is 16 bytes (the tag)
/// longer than the message; and decrypting it with the same key, nonce and
/// associated data gives the message back (the defining property of an
/// AEAD, as the crate documents it).
#[verifier::external_body]
pub(crate) fn xchacha_encrypt(key: &[u8; 32], nonce: &[u8; 24], aad: &[u8], msg: &[u8]) -> (r: Result<Vec<u8>, chacha20poly1305::Error>)
    requires
        xchacha_msg_len_ok(msg@.len()),
    ensures
        match r {
            Ok(c) => {
                &&& c@ == xchacha_seal(key@, nonce@, aad@, msg@)
                &&& c@.len() == msg@.len() + 16
                &&& xchacha_open(key@, nonce@, aad@, c@) == Some(msg@)
            },
            Err(_) => false,
        },
{
    let cipher = chacha20poly1305::XChaCha20Poly1305::new(chacha20poly1305::Key::from_slice(key));
    cipher.encrypt(chacha20poly1305::XNonce::from_slice(nonce), Payload { msg, aad })
}

/// `XChaCha20Poly1305::new(key).decrypt(nonce, Payload { msg: ct, aad })`,
/// on the ciphertext lengths it can process. Claimed: the outcome is the
/// name applied to the inputs.
#[verifier::external_body]
pub(crate) fn xchacha_decrypt(key: &[u8; 32], nonce: &[u8; 24], aad: &[u8], ct: &[u8]) -> (r: Result<Vec<u8>, chacha20poly1305::Error>)
    requires
        xchacha_ct_len_ok(ct@.len()),
    ensures
        match r {
            Ok(m) => xchacha_open(key@, nonce@, aad@, ct@) == Some(m@),
            Err(_) => xchacha_open(key@, nonce@, aad@, ct@) is None,
        },
{
    let cipher = chacha20poly1305::XChaCha20Poly1305::new(chacha20poly1305::Key::from_slice(key));
    cipher.decrypt(chacha20poly1305::XNonce::from_slice(nonce), Payload { msg: ct, aad })
}

// ---------------------------------------------------------------------
// Argon2id (version 0x13, 32-byte output).
// ---------------------------------------------------------------------

/// The parameters `argon2::Params::new(m, t, p, Some(32))` accepts, as its
/// source checks them: at least 8 KiB of memory and 8 KiB per lane, at
/// least one pass, and between 1 and 0xFFFFFF lanes.
pub open spec fn argon2_params_valid(memory_cost_kib: u32, time_cost: u32, parallelism: u32) -> bool {
    &&& memory_cost_kib >= 8
    &&& memory_cost_kib >= parallelism * 8
    &&& time_cost >= 1
    &&& parallelism >= 1
    &&& parallelism <= 0xFF_FFFF
}

/// The inputs `hash_password_into` accepts, as its source checks them.
pub open spec fn argon2_inputs_valid(password_len: nat, salt_len: nat) -> bool {
    &&& password_len <= 0xFFFF_FFFF
    &&& 8 <= salt_len <= 0xFFFF_FFFF
}

/// What Argon2id v0x13 with the given costs writes into a 32-byte output
/// for a password and a salt.
pub uninterp spec fn argon2id_hash(memory_cost_kib: u32, time_cost: u32, parallelism: u32, password: Seq<u8>, salt: Seq<u8>) -> Seq<u8>;

/// Validated Argon2 parameters together with the costs they were built from.
/// Only `argon2id_config` builds one.
pub(crate) struct Argon2idConfig {
    params: argon2::Params,
    memory_cost_kib: u32,
    time_cost: u32,
    parallelism: u32,
}

impl Argon2idConfig {
    pub(crate) closed spec fn memory_cost(&self) -> u32 {
        self.memory_cost_kib
    }

    pub(crate) closed spec fn time_cost(&self) -> u32 {
        self.time_cost
    }

    pub(crate) closed spec fn lanes(&self) -> u32 {
        self.parallelism
    }
}

/// `argon2::Params::new(m, t, p, Some(32))`. Claimed: it succeeds exactly
/// when the source's checks pass. `requires`: the source computes `p * 8` in
/// `u32`, which overflows (and panics in a debug build) for larger `p`.
#[verifier::external_body]
pub(crate) fn argon2id_config(memory_cost_kib: u32, time_cost: u32, parallelism: u32) -> (r: Result<Argon2idConfig, argon2::Error>)
    requires
        parallelism <= 0x1FFF_FFFF,
    ensures
        match r {
            Ok(c) => {
                &&& argon2_params_valid(memory_cost_kib, time_cost, parallelism)
                &&& c.memory_cost() == memory_cost_kib
                &&& c.time_cost() == time_cost
                &&& c.lanes() == parallelism
            },
            Err(_) => !argon2_params_valid(memory_cost_kib, time_cost, parallelism),
        },
{
    match argon2::Params::new(memory_cost_kib, time_cost, parallelism, Some(32)) {
        Ok(params) => Ok(Argon2idConfig { params, memory_cost_kib, time_cost, parallelism }),
        Err(e) => Err(e),
    }
}

/// `Argon2::new(Algorithm::Argon2id, Version::V0x13, params)
/// .hash_password_into(password, salt, &mut out)` with a 32-byte `out`.
/// Claimed: it succeeds exactly when the source's input checks pass, and
/// then the output is the name applied to the costs, password and salt.
/// Not claimed: the call allocates `memory_cost_kib` KiB and the process
/// aborts where the machine cannot provide it.
#[verifier::external_body]
pub(crate) fn argon2id_hash_into(config: &Argon2idConfig, password: &[u8], salt: &[u8]) -> (r: Result<[u8; 32], argon2::Error>)
    ensures
        match r {
            Ok(out) => {
                &&& argon2_inputs_valid(password@.len(), salt@.len())
                &&& out@ == argon2id_hash(config.memory_cost(), config.time_cost(), config.lanes(), password@, salt@)
            },
            Err(_) => !argon2_inputs_valid(password@.len(), salt@.len()),
        },
{
    let mut out = [0u8; 32];
    let hasher = argon2::Argon2::new(argon2::Algorithm::Argon2id, argon2::Version::V0x13, config.params.clone());
    match hasher.hash_password_into(password, salt, &mut out) {
        Ok(()) => Ok(out),
        Err(e) => Err(e),
    }
}

// ---------------------------------------------------------------------
// Randomness, erasure, time.
// ---------------------------------------------------------------------

/// `getrandom::fill` on a fresh array of `N` bytes. Nothing is claimed of
/// the bytes or of whether the operating system provides them.
#[verifier::external_body]
pub(crate) fn random_bytes<const N: usize>() -> (r: Result<[u8; N], getrandom::Error>) {
    let mut bytes = [0u8; N];
    match getrandom::fill(&mut bytes) {
        Ok(()) => Ok(bytes),
        Err(e) => Err(e),
    }
}

/// `Zeroize::zeroize` on a 32-byte array: every byte becomes zero, as the
/// zeroize documentation says.
#[verifier::external_body]
pub(crate) fn zeroize_key(key: &mut [u8; 32])
    ensures
        final(key)@ == Seq::new(32, |_i: int| 0u8),
{
    key.zeroize();
}

/// `Instant::now`. Nothing is claimed of the value.
#[verifier::external_body]
pub(crate) fn instant_now() -> (r: std::time::Instant) {
    std::time::Instant::now()
}

/// `Instant::elapsed`. Nothing is claimed of the value.
#[verifier::external_body]
pub(crate) fn instant_elapsed(origin: &std::time::Instant) -> (r: core::time::Duration) {
    origin.elapsed()
}

/// `Duration::as_nanos`. Nothing is claimed of the value: vstd gives
/// `Duration` no view to state it over.
#[verifier::external_body]
pub(crate) fn duration_as_nanos(d: &core::time::Duration) -> (r: u128) {
    d.as_nanos()
}

} // verus!
