//! Client-side cryptography of a room.
//!
//! A room has a random 32-byte room key. The key is wrapped with
//! XChaCha20-Poly1305 under a key that Argon2id derives from the room
//! password and a random salt; the clipboard text is sealed under the room
//! key with the envelope's version as associated data. Binary values travel
//! as URL-safe base64 without padding.
use vstd::prelude::*;
use vstd::utf8::*;
use vstd::array::*;
use crate::primitives::{
    argon2_inputs_valid, argon2_params_valid, argon2id_config, argon2id_hash, argon2id_hash_into,
    b64url_decode, b64url_decode_text, b64url_encode, b64url_encode_bytes, is_unicode_whitespace,
    random_bytes, str_trim, string_from_utf8, trim_end_spec, trim_spec, trim_start_spec,
    u64_be_bytes_spec, u64_to_be_bytes, xchacha_decrypt, xchacha_encrypt, xchacha_msg_len_ok,
    xchacha_open, xchacha_seal, zeroize_key, xchacha_ct_len_ok,
};

verus! {

broadcast use vstd::array::group_array_axioms;

pub const ROOM_KEY_LEN: usize = 32;
pub const SALT_LEN: usize = 16;
pub const NONCE_LEN: usize = 24;
pub const SCHEMA_VERSION: u8 = 1;

/// Argon2id cost parameters.
#[derive(Clone, Copy, Debug, PartialEq, Eq, Structural)]
pub struct KdfParams {
    pub memory_cost_kib: u32,
    pub time_cost: u32,
    pub parallelism: u32,
}

impl KdfParams {
    pub open spec fn interactive_spec() -> KdfParams {
        KdfParams { memory_cost_kib: 19_456, time_cost: 2, parallelism: 1 }
    }

    /// The costs used by the browser: 19 MiB, two passes, one lane.
    pub fn interactive() -> (r: Self)
        ensures
            r == Self::interactive_spec(),
    {
        Self { memory_cost_kib: 19_456, time_cost: 2, parallelism: 1 }
    }

    /// Cheap costs for tests: 64 KiB, one pass, one lane.
    pub fn testing() -> (r: Self)
        ensures
            r == (KdfParams { memory_cost_kib: 64, time_cost: 1, parallelism: 1 }),
    {
        Self { memory_cost_kib: 64, time_cost: 1, parallelism: 1 }
    }
}

/// What a room publishes so that a password holder can recover its key.
#[derive(Debug, PartialEq, Eq)]
pub struct RoomMeta {
    pub schema_version: u8,
    pub kdf: KdfParams,
    pub kdf_salt_b64: String,
    pub wrapped_room_key_nonce_b64: String,
    pub wrapped_room_key_b64: String,
}

impl Clone for RoomMeta {
    fn clone(&self) -> (r: Self)
        ensures
            r == *self,
    {
        RoomMeta {
            schema_version: self.schema_version,
            kdf: self.kdf,
            kdf_salt_b64: self.kdf_salt_b64.clone(),
            wrapped_room_key_nonce_b64: self.wrapped_room_key_nonce_b64.clone(),
            wrapped_room_key_b64: self.wrapped_room_key_b64.clone(),
        }
    }
}

/// One sealed clipboard value.
#[derive(Debug, PartialEq, Eq)]
pub struct CipherEnvelope {
    pub version: u64,
    pub nonce_b64: String,
    pub ciphertext_b64: String,
}

impl Clone for CipherEnvelope {
    fn clone(&self) -> (r: Self)
        ensures
            r == *self,
    {
        CipherEnvelope {
            version: self.version,
            nonce_b64: self.nonce_b64.clone(),
            ciphertext_b64: self.ciphertext_b64.clone(),
        }
    }
}

/// The 32-byte key that seals a room's clipboard.
pub struct RoomKey([u8; ROOM_KEY_LEN]);

impl View for RoomKey {
    type V = Seq<u8>;

    closed spec fn view(&self) -> Seq<u8> {
        self.0@
    }
}

impl Clone for RoomKey {
    fn clone(&self) -> (r: Self)
        ensures
            r@ == self@,
    {
        RoomKey(self.0)
    }
}

impl RoomKey {
    /// Overwrites the key with zeros, for when it is no longer needed.
    pub fn erase(&mut self)
        ensures
            final(self)@ == Seq::new(ROOM_KEY_LEN as nat, |_i: int| 0u8),
    {
        zeroize_key(&mut self.0);
    }
}

/// A room key holds exactly 32 bytes.
pub broadcast proof fn lemma_room_key_len(k: RoomKey)
    ensures
        #[trigger] k@.len() == ROOM_KEY_LEN,
{
}

/// A freshly created room: what to publish, and the key to keep.
pub struct CreatedRoom {
    pub meta: RoomMeta,
    pub envelope: CipherEnvelope,
    pub room_key: RoomKey,
}

#[derive(Clone, Copy, Debug, PartialEq, Eq, Structural)]
pub enum CryptoError {
    EmptyPassword,
    InvalidKdfParams,
    RandomnessUnavailable,
    AuthenticationFailed,
    InvalidEncoding,
    InvalidUtf8,
}

pub open spec fn crypto_error_text(e: CryptoError) -> Seq<char> {
    match e {
        CryptoError::EmptyPassword => "password must not be empty"@,
        CryptoError::InvalidKdfParams => "invalid or unsupported KDF parameters"@,
        CryptoError::RandomnessUnavailable => "randomness unavailable"@,
        CryptoError::AuthenticationFailed => "ciphertext failed authentication"@,
        CryptoError::InvalidEncoding => "encoded value is invalid"@,
        CryptoError::InvalidUtf8 => "plaintext is not valid UTF-8"@,
    }
}

impl CryptoError {
    /// The human-readable text of the error.
    pub fn message(&self) -> (r: &'static str)
        ensures
            r@ == crypto_error_text(*self),
    {
        match self {
            CryptoError::EmptyPassword => "password must not be empty",
            CryptoError::InvalidKdfParams => "invalid or unsupported KDF parameters",
            CryptoError::RandomnessUnavailable => "randomness unavailable",
            CryptoError::AuthenticationFailed => "ciphertext failed authentication",
            CryptoError::InvalidEncoding => "encoded value is invalid",
            CryptoError::InvalidUtf8 => "plaintext is not valid UTF-8",
        }
    }
}

pub open spec fn cipher_suite_text() -> Seq<char> {
    "Argon2id + XChaCha20-Poly1305"@
}

/// The name of the cipher suite, for display.
pub fn cipher_suite_label() -> (r: &'static str)
    ensures
        r@ == cipher_suite_text(),
{
    "Argon2id + XChaCha20-Poly1305"
}

// ---------------------------------------------------------------------
// The model.
// ---------------------------------------------------------------------

/// A password that trims to nothing.
pub open spec fn password_is_blank(password: Seq<char>) -> bool {
    trim_spec(password).len() == 0
}

/// The base64 text decoded, if it decodes to exactly `n` bytes.
pub open spec fn decode_fixed_spec(text: Seq<char>, n: nat) -> Option<Seq<u8>> {
    match b64url_decode(text) {
        Some(bytes) => if bytes.len() == n { Some(bytes) } else { None },
        None => None,
    }
}

/// The costs and password length that Argon2 accepts with a 16-byte salt.
pub open spec fn kdf_accepts(password: Seq<char>, kdf: KdfParams) -> bool {
    &&& argon2_params_valid(kdf.memory_cost_kib, kdf.time_cost, kdf.parallelism)
    &&& argon2_inputs_valid(encode_utf8(password).len(), SALT_LEN as nat)
}

/// The wrapping key that a password and salt derive.
pub open spec fn derive_spec(password: Seq<char>, salt: Seq<u8>, kdf: KdfParams) -> Result<Seq<u8>, CryptoError> {
    if argon2_params_valid(kdf.memory_cost_kib, kdf.time_cost, kdf.parallelism)
        && argon2_inputs_valid(encode_utf8(password).len(), salt.len()) {
        Ok(argon2id_hash(kdf.memory_cost_kib, kdf.time_cost, kdf.parallelism, encode_utf8(password), salt))
    } else {
        Err(CryptoError::InvalidKdfParams)
    }
}

/// The wrapping key is Argon2id of the whole password's UTF-8 bytes and the
/// salt, with exactly the memory cost, passes and lanes that the metadata
/// records; costs or inputs that Argon2 refuses give `InvalidKdfParams`.
pub proof fn lemma_wrapping_key_is_argon2id(password: Seq<char>, salt: Seq<u8>, kdf: KdfParams)
    ensures
        argon2_params_valid(kdf.memory_cost_kib, kdf.time_cost, kdf.parallelism)
            && argon2_inputs_valid(encode_utf8(password).len(), salt.len())
            ==> derive_spec(password, salt, kdf) == Ok::<Seq<u8>, CryptoError>(
            argon2id_hash(kdf.memory_cost_kib, kdf.time_cost, kdf.parallelism, encode_utf8(password), salt),
        ),
        !(argon2_params_valid(kdf.memory_cost_kib, kdf.time_cost, kdf.parallelism)
            && argon2_inputs_valid(encode_utf8(password).len(), salt.len()))
            ==> derive_spec(password, salt, kdf) == Err::<Seq<u8>, CryptoError>(CryptoError::InvalidKdfParams),
{
}

/// What opening a wrapped room key gives: the key, if the ciphertext is one
/// the cipher can process, authenticates, and holds 32 bytes.
pub open spec fn unwrap_spec(wrapping_key: Seq<u8>, nonce: Seq<u8>, wrapped: Seq<u8>) -> Result<Seq<u8>, CryptoError> {
    if !xchacha_ct_len_ok(wrapped.len()) {
        Err(CryptoError::AuthenticationFailed)
    } else {
        match xchacha_open(wrapping_key, nonce, Seq::empty(), wrapped) {
            None => Err(CryptoError::AuthenticationFailed),
            Some(key) => if key.len() == ROOM_KEY_LEN {
                Ok(key)
            } else {
                Err(CryptoError::AuthenticationFailed)
            },
        }
    }
}

/// The room key that a password recovers from a room's metadata.
pub open spec fn unlock_spec(password: Seq<char>, meta: RoomMeta) -> Result<Seq<u8>, CryptoError> {
    if password_is_blank(password) {
        Err(CryptoError::EmptyPassword)
    } else if meta.schema_version != SCHEMA_VERSION {
        Err(CryptoError::InvalidEncoding)
    } else {
        match decode_fixed_spec(meta.kdf_salt_b64@, SALT_LEN as nat) {
            None => Err(CryptoError::InvalidEncoding),
            Some(salt) => match decode_fixed_spec(meta.wrapped_room_key_nonce_b64@, NONCE_LEN as nat) {
                None => Err(CryptoError::InvalidEncoding),
                Some(nonce) => match b64url_decode(meta.wrapped_room_key_b64@) {
                    None => Err(CryptoError::InvalidEncoding),
                    Some(wrapped) => match derive_spec(password, salt, meta.kdf) {
                        Err(e) => Err(e),
                        Ok(wrapping_key) => unwrap_spec(wrapping_key, nonce, wrapped),
                    },
                },
            },
        }
    }
}

/// What opening a sealed clipboard gives: the text, if the ciphertext is
/// one the cipher can process, authenticates, and is valid UTF-8.
pub open spec fn open_text_spec(key: Seq<u8>, nonce: Seq<u8>, version: u64, ct: Seq<u8>) -> Result<Seq<char>, CryptoError> {
    if !xchacha_ct_len_ok(ct.len()) {
        Err(CryptoError::AuthenticationFailed)
    } else {
        match xchacha_open(key, nonce, u64_be_bytes_spec(version), ct) {
            None => Err(CryptoError::AuthenticationFailed),
            Some(plain) => if valid_utf8(plain) {
                Ok(decode_utf8(plain))
            } else {
                Err(CryptoError::InvalidUtf8)
            },
        }
    }
}

/// The clipboard text that a room key recovers from an envelope.
pub open spec fn decrypt_spec(key: Seq<u8>, envelope: CipherEnvelope) -> Result<Seq<char>, CryptoError> {
    match decode_fixed_spec(envelope.nonce_b64@, NONCE_LEN as nat) {
        None => Err(CryptoError::InvalidEncoding),
        Some(nonce) => match b64url_decode(envelope.ciphertext_b64@) {
            None => Err(CryptoError::InvalidEncoding),
            Some(ct) => open_text_spec(key, nonce, envelope.version, ct),
        },
    }
}

/// The envelope that sealing `plaintext` under `key` with `nonce` yields.
pub open spec fn sealed_envelope(key: Seq<u8>, plaintext: Seq<char>, version: u64, nonce: Seq<u8>, e: CipherEnvelope) -> bool {
    &&& e.version == version
    &&& e.nonce_b64@ == b64url_encode(nonce)
    &&& e.ciphertext_b64@ == b64url_encode(
        xchacha_seal(key, nonce, u64_be_bytes_spec(version), encode_utf8(plaintext)),
    )
    &&& xchacha_seal(key, nonce, u64_be_bytes_spec(version), encode_utf8(plaintext)).len()
        == encode_utf8(plaintext).len() + 16
}

/// The metadata that wrapping `room_key` under `wrapping_key` yields.
pub open spec fn wrapped_meta(kdf: KdfParams, salt: Seq<u8>, nonce: Seq<u8>, wrapping_key: Seq<u8>, room_key: Seq<u8>, m: RoomMeta) -> bool {
    &&& m.schema_version == SCHEMA_VERSION
    &&& m.kdf == kdf
    &&& m.kdf_salt_b64@ == b64url_encode(salt)
    &&& m.wrapped_room_key_nonce_b64@ == b64url_encode(nonce)
    &&& m.wrapped_room_key_b64@ == b64url_encode(xchacha_seal(wrapping_key, nonce, Seq::empty(), room_key))
    &&& xchacha_seal(wrapping_key, nonce, Seq::empty(), room_key).len() == room_key.len() + 16
}

/// `c` is the room that a password, text and costs give with the drawn
/// salt, wrapping nonce, room key and clipboard nonce: the metadata wraps the
/// key, the envelope seals the text as version 1, and the key is kept.
pub open spec fn created_from(
    password: Seq<char>,
    plaintext: Seq<char>,
    kdf: KdfParams,
    salt: Seq<u8>,
    wrap_nonce: Seq<u8>,
    room_key: Seq<u8>,
    nonce: Seq<u8>,
    c: CreatedRoom,
) -> bool {
    &&& salt.len() == SALT_LEN
    &&& wrap_nonce.len() == NONCE_LEN
    &&& room_key.len() == ROOM_KEY_LEN
    &&& nonce.len() == NONCE_LEN
    &&& kdf_accepts(password, kdf)
    &&& wrapped_meta(
        kdf,
        salt,
        wrap_nonce,
        argon2id_hash(kdf.memory_cost_kib, kdf.time_cost, kdf.parallelism, encode_utf8(password), salt),
        room_key,
        c.meta,
    )
    &&& sealed_envelope(room_key, plaintext, 1, nonce, c.envelope)
    &&& c.room_key@ == room_key
}

/// What a room publishes separates its two secrets: from the same draws,
/// the envelope and key are the same whatever the password, and the
/// metadata is the same whatever the clipboard text.
pub proof fn lemma_uploads_separate_secrets(
    password1: Seq<char>,
    password2: Seq<char>,
    text1: Seq<char>,
    text2: Seq<char>,
    kdf: KdfParams,
    salt: Seq<u8>,
    wrap_nonce: Seq<u8>,
    room_key: Seq<u8>,
    nonce: Seq<u8>,
    c1: CreatedRoom,
    c2: CreatedRoom,
)
    requires
        created_from(password1, text1, kdf, salt, wrap_nonce, room_key, nonce, c1),
        created_from(password2, text2, kdf, salt, wrap_nonce, room_key, nonce, c2),
    ensures
        c1.room_key@ == c2.room_key@,
        text1 == text2 ==> {
            &&& c1.envelope.version == c2.envelope.version
            &&& c1.envelope.nonce_b64@ == c2.envelope.nonce_b64@
            &&& c1.envelope.ciphertext_b64@ == c2.envelope.ciphertext_b64@
        },
        password1 == password2 ==> {
            &&& c1.meta.schema_version == c2.meta.schema_version
            &&& c1.meta.kdf == c2.meta.kdf
            &&& c1.meta.kdf_salt_b64@ == c2.meta.kdf_salt_b64@
            &&& c1.meta.wrapped_room_key_nonce_b64@ == c2.meta.wrapped_room_key_nonce_b64@
            &&& c1.meta.wrapped_room_key_b64@ == c2.meta.wrapped_room_key_b64@
        },
{
}

/// Trimming leaves nothing exactly when every character is whitespace.
pub proof fn lemma_blank_iff_all_whitespace(s: Seq<char>)
    ensures
        password_is_blank(s) <==> (forall|i: int| 0 <= i < s.len() ==> is_unicode_whitespace(#[trigger] s[i])),
{
    lemma_trim_start(s);
    let t = trim_start_spec(s);
    lemma_trim_end(t);
    if password_is_blank(s) {
        assert forall|i: int| 0 <= i < s.len() implies is_unicode_whitespace(#[trigger] s[i]) by {
            if t.len() > 0 {
                assert(is_unicode_whitespace(t[0]));
            }
        }
    } else {
        if forall|i: int| 0 <= i < s.len() ==> is_unicode_whitespace(#[trigger] s[i]) {
            assert(t.len() == 0);
        }
    }
}

/// `trim_start_spec(s)` is a suffix of `s` preceded only by whitespace, and it
/// is empty or starts with a non-whitespace character.
proof fn lemma_trim_start(s: Seq<char>)
    ensures
        trim_start_spec(s).len() <= s.len(),
        trim_start_spec(s) =~= s.subrange(s.len() - trim_start_spec(s).len(), s.len() as int),
        forall|i: int| 0 <= i < s.len() - trim_start_spec(s).len() ==> is_unicode_whitespace(#[trigger] s[i]),
        trim_start_spec(s).len() > 0 ==> !is_unicode_whitespace(trim_start_spec(s)[0]),
    decreases s.len(),
{
    if s.len() > 0 && is_unicode_whitespace(s[0]) {
        lemma_trim_start(s.drop_first());
        assert forall|i: int| 0 <= i < s.len() - trim_start_spec(s).len() implies is_unicode_whitespace(#[trigger] s[i]) by {
            if i > 0 {
                assert(s[i] == s.drop_first()[i - 1]);
            }
        }
    }
}

/// `trim_end_spec(t)` is empty exactly when every character of `t` is
/// whitespace, and otherwise keeps the first character of `t`.
proof fn lemma_trim_end(t: Seq<char>)
    ensures
        trim_end_spec(t).len() == 0 <==> (forall|i: int| 0 <= i < t.len() ==> is_unicode_whitespace(#[trigger] t[i])),
        trim_end_spec(t).len() > 0 ==> trim_end_spec(t)[0] == t[0],
    decreases t.len(),
{
    if t.len() > 0 && is_unicode_whitespace(t.last()) {
        let u = t.drop_last();
        lemma_trim_end(u);
        if forall|i: int| 0 <= i < u.len() ==> is_unicode_whitespace(#[trigger] u[i]) {
            assert forall|i: int| 0 <= i < t.len() implies is_unicode_whitespace(#[trigger] t[i]) by {
                if i < u.len() {
                    assert(t[i] == u[i]);
                }
            }
        }
        if forall|i: int| 0 <= i < t.len() ==> is_unicode_whitespace(#[trigger] t[i]) {
            assert forall|i: int| 0 <= i < u.len() implies is_unicode_whitespace(#[trigger] u[i]) by {
                assert(t[i] == u[i]);
            }
        }
    } else if t.len() > 0 {
        assert(!is_unicode_whitespace(t[t.len() - 1]));
    }
}

// ---------------------------------------------------------------------
// Checks and encodings.
// ---------------------------------------------------------------------

/// Refuses a password that is empty after trimming whitespace.
pub fn ensure_password(password: &str) -> (r: Result<(), CryptoError>)
    ensures
        r is Ok <==> !password_is_blank(password@),
        r is Err ==> r == Err::<(), CryptoError>(CryptoError::EmptyPassword),
{
    if str_trim(password).is_empty() {
        Err(CryptoError::EmptyPassword)
    } else {
        Ok(())
    }
}

/// Accepts only the metadata schema this library writes.
pub fn validate_schema(schema_version: u8) -> (r: Result<(), CryptoError>)
    ensures
        r is Ok <==> schema_version == SCHEMA_VERSION,
        r is Err ==> r == Err::<(), CryptoError>(CryptoError::InvalidEncoding),
{
    if schema_version == SCHEMA_VERSION {
        Ok(())
    } else {
        Err(CryptoError::InvalidEncoding)
    }
}

/// Decodes URL-safe unpadded base64.
pub fn decode_bytes(value: &str) -> (r: Result<Vec<u8>, CryptoError>)
    ensures
        match r {
            Ok(v) => b64url_decode(value@) == Some(v@),
            Err(e) => b64url_decode(value@) is None && e == CryptoError::InvalidEncoding,
        },
{
    match b64url_decode_text(value) {
        Ok(bytes) => Ok(bytes),
        Err(_) => Err(CryptoError::InvalidEncoding),
    }
}

/// The bytes of `v` as an array of `N` bytes.
fn array_from_slice<const N: usize>(v: &[u8]) -> (r: [u8; N])
    requires
        v@.len() == N,
    ensures
        r@ == v@,
{
    let mut out: [u8; N] = array_fill_for_copy_types(0u8);
    let mut i: usize = 0;
    while i < N
        invariant
            v@.len() == N,
            out@.len() == N,
            i <= N,
            forall|j: int| 0 <= j < i ==> out@[j] == v@[j],
        decreases N - i,
    {
        out[i] = v[i];
        i = i + 1;
    }
    assert(out@ =~= v@);
    out
}

/// Decodes URL-safe unpadded base64 that must hold exactly `N` bytes.
pub fn decode_fixed<const N: usize>(value: &str) -> (r: Result<[u8; N], CryptoError>)
    ensures
        match r {
            Ok(a) => decode_fixed_spec(value@, N as nat) == Some(a@),
            Err(e) => decode_fixed_spec(value@, N as nat) is None && e == CryptoError::InvalidEncoding,
        },
{
    let bytes = decode_bytes(value)?;
    if bytes.len() != N {
        return Err(CryptoError::InvalidEncoding);
    }
    Ok(array_from_slice::<N>(bytes.as_slice()))
}

/// `N` bytes from the operating system's random source.
fn random_array<const N: usize>() -> (r: Result<[u8; N], CryptoError>)
    ensures
        r is Err ==> r == Err::<[u8; N], CryptoError>(CryptoError::RandomnessUnavailable),
{
    match random_bytes::<N>() {
        Ok(bytes) => Ok(bytes),
        Err(_) => Err(CryptoError::RandomnessUnavailable),
    }
}


/// Whether the cipher can seal a message of `len` bytes. Longer messages
/// are refused here: the cipher itself refuses most of them and panics on
/// the rest.
fn cipher_takes_message(len: usize) -> (r: bool)
    ensures
        r == xchacha_msg_len_ok(len as nat),
{
    (len as u64) <= 274_877_906_816u64
}

/// Whether the cipher can open a ciphertext of `len` bytes. Longer ones are
/// refused here: the cipher itself refuses most of them and panics on the
/// rest once their tag verifies.
fn cipher_takes_ciphertext(len: usize) -> (r: bool)
    ensures
        r == xchacha_ct_len_ok(len as nat),
{
    (len as u64) <= 274_877_906_832u64
}

// ---------------------------------------------------------------------
// Key derivation, wrapping and sealing.
// ---------------------------------------------------------------------

/// Derives the 32-byte wrapping key from the password and salt with
/// Argon2id v0x13. More than 0xFFFFFF lanes is refused before Argon2's own
/// parameter check, which would overflow computing eight blocks per lane
/// (Argon2 refuses that many lanes as well).
fn derive_wrapping_key(password: &str, salt: &[u8; SALT_LEN], kdf: KdfParams) -> (r: Result<[u8; ROOM_KEY_LEN], CryptoError>)
    ensures
        match r {
            Ok(k) => derive_spec(password@, salt@, kdf) == Ok::<Seq<u8>, CryptoError>(k@),
            Err(e) => derive_spec(password@, salt@, kdf) == Err::<Seq<u8>, CryptoError>(e),
        },
        r is Ok <==> kdf_accepts(password@, kdf),
        r matches Ok(k) ==> k@ == argon2id_hash(
            kdf.memory_cost_kib,
            kdf.time_cost,
            kdf.parallelism,
            encode_utf8(password@),
            salt@,
        ),
{
    if kdf.parallelism > 0xFF_FFFF {
        return Err(CryptoError::InvalidKdfParams);
    }
    let config = match argon2id_config(kdf.memory_cost_kib, kdf.time_cost, kdf.parallelism) {
        Ok(c) => c,
        Err(_) => return Err(CryptoError::InvalidKdfParams),
    };
    match argon2id_hash_into(&config, password.as_bytes(), salt.as_slice()) {
        Ok(out) => Ok(out),
        Err(_) => Err(CryptoError::InvalidKdfParams),
    }
}

/// Wraps `room_key` under the key that `password` and `salt` derive, with
/// `wrap_nonce`, and returns the room's metadata. Fails only where Argon2
/// refuses the costs or the password; a password that unlocks the metadata
/// then recovers `room_key`.
pub fn seal_room_key(
    password: &str,
    kdf: KdfParams,
    salt: &[u8; SALT_LEN],
    wrap_nonce: &[u8; NONCE_LEN],
    room_key: &RoomKey,
) -> (r: Result<RoomMeta, CryptoError>)
    ensures
        r is Ok <==> derive_spec(password@, salt@, kdf) is Ok,
        r is Err ==> r == Err::<RoomMeta, CryptoError>(CryptoError::InvalidKdfParams),
        r is Ok <==> kdf_accepts(password@, kdf),
        r matches Ok(m) ==> wrapped_meta(kdf, salt@, wrap_nonce@, derive_spec(password@, salt@, kdf)->Ok_0, room_key@, m),
        r matches Ok(m) ==> wrapped_meta(
            kdf,
            salt@,
            wrap_nonce@,
            argon2id_hash(kdf.memory_cost_kib, kdf.time_cost, kdf.parallelism, encode_utf8(password@), salt@),
            room_key@,
            m,
        ),
        r matches Ok(m) ==> !password_is_blank(password@) ==> unlock_spec(password@, m) == Ok::<Seq<u8>, CryptoError>(room_key@),
{
    let mut wrapping_key = derive_wrapping_key(password, salt, kdf)?;
    let no_aad: [u8; 0] = [];
    let wrapped = match xchacha_encrypt(&wrapping_key, wrap_nonce, no_aad.as_slice(), room_key.0.as_slice()) {
        Ok(c) => c,
        Err(_) => return Err(CryptoError::AuthenticationFailed),
    };
    let ghost derived = wrapping_key@;
    zeroize_key(&mut wrapping_key);
    let meta = RoomMeta {
        schema_version: SCHEMA_VERSION,
        kdf,
        kdf_salt_b64: b64url_encode_bytes(salt.as_slice()),
        wrapped_room_key_nonce_b64: b64url_encode_bytes(wrap_nonce.as_slice()),
        wrapped_room_key_b64: b64url_encode_bytes(wrapped.as_slice()),
    };
    proof {
        assert(no_aad@ =~= Seq::<u8>::empty());
        assert(decode_fixed_spec(meta.kdf_salt_b64@, SALT_LEN as nat) == Some(salt@));
        assert(decode_fixed_spec(meta.wrapped_room_key_nonce_b64@, NONCE_LEN as nat) == Some(wrap_nonce@));
    }
    Ok(meta)
}

/// Seals `plaintext` under `room_key` with `nonce`, binding `version` as
/// associated data. Fails only on texts too long for the cipher; the
/// envelope then opens to `plaintext` under the same key.
pub fn seal_clipboard(room_key: &RoomKey, plaintext: &str, version: u64, nonce: &[u8; NONCE_LEN]) -> (r: Result<CipherEnvelope, CryptoError>)
    ensures
        r is Ok <==> xchacha_msg_len_ok(encode_utf8(plaintext@).len()),
        r is Err ==> r == Err::<CipherEnvelope, CryptoError>(CryptoError::AuthenticationFailed),
        r matches Ok(e) ==> sealed_envelope(room_key@, plaintext@, version, nonce@, e),
        r matches Ok(e) ==> decrypt_spec(room_key@, e) == Ok::<Seq<char>, CryptoError>(plaintext@),
{
    let message = plaintext.as_bytes();
    if !cipher_takes_message(message.len()) {
        return Err(CryptoError::AuthenticationFailed);
    }
    let aad = u64_to_be_bytes(version);
    let ciphertext = match xchacha_encrypt(&room_key.0, nonce, aad.as_slice(), message) {
        Ok(c) => c,
        Err(_) => return Err(CryptoError::AuthenticationFailed),
    };
    let envelope = CipherEnvelope {
        version,
        nonce_b64: b64url_encode_bytes(nonce.as_slice()),
        ciphertext_b64: b64url_encode_bytes(ciphertext.as_slice()),
    };
    proof {
        vstd::utf8::encode_utf8_valid_utf8(plaintext@);
        vstd::utf8::encode_utf8_decode_utf8(plaintext@);
        assert(decode_fixed_spec(envelope.nonce_b64@, NONCE_LEN as nat) == Some(nonce@));
    }
    Ok(envelope)
}

/// Seals `plaintext` under `room_key` with a fresh random nonce.
pub fn encrypt_clipboard(room_key: &RoomKey, plaintext: &str, version: u64) -> (r: Result<CipherEnvelope, CryptoError>)
    ensures
        xchacha_msg_len_ok(encode_utf8(plaintext@).len()) ==> (r is Ok || r == Err::<CipherEnvelope, CryptoError>(CryptoError::RandomnessUnavailable)),
        r matches Err(e) ==> e == CryptoError::RandomnessUnavailable
            || (e == CryptoError::AuthenticationFailed && !xchacha_msg_len_ok(encode_utf8(plaintext@).len())),
        r matches Ok(e) ==> (exists|nonce: Seq<u8>| nonce.len() == NONCE_LEN && #[trigger] sealed_envelope(room_key@, plaintext@, version, nonce, e)),
        r matches Ok(e) ==> decrypt_spec(room_key@, e) == Ok::<Seq<char>, CryptoError>(plaintext@),
{
    let nonce = random_array::<NONCE_LEN>()?;
    seal_clipboard(room_key, plaintext, version, &nonce)
}

/// Opens an envelope with the room key and returns the clipboard text.
pub fn decrypt_clipboard(room_key: &RoomKey, envelope: &CipherEnvelope) -> (r: Result<String, CryptoError>)
    ensures
        match r {
            Ok(s) => decrypt_spec(room_key@, *envelope) == Ok::<Seq<char>, CryptoError>(s@),
            Err(e) => decrypt_spec(room_key@, *envelope) == Err::<Seq<char>, CryptoError>(e),
        },
{
    let nonce = decode_fixed::<NONCE_LEN>(envelope.nonce_b64.as_str())?;
    let ciphertext = decode_bytes(envelope.ciphertext_b64.as_str())?;
    if !cipher_takes_ciphertext(ciphertext.len()) {
        return Err(CryptoError::AuthenticationFailed);
    }
    let aad = u64_to_be_bytes(envelope.version);
    let plaintext = match xchacha_decrypt(&room_key.0, &nonce, aad.as_slice(), ciphertext.as_slice()) {
        Ok(p) => p,
        Err(_) => return Err(CryptoError::AuthenticationFailed),
    };
    match string_from_utf8(plaintext) {
        Ok(s) => Ok(s),
        Err(_) => Err(CryptoError::InvalidUtf8),
    }
}

/// Recovers a room's key from its metadata with the room password.
pub fn unlock_room_key(password: &str, meta: &RoomMeta) -> (r: Result<RoomKey, CryptoError>)
    ensures
        match r {
            Ok(k) => unlock_spec(password@, *meta) == Ok::<Seq<u8>, CryptoError>(k@),
            Err(e) => unlock_spec(password@, *meta) == Err::<Seq<u8>, CryptoError>(e),
        },
{
    ensure_password(password)?;
    validate_schema(meta.schema_version)?;

    let salt = decode_fixed::<SALT_LEN>(meta.kdf_salt_b64.as_str())?;
    let wrap_nonce = decode_fixed::<NONCE_LEN>(meta.wrapped_room_key_nonce_b64.as_str())?;
    let wrapped_room_key = decode_bytes(meta.wrapped_room_key_b64.as_str())?;

    let mut wrapping_key = derive_wrapping_key(password, &salt, meta.kdf)?;
    let no_aad: [u8; 0] = [];
    proof {
        assert(no_aad@ =~= Seq::<u8>::empty());
    }
    if !cipher_takes_ciphertext(wrapped_room_key.len()) {
        return Err(CryptoError::AuthenticationFailed);
    }
    let room_key = match xchacha_decrypt(&wrapping_key, &wrap_nonce, no_aad.as_slice(), wrapped_room_key.as_slice()) {
        Ok(k) => k,
        Err(_) => return Err(CryptoError::AuthenticationFailed),
    };
    zeroize_key(&mut wrapping_key);

    if room_key.len() != ROOM_KEY_LEN {
        return Err(CryptoError::AuthenticationFailed);
    }
    Ok(RoomKey(array_from_slice::<ROOM_KEY_LEN>(room_key.as_slice())))
}

/// Creates a room: draws a salt, a wrapping nonce and a room key at random,
/// wraps the key under the password and seals `plaintext` as version 1.
/// The password then unlocks the metadata to the returned key, and that
/// key opens the envelope to `plaintext`.
pub fn create_room(password: &str, plaintext: &str, kdf: KdfParams) -> (r: Result<CreatedRoom, CryptoError>)
    ensures
        password_is_blank(password@) ==> r == Err::<CreatedRoom, CryptoError>(CryptoError::EmptyPassword),
        !password_is_blank(password@) && kdf_accepts(password@, kdf)
            && xchacha_msg_len_ok(encode_utf8(plaintext@).len())
            ==> (r is Ok || r == Err::<CreatedRoom, CryptoError>(CryptoError::RandomnessUnavailable)),
        r matches Err(e) ==> {
            ||| e == CryptoError::EmptyPassword && password_is_blank(password@)
            ||| e == CryptoError::RandomnessUnavailable
            ||| e == CryptoError::InvalidKdfParams && !kdf_accepts(password@, kdf)
            ||| e == CryptoError::AuthenticationFailed && !xchacha_msg_len_ok(encode_utf8(plaintext@).len())
        },
        r matches Ok(c) ==> {
            &&& c.meta.schema_version == SCHEMA_VERSION
            &&& c.meta.kdf == kdf
            &&& c.envelope.version == 1
            &&& unlock_spec(password@, c.meta) == Ok::<Seq<u8>, CryptoError>(c.room_key@)
            &&& decrypt_spec(c.room_key@, c.envelope) == Ok::<Seq<char>, CryptoError>(plaintext@)
            &&& exists|salt: Seq<u8>, wrap_nonce: Seq<u8>, room_key: Seq<u8>, nonce: Seq<u8>|
                #[trigger] created_from(password@, plaintext@, kdf, salt, wrap_nonce, room_key, nonce, c)
        },
{
    ensure_password(password)?;

    let salt = random_array::<SALT_LEN>()?;
    let wrap_nonce = random_array::<NONCE_LEN>()?;
    let room_key_bytes = random_array::<ROOM_KEY_LEN>()?;
    let room_key = RoomKey(room_key_bytes);

    let meta = seal_room_key(password, kdf, &salt, &wrap_nonce, &room_key)?;
    let envelope = encrypt_clipboard(&room_key, plaintext, 1)?;

    let created = CreatedRoom { meta, envelope, room_key };
    proof {
        let nonce = choose|nonce: Seq<u8>|
            nonce.len() == NONCE_LEN && #[trigger] sealed_envelope(room_key_bytes@, plaintext@, 1, nonce, created.envelope);
        assert(created_from(password@, plaintext@, kdf, salt@, wrap_nonce@, room_key_bytes@, nonce, created));
    }
    Ok(created)
}

} // verus!
