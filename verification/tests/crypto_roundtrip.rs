use secopy::crypto::{
    cipher_suite_label, create_room, decode_bytes, decode_fixed, decrypt_clipboard,
    encrypt_clipboard, ensure_password, seal_clipboard, unlock_room_key, validate_schema,
    CipherEnvelope, CryptoError, KdfParams, RoomMeta,
};
use base64::Engine;
use chacha20poly1305::aead::{Aead, KeyInit, Payload};
use chacha20poly1305::{Key, XChaCha20Poly1305, XNonce};

fn b64url_encode_bytes(bytes: &[u8]) -> String {
    base64::engine::general_purpose::URL_SAFE_NO_PAD.encode(bytes)
}

fn xchacha_encrypt(key: &[u8; 32], nonce: &[u8; 24], aad: &[u8], msg: &[u8]) -> Vec<u8> {
    XChaCha20Poly1305::new(Key::from_slice(key))
        .encrypt(XNonce::from_slice(nonce), Payload { msg, aad })
        .expect("short messages seal")
}

fn argon2id_32(kdf: KdfParams, password: &[u8], salt: &[u8]) -> [u8; 32] {
    let params = argon2::Params::new(kdf.memory_cost_kib, kdf.time_cost, kdf.parallelism, Some(32))
        .expect("costs are valid");
    let mut out = [0u8; 32];
    argon2::Argon2::new(argon2::Algorithm::Argon2id, argon2::Version::V0x13, params)
        .hash_password_into(password, salt, &mut out)
        .expect("inputs are valid");
    out
}

#[test]
fn room_roundtrip_succeeds() {
    let created = create_room("shared secret", "hello world", KdfParams::testing())
        .expect("room should encrypt");
    let unlocked =
        unlock_room_key("shared secret", &created.meta).expect("room key should unwrap");
    let decrypted =
        decrypt_clipboard(&unlocked, &created.envelope).expect("ciphertext should decrypt");

    assert_eq!(decrypted, "hello world");
}

#[test]
fn wrong_password_fails() {
    let created = create_room("shared secret", "hello world", KdfParams::testing())
        .expect("room should encrypt");

    let error = match unlock_room_key("not the secret", &created.meta) {
        Ok(_) => panic!("wrong password must fail"),
        Err(error) => error,
    };

    assert!(matches!(error, CryptoError::AuthenticationFailed));
}

#[test]
fn kdf_presets_have_documented_costs() {
    let interactive = KdfParams::interactive();
    assert_eq!(interactive.memory_cost_kib, 19_456);
    assert_eq!(interactive.time_cost, 2);
    assert_eq!(interactive.parallelism, 1);
    let testing = KdfParams::testing();
    assert_eq!(testing.memory_cost_kib, 64);
    assert_eq!(testing.time_cost, 1);
    assert_eq!(testing.parallelism, 1);
}

#[test]
fn cipher_suite_label_names_both_primitives() {
    assert_eq!(cipher_suite_label(), "Argon2id + XChaCha20-Poly1305");
}

#[test]
fn blank_passwords_are_refused() {
    assert_eq!(ensure_password(""), Err(CryptoError::EmptyPassword));
    assert_eq!(ensure_password("   "), Err(CryptoError::EmptyPassword));
    assert_eq!(ensure_password("\t\n\u{3000}"), Err(CryptoError::EmptyPassword));
    assert_eq!(ensure_password("  x  "), Ok(()));
    assert_eq!(ensure_password("secret"), Ok(()));
    let created = create_room(" \t ", "hello", KdfParams::testing());
    assert!(matches!(created, Err(CryptoError::EmptyPassword)));
}

#[test]
fn schema_version_must_be_one() {
    assert_eq!(validate_schema(1), Ok(()));
    assert_eq!(validate_schema(0), Err(CryptoError::InvalidEncoding));
    assert_eq!(validate_schema(2), Err(CryptoError::InvalidEncoding));

    let created = create_room("pw", "hello", KdfParams::testing()).expect("room should encrypt");
    let mut meta = created.meta.clone();
    meta.schema_version = 2;
    assert!(matches!(unlock_room_key("pw", &meta), Err(CryptoError::InvalidEncoding)));
}

#[test]
fn invalid_kdf_params_are_refused() {
    let too_little_memory = KdfParams { memory_cost_kib: 4, time_cost: 1, parallelism: 1 };
    assert!(matches!(
        create_room("pw", "hello", too_little_memory),
        Err(CryptoError::InvalidKdfParams)
    ));
    let no_passes = KdfParams { memory_cost_kib: 64, time_cost: 0, parallelism: 1 };
    assert!(matches!(create_room("pw", "hello", no_passes), Err(CryptoError::InvalidKdfParams)));
    let memory_per_lane = KdfParams { memory_cost_kib: 15, time_cost: 1, parallelism: 2 };
    assert!(matches!(
        create_room("pw", "hello", memory_per_lane),
        Err(CryptoError::InvalidKdfParams)
    ));
}

#[test]
fn base64_decoding_checks_alphabet_and_length() {
    assert_eq!(decode_bytes("aGk").expect("valid base64"), b"hi".to_vec());
    assert_eq!(decode_bytes("-_8").expect("url-safe alphabet"), vec![0xfb, 0xff]);
    assert_eq!(decode_bytes("aGk="), Err(CryptoError::InvalidEncoding));
    assert_eq!(decode_bytes("a+k"), Err(CryptoError::InvalidEncoding));
    assert_eq!(decode_fixed::<2>("aGk"), Ok(*b"hi"));
    assert_eq!(decode_fixed::<3>("aGk"), Err(CryptoError::InvalidEncoding));
    assert_eq!(b64url_encode_bytes(&[0xfb, 0xff]), "-_8");
}

#[test]
fn envelopes_are_bound_to_their_version() {
    let created = create_room("pw", "hello", KdfParams::testing()).expect("room should encrypt");
    let key = unlock_room_key("pw", &created.meta).expect("room key should unwrap");
    let envelope = encrypt_clipboard(&key, "second text", 7).expect("should encrypt");
    assert_eq!(envelope.version, 7);
    assert_eq!(decrypt_clipboard(&key, &envelope).expect("should decrypt"), "second text");

    let mut replayed = envelope.clone();
    replayed.version = 8;
    assert_eq!(decrypt_clipboard(&key, &replayed), Err(CryptoError::AuthenticationFailed));
}

#[test]
fn sealing_with_a_given_nonce_is_deterministic() {
    let created = create_room("pw", "hello", KdfParams::testing()).expect("room should encrypt");
    let key = created.room_key;
    let nonce = [7u8; 24];
    let a = seal_clipboard(&key, "same text", 3, &nonce).expect("should seal");
    let b = seal_clipboard(&key, "same text", 3, &nonce).expect("should seal");
    assert_eq!(a, b);
    assert_eq!(a.nonce_b64, b64url_encode_bytes(&nonce));
    assert_ne!(a.ciphertext_b64, b64url_encode_bytes(b"same text"));
    assert_eq!(decrypt_clipboard(&key, &a).expect("should open"), "same text");
}

#[test]
fn malformed_envelopes_are_refused() {
    let created = create_room("pw", "hello", KdfParams::testing()).expect("room should encrypt");
    let key = created.room_key;

    let mut short_nonce = created.envelope.clone();
    short_nonce.nonce_b64 = b64url_encode_bytes(&[1u8; 12]);
    assert_eq!(decrypt_clipboard(&key, &short_nonce), Err(CryptoError::InvalidEncoding));

    let mut bad_ciphertext = created.envelope.clone();
    bad_ciphertext.ciphertext_b64 = "not base64!".to_string();
    assert_eq!(decrypt_clipboard(&key, &bad_ciphertext), Err(CryptoError::InvalidEncoding));

    let mut tampered = created.envelope.clone();
    tampered.ciphertext_b64 = b64url_encode_bytes(&[0u8; 40]);
    assert_eq!(decrypt_clipboard(&key, &tampered), Err(CryptoError::AuthenticationFailed));
}

#[test]
fn non_utf8_plaintext_is_refused() {
    // Wrap a known room key by hand, so that an envelope holding bytes that
    // are not UTF-8 can be sealed under it.
    let salt = [5u8; 16];
    let wrap_nonce = [6u8; 24];
    let room_key_bytes = [3u8; 32];
    let kdf = KdfParams::testing();
    let wrapping_key = argon2id_32(kdf, "pw".as_bytes(), &salt);
    let wrapped = xchacha_encrypt(&wrapping_key, &wrap_nonce, &[], &room_key_bytes);
    let meta = RoomMeta {
        schema_version: 1,
        kdf,
        kdf_salt_b64: b64url_encode_bytes(&salt),
        wrapped_room_key_nonce_b64: b64url_encode_bytes(&wrap_nonce),
        wrapped_room_key_b64: b64url_encode_bytes(&wrapped),
    };
    let key = unlock_room_key("pw", &meta).expect("hand-wrapped key unwraps");

    let nonce = [9u8; 24];
    let sealed = xchacha_encrypt(&room_key_bytes, &nonce, &5u64.to_be_bytes(), &[0xff, 0xfe]);
    let envelope = CipherEnvelope {
        version: 5,
        nonce_b64: b64url_encode_bytes(&nonce),
        ciphertext_b64: b64url_encode_bytes(&sealed),
    };
    assert_eq!(decrypt_clipboard(&key, &envelope), Err(CryptoError::InvalidUtf8));

    let text = xchacha_encrypt(&room_key_bytes, &nonce, &5u64.to_be_bytes(), "ok".as_bytes());
    let readable = CipherEnvelope { ciphertext_b64: b64url_encode_bytes(&text), ..envelope };
    assert_eq!(decrypt_clipboard(&key, &readable).expect("valid text opens"), "ok");

    // Sealing under the unwrapped key gives exactly the cipher's output.
    let sealed = seal_clipboard(&key, "same", 3, &nonce).expect("short text seals");
    assert_eq!(sealed.version, 3);
    assert_eq!(sealed.nonce_b64, b64url_encode_bytes(&nonce));
    assert_eq!(
        sealed.ciphertext_b64,
        b64url_encode_bytes(&xchacha_encrypt(&room_key_bytes, &nonce, &3u64.to_be_bytes(), b"same"))
    );
}

#[test]
fn error_messages_match_their_variants() {
    assert_eq!(CryptoError::EmptyPassword.message(), "password must not be empty");
    assert_eq!(CryptoError::InvalidKdfParams.message(), "invalid or unsupported KDF parameters");
    assert_eq!(CryptoError::RandomnessUnavailable.message(), "randomness unavailable");
    assert_eq!(CryptoError::AuthenticationFailed.message(), "ciphertext failed authentication");
    assert_eq!(CryptoError::InvalidEncoding.message(), "encoded value is invalid");
    assert_eq!(CryptoError::InvalidUtf8.message(), "plaintext is not valid UTF-8");
}

#[test]
fn unicode_text_roundtrips() {
    let text = "größer als 🦀 — 世界";
    let created = create_room("pässwörd", text, KdfParams::testing()).expect("room should encrypt");
    let key = unlock_room_key("pässwörd", &created.meta).expect("room key should unwrap");
    assert_eq!(decrypt_clipboard(&key, &created.envelope).expect("should decrypt"), text);
    assert_eq!(created.meta.kdf, KdfParams::testing());
    assert_eq!(created.meta.schema_version, 1);
    assert_eq!(created.envelope.version, 1);
}

#[test]
fn the_same_draws_give_the_same_uploads() {
    let created = create_room("pw", "hello", KdfParams::testing()).expect("room should encrypt");
    let key = created.room_key;
    let salt = [1u8; 16];
    let wrap_nonce = [2u8; 24];
    let nonce = [4u8; 24];
    let meta_a = secopy::crypto::seal_room_key("pw", KdfParams::testing(), &salt, &wrap_nonce, &key)
        .expect("wraps");
    let meta_b = secopy::crypto::seal_room_key("pw", KdfParams::testing(), &salt, &wrap_nonce, &key)
        .expect("wraps");
    assert_eq!(meta_a, meta_b);
    let meta_other = secopy::crypto::seal_room_key("other", KdfParams::testing(), &salt, &wrap_nonce, &key)
        .expect("wraps");
    assert_eq!(meta_other.kdf_salt_b64, meta_a.kdf_salt_b64);
    assert_ne!(meta_other.wrapped_room_key_b64, meta_a.wrapped_room_key_b64);
    let env_a = seal_clipboard(&key, "text", 1, &nonce).expect("seals");
    let env_b = seal_clipboard(&key, "text", 1, &nonce).expect("seals");
    assert_eq!(env_a, env_b);
    let unlocked = unlock_room_key("pw", &meta_a).expect("unwraps");
    assert_eq!(decrypt_clipboard(&unlocked, &env_a).expect("opens"), "text");
}

#[test]
fn ciphertexts_are_sixteen_bytes_longer_than_the_text() {
    let created = create_room("pw", "hello", KdfParams::testing()).expect("room should encrypt");
    let ct = decode_bytes(&created.envelope.ciphertext_b64).expect("valid base64");
    assert_eq!(ct.len(), "hello".len() + 16);
    let wrapped = decode_bytes(&created.meta.wrapped_room_key_b64).expect("valid base64");
    assert_eq!(wrapped.len(), 32 + 16);
}

#[test]
fn an_erased_key_opens_nothing() {
    let created = create_room("pw", "hello", KdfParams::testing()).expect("room should encrypt");
    let mut key = created.room_key.clone();
    assert_eq!(decrypt_clipboard(&key, &created.envelope).expect("opens"), "hello");
    key.erase();
    assert_eq!(decrypt_clipboard(&key, &created.envelope), Err(CryptoError::AuthenticationFailed));
    assert_eq!(decrypt_clipboard(&created.room_key, &created.envelope).expect("copy untouched"), "hello");
}
