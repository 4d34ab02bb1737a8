//! The browser side of a room: creating one from the landing page, and the
//! session of the room page (unlocking, sending updates, receiving live
//! updates). The page itself renders the state and performs the requests.
use vstd::prelude::*;
use vstd::utf8::*;
use vstd::string::StringExecFns;
use crate::crypto::{
    create_room, created_from, decrypt_clipboard, decrypt_spec, derive_spec, encrypt_clipboard,
    ensure_password, kdf_accepts, password_is_blank, sealed_envelope, unlock_room_key, unlock_spec,
    wrapped_meta, CipherEnvelope, CryptoError, KdfParams, RoomKey, RoomMeta, NONCE_LEN,
    ROOM_KEY_LEN, SALT_LEN,
};
use crate::primitives::xchacha_msg_len_ok;
use crate::protocol::{ClipboardEvent, CreateRoomRequest, GetRoomResponse, UpdateClipboardResponse};

verus! {

/// What opening a room with a password gives: its key and its clipboard.
pub open spec fn open_room_spec(password: Seq<char>, meta: RoomMeta, envelope: CipherEnvelope) -> Result<(Seq<u8>, Seq<char>), CryptoError> {
    match unlock_spec(password, meta) {
        Err(e) => Err(e),
        Ok(key) => match decrypt_spec(key, envelope) {
            Err(e) => Err(e),
            Ok(text) => Ok((key, text)),
        },
    }
}

/// The path of a room's page.
pub fn room_href(room_id: &str) -> (r: String)
    ensures
        r@ == "/r/"@ + room_id@,
{
    let mut href = String::from_str("/r/");
    href.append(room_id);
    href
}

/// Encrypts a new room's first clipboard text under `password` with the
/// interactive costs, and returns what to upload. Whoever knows the
/// password opens what was uploaded to `text`.
pub fn new_room_request(password: &str, text: &str) -> (r: Result<CreateRoomRequest, CryptoError>)
    ensures
        password_is_blank(password@) ==> r == Err::<CreateRoomRequest, CryptoError>(CryptoError::EmptyPassword),
        !password_is_blank(password@) && kdf_accepts(password@, KdfParams::interactive_spec())
            && xchacha_msg_len_ok(encode_utf8(text@).len())
            ==> (r is Ok || r == Err::<CreateRoomRequest, CryptoError>(CryptoError::RandomnessUnavailable)),
        r matches Err(e) ==> {
            ||| e == CryptoError::EmptyPassword && password_is_blank(password@)
            ||| e == CryptoError::RandomnessUnavailable
            ||| e == CryptoError::InvalidKdfParams && !kdf_accepts(password@, KdfParams::interactive_spec())
            ||| e == CryptoError::AuthenticationFailed && !xchacha_msg_len_ok(encode_utf8(text@).len())
        },
        r matches Ok(req) ==> {
            &&& req.envelope.version == 1
            &&& req.meta.kdf == KdfParams::interactive_spec()
            &&& open_room_spec(password@, req.meta, req.envelope) matches Ok((_, opened)) && opened == text@
            &&& exists|salt: Seq<u8>, wrap_nonce: Seq<u8>, room_key: Seq<u8>, nonce: Seq<u8>|
                #[trigger] uploaded_from(password@, text@, salt, wrap_nonce, room_key, nonce, req)
        },
{
    let created = create_room(password, text, KdfParams::interactive())?;
    let request = CreateRoomRequest { meta: created.meta, envelope: created.envelope };
    proof {
        let (salt, wrap_nonce, room_key, nonce) = choose|salt: Seq<u8>, wrap_nonce: Seq<u8>, room_key: Seq<u8>, nonce: Seq<u8>|
            #[trigger] created_from(password@, text@, KdfParams::interactive_spec(), salt, wrap_nonce, room_key, nonce, created);
        assert(uploaded_from(password@, text@, salt, wrap_nonce, room_key, nonce, request));
    }
    Ok(request)
}

/// `req` is what a password and text give with the interactive costs and
/// the drawn salt, wrapping nonce, room key and clipboard nonce.
pub open spec fn uploaded_from(
    password: Seq<char>,
    text: Seq<char>,
    salt: Seq<u8>,
    wrap_nonce: Seq<u8>,
    room_key: Seq<u8>,
    nonce: Seq<u8>,
    req: CreateRoomRequest,
) -> bool {
    &&& salt.len() == SALT_LEN
    &&& wrap_nonce.len() == NONCE_LEN
    &&& room_key.len() == ROOM_KEY_LEN
    &&& nonce.len() == NONCE_LEN
    &&& derive_spec(password, salt, KdfParams::interactive_spec()) is Ok
    &&& wrapped_meta(
        KdfParams::interactive_spec(),
        salt,
        wrap_nonce,
        derive_spec(password, salt, KdfParams::interactive_spec())->Ok_0,
        room_key,
        req.meta,
    )
    &&& sealed_envelope(room_key, text, 1, nonce, req.envelope)
}

/// Why a room page action did not go through.
#[derive(Clone, Copy, Debug, PartialEq, Eq, Structural)]
pub enum SessionError {
    /// The password field is blank.
    PasswordRequired,
    /// The room has not been unlocked.
    Locked,
    /// Unlocking, encrypting or decrypting failed.
    Crypto(CryptoError),
    /// A live update is not newer than the version already seen: a replay,
    /// a rollback, or this page's own update coming back.
    Stale { seen: u64, received: u64 },
}

/// The state of a room page: the room key once unlocked, and the version of
/// the clipboard last seen.
pub struct RoomSession {
    room_key: Option<RoomKey>,
    version: u64,
}

impl RoomSession {
    /// The unlocked room key.
    pub closed spec fn key(&self) -> Option<Seq<u8>> {
        match self.room_key {
            Some(k) => Some(k@),
            None => None,
        }
    }

    /// The version of the clipboard last seen.
    pub closed spec fn seen_version(&self) -> u64 {
        self.version
    }

    /// A locked page that has seen no version.
    pub fn new() -> (r: Self)
        ensures
            r.key() is None,
            r.seen_version() == 0,
    {
        RoomSession { room_key: None, version: 0 }
    }

    pub fn is_unlocked(&self) -> (r: bool)
        ensures
            r == self.key() is Some,
    {
        self.room_key.is_some()
    }

    pub fn version(&self) -> (r: u64)
        ensures
            r == self.seen_version(),
    {
        self.version
    }

    /// Erases and forgets the room key.
    pub fn lock(&mut self)
        ensures
            final(self).key() is None,
            final(self).seen_version() == old(self).seen_version(),
    {
        if let Some(mut key) = self.room_key.take() {
            key.erase();
        }
    }

    /// Checks the password before the room is fetched: a blank one locks
    /// the page.
    pub fn check_password(&mut self, password: &str) -> (r: Result<(), SessionError>)
        ensures
            r is Ok <==> !password_is_blank(password@),
            r is Err ==> r == Err::<(), SessionError>(SessionError::PasswordRequired) && final(self).key() is None,
            r is Ok ==> final(self).key() == old(self).key(),
            final(self).seen_version() == old(self).seen_version(),
    {
        match ensure_password(password) {
            Ok(()) => Ok(()),
            Err(_) => {
                self.lock();
                Err(SessionError::PasswordRequired)
            },
        }
    }

    /// Opens a fetched room with the password: on success the page holds the
    /// room key, has seen the envelope's version and shows the returned
    /// text; on failure it is locked.
    pub fn unlock(&mut self, password: &str, snapshot: &GetRoomResponse) -> (r: Result<String, SessionError>)
        ensures
            match open_room_spec(password@, snapshot.meta, snapshot.envelope) {
                Ok((key, text)) => {
                    &&& r matches Ok(shown) && shown@ == text
                    &&& final(self).key() == Some(key)
                    &&& final(self).seen_version() == snapshot.envelope.version
                },
                Err(e) => {
                    &&& r == Err::<String, SessionError>(SessionError::Crypto(e))
                    &&& final(self).key() is None
                    &&& final(self).seen_version() == old(self).seen_version()
                },
            },
    {
        let key = match unlock_room_key(password, &snapshot.meta) {
            Ok(k) => k,
            Err(e) => {
                self.lock();
                return Err(SessionError::Crypto(e));
            },
        };
        let text = match decrypt_clipboard(&key, &snapshot.envelope) {
            Ok(t) => t,
            Err(e) => {
                self.lock();
                return Err(SessionError::Crypto(e));
            },
        };
        self.lock();
        self.version = snapshot.envelope.version;
        self.room_key = Some(key);
        Ok(text)
    }

    /// Seals `plaintext` as the next version (one past the last seen,
    /// saturating) under the room key. The envelope opens to `plaintext`
    /// under that key.
    pub fn prepare_update(&self, plaintext: &str) -> (r: Result<CipherEnvelope, SessionError>)
        ensures
            self.key() is None ==> r == Err::<CipherEnvelope, SessionError>(SessionError::Locked),
            self.key() is Some && xchacha_msg_len_ok(encode_utf8(plaintext@).len())
                ==> (r is Ok || r == Err::<CipherEnvelope, SessionError>(SessionError::Crypto(CryptoError::RandomnessUnavailable))),
            r matches Err(SessionError::Locked) ==> self.key() is None,
            r matches Err(e) ==> {
                ||| e == SessionError::Locked
                ||| e == SessionError::Crypto(CryptoError::RandomnessUnavailable)
                ||| e == SessionError::Crypto(CryptoError::AuthenticationFailed)
                    && !xchacha_msg_len_ok(encode_utf8(plaintext@).len())
            },
            r matches Ok(e) ==> {
                &&& self.key() is Some
                &&& e.version == (if self.seen_version() == u64::MAX { u64::MAX } else { (self.seen_version() + 1) as u64 })
                &&& decrypt_spec(self.key()->0, e) == Ok::<Seq<char>, CryptoError>(plaintext@)
            },
    {
        let key = match &self.room_key {
            Some(k) => k,
            None => return Err(SessionError::Locked),
        };
        let next_version = self.version.saturating_add(1);
        match encrypt_clipboard(key, plaintext, next_version) {
            Ok(envelope) => Ok(envelope),
            Err(e) => Err(SessionError::Crypto(e)),
        }
    }

    /// Records the version the server acknowledged.
    pub fn confirm_update(&mut self, response: &UpdateClipboardResponse)
        ensures
            final(self).seen_version() == response.version,
            final(self).key() == old(self).key(),
    {
        self.version = response.version;
    }

    /// Opens a live update with the room key. An update whose version is
    /// not above the version already seen is refused as stale. On success
    /// the page has seen the update's version and shows the returned text;
    /// on any failure the text is not shown and nothing changes.
    pub fn receive(&mut self, event: &ClipboardEvent) -> (r: Result<String, SessionError>)
        ensures
            final(self).key() == old(self).key(),
            r is Err ==> final(self).seen_version() == old(self).seen_version(),
            old(self).key() is None ==> r == Err::<String, SessionError>(SessionError::Locked),
            old(self).key() is Some && event.envelope.version <= old(self).seen_version() ==> r
                == Err::<String, SessionError>(
                SessionError::Stale { seen: old(self).seen_version(), received: event.envelope.version },
            ),
            event.envelope.version > old(self).seen_version() ==> (old(self).key() matches Some(key)
                ==> match decrypt_spec(key, event.envelope) {
                Ok(text) => r matches Ok(shown) && shown@ == text && final(self).seen_version() == event.envelope.version,
                Err(e) => r == Err::<String, SessionError>(SessionError::Crypto(e)),
            }),
    {
        let text = match &self.room_key {
            Some(key) => {
                if event.envelope.version <= self.version {
                    return Err(SessionError::Stale { seen: self.version, received: event.envelope.version });
                }
                match decrypt_clipboard(key, &event.envelope) {
                    Ok(t) => t,
                    Err(e) => return Err(SessionError::Crypto(e)),
                }
            },
            None => return Err(SessionError::Locked),
        };
        self.version = event.envelope.version;
        Ok(text)
    }
}

} // verus!
