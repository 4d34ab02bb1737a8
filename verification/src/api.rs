//! The server's decisions: room ids, request validation, what each request
//! stores, publishes and answers, and how a room's event stream proceeds.
//! The server itself (routing, storage calls, channels) runs them.
use vstd::prelude::*;
use vstd::utf8::*;
use vstd::string::StrSliceExecFns;
use crate::crypto::CipherEnvelope;
use crate::primitives::string_from_utf8;
use crate::protocol::{ClipboardEvent, CreateRoomRequest, CreateRoomResponse, GetRoomResponse, UpdateClipboardResponse};
use crate::store::StoredRoom;

verus! {

/// How long a room lives without writes: one day.
pub const DEFAULT_ROOM_TTL_SECS: u64 = 86_400;

/// The number of characters in a room id.
pub const ROOM_ID_LEN: usize = 10;

/// The HTTP statuses the API answers with.
#[derive(Clone, Copy, Debug, PartialEq, Eq, Structural)]
pub enum ApiStatus {
    Success,
    Created,
    NotFound,
    UnprocessableEntity,
    InternalServerError,
}

pub open spec fn status_code(s: ApiStatus) -> u16 {
    match s {
        ApiStatus::Success => 200,
        ApiStatus::Created => 201,
        ApiStatus::NotFound => 404,
        ApiStatus::UnprocessableEntity => 422,
        ApiStatus::InternalServerError => 500,
    }
}

impl ApiStatus {
    /// The numeric HTTP status code.
    pub fn code(&self) -> (r: u16)
        ensures
            r == status_code(*self),
    {
        match self {
            ApiStatus::Success => 200,
            ApiStatus::Created => 201,
            ApiStatus::NotFound => 404,
            ApiStatus::UnprocessableEntity => 422,
            ApiStatus::InternalServerError => 500,
        }
    }
}

// ---------------------------------------------------------------------
// Room ids.
// ---------------------------------------------------------------------

/// The 57 characters of room ids: letters and digits without the easily
/// confused `I`, `O`, `l`, `0` and `1`.
pub open spec fn room_id_alphabet() -> Seq<u8> {
    seq![
        'A' as u8, 'B' as u8, 'C' as u8, 'D' as u8, 'E' as u8, 'F' as u8, 'G' as u8, 'H' as u8,
        'J' as u8, 'K' as u8, 'L' as u8, 'M' as u8, 'N' as u8, 'P' as u8, 'Q' as u8, 'R' as u8,
        'S' as u8, 'T' as u8, 'U' as u8, 'V' as u8, 'W' as u8, 'X' as u8, 'Y' as u8, 'Z' as u8,
        'a' as u8, 'b' as u8, 'c' as u8, 'd' as u8, 'e' as u8, 'f' as u8, 'g' as u8, 'h' as u8,
        'i' as u8, 'j' as u8, 'k' as u8, 'm' as u8, 'n' as u8, 'o' as u8, 'p' as u8, 'q' as u8,
        'r' as u8, 's' as u8, 't' as u8, 'u' as u8, 'v' as u8, 'w' as u8, 'x' as u8, 'y' as u8,
        'z' as u8, '2' as u8, '3' as u8, '4' as u8, '5' as u8, '6' as u8, '7' as u8, '8' as u8,
        '9' as u8,
    ]
}

/// The room id that ten random bytes select: each byte, modulo the
/// alphabet's size, picks one character.
pub open spec fn room_id_spec(bytes: Seq<u8>) -> Seq<char> {
    Seq::new(ROOM_ID_LEN as nat, |i: int| room_id_alphabet()[(bytes[i] % 57) as int] as char)
}

/// Every character of the alphabet is ASCII.
proof fn lemma_alphabet_ascii(j: int)
    requires
        0 <= j < 57,
    ensures
        room_id_alphabet()[j] < 128,
{
    let a = room_id_alphabet();
    assert(a.len() == 57);
}

/// The room id that `bytes` select.
pub fn room_id_from_bytes(bytes: &[u8; ROOM_ID_LEN]) -> (r: String)
    ensures
        r@ == room_id_spec(bytes@),
{
    let alphabet: [u8; 57] = [
        'A' as u8, 'B' as u8, 'C' as u8, 'D' as u8, 'E' as u8, 'F' as u8, 'G' as u8, 'H' as u8,
        'J' as u8, 'K' as u8, 'L' as u8, 'M' as u8, 'N' as u8, 'P' as u8, 'Q' as u8, 'R' as u8,
        'S' as u8, 'T' as u8, 'U' as u8, 'V' as u8, 'W' as u8, 'X' as u8, 'Y' as u8, 'Z' as u8,
        'a' as u8, 'b' as u8, 'c' as u8, 'd' as u8, 'e' as u8, 'f' as u8, 'g' as u8, 'h' as u8,
        'i' as u8, 'j' as u8, 'k' as u8, 'm' as u8, 'n' as u8, 'o' as u8, 'p' as u8, 'q' as u8,
        'r' as u8, 's' as u8, 't' as u8, 'u' as u8, 'v' as u8, 'w' as u8, 'x' as u8, 'y' as u8,
        'z' as u8, '2' as u8, '3' as u8, '4' as u8, '5' as u8, '6' as u8, '7' as u8, '8' as u8,
        '9' as u8,
    ];
    assert(alphabet@ =~= room_id_alphabet());
    let mut out: Vec<u8> = Vec::new();
    let mut i: usize = 0;
    while i < ROOM_ID_LEN
        invariant
            i <= ROOM_ID_LEN,
            alphabet@ == room_id_alphabet(),
            out@.len() == i,
            forall|k: int| 0 <= k < i ==> out@[k] == room_id_alphabet()[(bytes@[k] % 57) as int],
        decreases ROOM_ID_LEN - i,
    {
        let pick = (bytes[i] % 57) as usize;
        out.push(alphabet[pick]);
        i = i + 1;
    }
    let ghost chars = room_id_spec(bytes@);
    proof {
        assert forall|k: int| 0 <= k < chars.len() implies '\0' <= #[trigger] chars[k] <= '\u{7f}' by {
            lemma_alphabet_ascii((bytes@[k] % 57) as int);
        }
        vstd::utf8::is_ascii_chars_encode_utf8(chars);
        assert forall|k: int| 0 <= k < chars.len() implies #[trigger] encode_utf8(chars)[k] == out@[k] by {
            lemma_alphabet_ascii((bytes@[k] % 57) as int);
        }
        assert(encode_utf8(chars) =~= out@);
        vstd::utf8::encode_utf8_valid_utf8(chars);
        vstd::utf8::encode_utf8_decode_utf8(chars);
    }
    match string_from_utf8(out) {
        Ok(id) => id,
        Err(_) => {
            assert(false);
            String::new()
        },
    }
}

/// A fresh random room id, or `None` where the operating system provides no
/// randomness.
pub fn generate_room_id() -> (r: Option<String>)
    ensures
        r matches Some(id) ==> exists|bytes: Seq<u8>| bytes.len() == ROOM_ID_LEN && id@ == #[trigger] room_id_spec(bytes),
{
    match crate::primitives::random_bytes::<ROOM_ID_LEN>() {
        Ok(bytes) => Some(room_id_from_bytes(&bytes)),
        Err(_) => None,
    }
}

// ---------------------------------------------------------------------
// Requests.
// ---------------------------------------------------------------------

/// A write must carry a positive version: version 0 is refused with 422.
pub fn validate_envelope(envelope: &CipherEnvelope) -> (r: Result<(), ApiStatus>)
    ensures
        r is Ok <==> envelope.version != 0,
        r is Err ==> r == Err::<(), ApiStatus>(ApiStatus::UnprocessableEntity),
{
    if envelope.version == 0 {
        Err(ApiStatus::UnprocessableEntity)
    } else {
        Ok(())
    }
}

/// A failing store answers 500.
pub fn store_error_status() -> (r: ApiStatus)
    ensures
        r == ApiStatus::InternalServerError,
{
    ApiStatus::InternalServerError
}

/// What a new room stores: the request's metadata and envelope.
pub fn new_room_record(request: &CreateRoomRequest) -> (r: StoredRoom)
    ensures
        r.meta == request.meta,
        r.envelope == request.envelope,
{
    StoredRoom { meta: request.meta.clone(), envelope: request.envelope.clone() }
}

/// What creating a room does with a freshly drawn id.
pub enum CreateStep {
    /// A room already lives under the id: draw another.
    Retry,
    /// The id is free: store this room under it.
    Store(StoredRoom),
}

/// Decides what to do with a drawn id, given whether the store holds a
/// live room under it: a taken id is never written, so no room is
/// overwritten; a free one receives the request's metadata and envelope.
pub fn plan_room_creation(taken: bool, request: &CreateRoomRequest) -> (r: CreateStep)
    ensures
        taken ==> r is Retry,
        !taken ==> (r matches CreateStep::Store(room) && room.meta == request.meta && room.envelope == request.envelope),
{
    if taken {
        CreateStep::Retry
    } else {
        CreateStep::Store(new_room_record(request))
    }
}

/// The answer to a room creation that was stored under `room_id`.
pub fn created_room_response(room_id: String) -> (r: (ApiStatus, CreateRoomResponse))
    ensures
        r.0 == ApiStatus::Created,
        r.1.room_id == room_id,
{
    (ApiStatus::Created, CreateRoomResponse { room_id })
}

/// The answer to `GET /api/rooms/{room_id}` given what the store read.
pub fn room_snapshot(room_id: &str, room: Option<StoredRoom>) -> (r: Result<GetRoomResponse, ApiStatus>)
    ensures
        match room {
            Some(stored) => r matches Ok(resp) && resp.room_id@ == room_id@ && resp.meta == stored.meta
                && resp.envelope == stored.envelope,
            None => r == Err::<GetRoomResponse, ApiStatus>(ApiStatus::NotFound),
        },
{
    match room {
        Some(stored) => Ok(GetRoomResponse { room_id: room_id.to_owned(), meta: stored.meta, envelope: stored.envelope }),
        None => Err(ApiStatus::NotFound),
    }
}

/// What accepting a new envelope for a room does: the room to store, the
/// event to publish, and the answer.
pub struct ClipboardUpdate {
    pub room: StoredRoom,
    pub event: ClipboardEvent,
    pub response: UpdateClipboardResponse,
}

/// Plans `POST /api/rooms/{room_id}/clipboard` given what the store read:
/// a missing room answers 404; otherwise the room keeps its metadata and
/// takes the new envelope, every subscriber is sent the envelope, and the
/// answer carries the envelope's version.
pub fn plan_clipboard_update(room_id: &str, existing: Option<StoredRoom>, envelope: CipherEnvelope) -> (r: Result<ClipboardUpdate, ApiStatus>)
    ensures
        match existing {
            Some(stored) => r matches Ok(u) && {
                &&& u.room.meta == stored.meta
                &&& u.room.envelope == envelope
                &&& u.event.room_id@ == room_id@
                &&& u.event.envelope == envelope
                &&& u.response.room_id@ == room_id@
                &&& u.response.version == envelope.version
            },
            None => r is Err && r->Err_0 == ApiStatus::NotFound,
        },
{
    let stored = match existing {
        Some(stored) => stored,
        None => return Err(ApiStatus::NotFound),
    };
    let version = envelope.version;
    let event = ClipboardEvent { room_id: room_id.to_owned(), envelope: envelope.clone() };
    Ok(ClipboardUpdate {
        room: StoredRoom { meta: stored.meta, envelope },
        event,
        response: UpdateClipboardResponse { room_id: room_id.to_owned(), version },
    })
}

/// How an accepted clipboard update ends, once the store write is done.
pub struct UpdateFinish {
    /// The event to send to the room's subscribers, if any.
    pub publish: Option<ClipboardEvent>,
    /// The answer to the request.
    pub answer: Result<UpdateClipboardResponse, ApiStatus>,
}

/// Ends an accepted update: the event is sent and the version answered
/// only after the store write succeeded; a failed write sends nothing and
/// answers 500.
pub fn finish_clipboard_update(update: ClipboardUpdate, stored: bool) -> (r: UpdateFinish)
    ensures
        stored ==> r.publish == Some(update.event) && r.answer == Ok::<UpdateClipboardResponse, ApiStatus>(update.response),
        !stored ==> r.publish is None && r.answer == Err::<UpdateClipboardResponse, ApiStatus>(ApiStatus::InternalServerError),
{
    if stored {
        UpdateFinish { publish: Some(update.event), answer: Ok(update.response) }
    } else {
        UpdateFinish { publish: None, answer: Err(store_error_status()) }
    }
}

/// A subscription is opened only for a stored room; otherwise 404.
pub fn check_subscription(room_exists: bool) -> (r: Result<(), ApiStatus>)
    ensures
        r is Ok <==> room_exists,
        r is Err ==> r == Err::<(), ApiStatus>(ApiStatus::NotFound),
{
    if room_exists {
        Ok(())
    } else {
        Err(ApiStatus::NotFound)
    }
}

// ---------------------------------------------------------------------
// Event streams.
// ---------------------------------------------------------------------

/// What waiting on a room's broadcast channel gave.
pub enum ReceiveOutcome {
    /// The next event.
    Message(ClipboardEvent),
    /// The subscriber fell behind and this many events were dropped.
    Lagged(u64),
    /// Every sender is gone.
    Closed,
}

/// What the event stream does next.
pub enum StreamStep {
    /// Send the event to the client as a `clipboard` event.
    Emit(ClipboardEvent),
    /// Wait for the next event.
    Skip,
    /// End the stream.
    Stop,
}

/// A received event is sent on, dropped events are skipped, and a closed
/// channel ends the stream.
pub fn stream_step(outcome: ReceiveOutcome) -> (r: StreamStep)
    ensures
        match outcome {
            ReceiveOutcome::Message(event) => r == StreamStep::Emit(event),
            ReceiveOutcome::Lagged(_) => r == StreamStep::Skip,
            ReceiveOutcome::Closed => r == StreamStep::Stop,
        },
{
    match outcome {
        ReceiveOutcome::Message(event) => StreamStep::Emit(event),
        ReceiveOutcome::Lagged(_) => StreamStep::Skip,
        ReceiveOutcome::Closed => StreamStep::Stop,
    }
}

// ---------------------------------------------------------------------
// Crawlers.
// ---------------------------------------------------------------------

/// A room page: a path under `/r/`.
pub open spec fn is_room_page(path: Seq<char>) -> bool {
    &&& path.len() >= 3
    &&& path[0] == '/'
    &&& path[1] == 'r'
    &&& path[2] == '/'
}

pub open spec fn private_robots_text() -> Seq<char> {
    "noindex, nofollow"@
}

/// The robots directive for a served path: room pages are private and ask
/// not to be indexed or followed; every other page is public.
pub fn robots_directive(path: &str) -> (r: Option<&'static str>)
    ensures
        r is Some <==> is_room_page(path@),
        r matches Some(d) ==> d@ == private_robots_text(),
{
    if path.unicode_len() >= 3 && path.get_char(0) == '/' && path.get_char(1) == 'r' && path.get_char(2) == '/' {
        Some("noindex, nofollow")
    } else {
        None
    }
}

} // verus!
