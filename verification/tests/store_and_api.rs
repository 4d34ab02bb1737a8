use secopy::api::{
    check_subscription, created_room_response, generate_room_id, new_room_record,
    plan_clipboard_update, room_id_from_bytes, room_snapshot, store_error_status, stream_step,
    validate_envelope, ApiStatus, ReceiveOutcome, StreamStep, DEFAULT_ROOM_TTL_SECS, ROOM_ID_LEN,
};
use secopy::crypto::{create_room, CipherEnvelope, KdfParams};
use secopy::protocol::{ClipboardEvent, CreateRoomRequest};
use secopy::store::{redis_ttl_millis, MemoryRoomStore, RoomLookup, StoredRoom};

const ALPHABET: &str = "ABCDEFGHJKLMNPQRSTUVWXYZabcdefghijkmnopqrstuvwxyz23456789";

fn sample_room(text: &str) -> StoredRoom {
    let created = create_room("password", text, KdfParams::testing()).expect("room must build");
    StoredRoom { meta: created.meta, envelope: created.envelope }
}

fn envelope(version: u64) -> CipherEnvelope {
    CipherEnvelope { version, nonce_b64: "bm9uY2U".to_string(), ciphertext_b64: "Y3Q".to_string() }
}

#[test]
fn memory_store_evicts_expired_rooms_on_get() {
    let mut store = MemoryRoomStore::new();
    let room = sample_room("hello world");

    let start = store.now();
    store.set("room123", room, 25_000_000);

    assert!(store.get("room123").is_some(), "fresh room should be readable before ttl elapses");

    while store.now() < start + 40_000_000 {}

    assert!(store.get("room123").is_none(), "expired room should be lazily evicted");
    assert!(matches!(store.lookup_at("room123", 0), RoomLookup::Missing));
}

#[test]
fn reads_before_the_deadline_return_the_written_room() {
    let mut store = MemoryRoomStore::new();
    let room = sample_room("first");
    store.set_until("abc", room.clone(), 100);
    assert_eq!(store.get_at("abc", 0).expect("fresh"), room);
    assert_eq!(store.get_at("abc", 99).expect("still fresh"), room);
    assert!(matches!(store.lookup_at("abc", 99), RoomLookup::Fresh(_)));
    assert!(matches!(store.lookup_at("abc", 100), RoomLookup::Expired));
    assert!(store.get_at("abc", 100).is_none());
    assert!(matches!(store.lookup_at("abc", 0), RoomLookup::Missing));
    assert!(store.get_at("nothing", 0).is_none());
}

#[test]
fn writes_replace_and_leave_other_rooms_alone() {
    let mut store = MemoryRoomStore::new();
    let first = sample_room("first");
    let second = sample_room("second");
    store.set_until("a", first.clone(), 50);
    store.set_until("b", second.clone(), 50);
    store.set_until("a", second.clone(), 10);
    assert_eq!(store.get_at("a", 5).expect("replaced"), second);
    assert!(store.get_at("a", 20).is_none());
    assert_eq!(store.get_at("b", 20).expect("untouched"), second);
    assert!(matches!(store.lookup_at("a", 0), RoomLookup::Missing));
    assert!(first != second);
}

#[test]
fn redis_ttl_is_whole_milliseconds_at_least_one() {
    assert_eq!(redis_ttl_millis(0), 1);
    assert_eq!(redis_ttl_millis(999_999), 1);
    assert_eq!(redis_ttl_millis(1_500_000), 1);
    assert_eq!(redis_ttl_millis(25_000_000), 25);
    assert_eq!(redis_ttl_millis(86_400_000_000_000), 86_400_000);
    assert_eq!(redis_ttl_millis(u128::MAX), u64::MAX);
}

#[test]
fn room_ids_come_from_the_alphabet() {
    let alphabet: Vec<char> = ALPHABET.chars().collect();
    assert_eq!(alphabet.len(), 57);
    assert_eq!(room_id_from_bytes(&[0, 1, 2, 3, 4, 5, 6, 7, 8, 9]), "ABCDEFGHJK");
    assert_eq!(room_id_from_bytes(&[56, 57, 58, 113, 114, 255, 200, 23, 24, 48]), "9AB9AdfZaz");
    let bytes = [12u8, 99, 140, 7, 250, 31, 0, 64, 33, 128];
    let expected: String = bytes.iter().map(|b| alphabet[(*b % 57) as usize]).collect();
    assert_eq!(room_id_from_bytes(&bytes), expected);

    let id = generate_room_id().expect("randomness available");
    assert_eq!(id.chars().count(), ROOM_ID_LEN);
    assert!(id.chars().all(|c| ALPHABET.contains(c)));
}

#[test]
fn status_codes_are_the_http_ones() {
    assert_eq!(ApiStatus::Success.code(), 200);
    assert_eq!(ApiStatus::Created.code(), 201);
    assert_eq!(ApiStatus::NotFound.code(), 404);
    assert_eq!(ApiStatus::UnprocessableEntity.code(), 422);
    assert_eq!(ApiStatus::InternalServerError.code(), 500);
    assert_eq!(store_error_status(), ApiStatus::InternalServerError);
    assert_eq!(DEFAULT_ROOM_TTL_SECS, 60 * 60 * 24);
}

#[test]
fn writes_without_a_version_are_unprocessable() {
    assert_eq!(validate_envelope(&envelope(0)), Err(ApiStatus::UnprocessableEntity));
    assert_eq!(validate_envelope(&envelope(1)), Ok(()));
    assert_eq!(validate_envelope(&envelope(u64::MAX)), Ok(()));
}

#[test]
fn missing_rooms_answer_not_found() {
    assert_eq!(room_snapshot("room", None).err(), Some(ApiStatus::NotFound));
    assert_eq!(plan_clipboard_update("room", None, envelope(2)).err(), Some(ApiStatus::NotFound));
    assert_eq!(check_subscription(false), Err(ApiStatus::NotFound));
    assert_eq!(check_subscription(true), Ok(()));
}

#[test]
fn a_snapshot_returns_the_stored_room() {
    let room = sample_room("snapshot");
    let snapshot = room_snapshot("Abc", Some(room.clone())).expect("room exists");
    assert_eq!(snapshot.room_id, "Abc");
    assert_eq!(snapshot.meta, room.meta);
    assert_eq!(snapshot.envelope, room.envelope);
}

#[test]
fn an_update_keeps_the_metadata_and_publishes_the_envelope() {
    let room = sample_room("before");
    let update = plan_clipboard_update("Abc", Some(room.clone()), envelope(9)).expect("room exists");
    assert_eq!(update.room.meta, room.meta);
    assert_eq!(update.room.envelope, envelope(9));
    assert_eq!(update.event.room_id, "Abc");
    assert_eq!(update.event.envelope, envelope(9));
    assert_eq!(update.response.room_id, "Abc");
    assert_eq!(update.response.version, 9);
}

#[test]
fn a_new_room_stores_the_request() {
    let room = sample_room("new");
    let request = CreateRoomRequest { meta: room.meta.clone(), envelope: room.envelope.clone() };
    let record = new_room_record(&request);
    assert_eq!(record, room);
    let (status, response) = created_room_response("XYZ".to_string());
    assert_eq!(status, ApiStatus::Created);
    assert_eq!(response.room_id, "XYZ");
}

#[test]
fn event_streams_emit_skip_and_stop() {
    let event = ClipboardEvent { room_id: "r".to_string(), envelope: envelope(3) };
    match stream_step(ReceiveOutcome::Message(event.clone())) {
        StreamStep::Emit(sent) => assert_eq!(sent, event),
        _ => panic!("a message must be emitted"),
    }
    assert!(matches!(stream_step(ReceiveOutcome::Lagged(4)), StreamStep::Skip));
    assert!(matches!(stream_step(ReceiveOutcome::Closed), StreamStep::Stop));
}

#[test]
fn a_deadline_past_the_clock_expires_at_once() {
    let mut store = MemoryRoomStore::new();
    store.set("room", sample_room("short-lived"), u128::MAX);
    assert!(store.get("room").is_none());
    store.set("room", sample_room("long-lived"), 60_000_000_000);
    assert!(store.get("room").is_some());
}

#[test]
fn only_room_pages_ask_crawlers_to_stay_away() {
    assert_eq!(secopy::api::robots_directive("/r/8F3kPq2WZa"), Some("noindex, nofollow"));
    assert_eq!(secopy::api::robots_directive("/r/"), Some("noindex, nofollow"));
    assert_eq!(secopy::api::robots_directive("/"), None);
    assert_eq!(secopy::api::robots_directive("/api/rooms"), None);
    assert_eq!(secopy::api::robots_directive("/rooms"), None);
    assert_eq!(secopy::api::robots_directive("/r"), None);
}

#[test]
fn a_taken_id_is_never_written() {
    let room = sample_room("new");
    let request = CreateRoomRequest { meta: room.meta.clone(), envelope: room.envelope.clone() };
    assert!(matches!(secopy::api::plan_room_creation(true, &request), secopy::api::CreateStep::Retry));
    match secopy::api::plan_room_creation(false, &request) {
        secopy::api::CreateStep::Store(stored) => assert_eq!(stored, room),
        secopy::api::CreateStep::Retry => panic!("a free id must be used"),
    }
}

#[test]
fn updates_are_published_only_after_the_write() {
    let room = sample_room("before");
    let update = plan_clipboard_update("Abc", Some(room.clone()), envelope(4)).expect("room exists");
    let event = update.event.clone();
    let response = update.response.clone();
    let done = secopy::api::finish_clipboard_update(update, true);
    assert_eq!(done.publish, Some(event));
    assert_eq!(done.answer, Ok(response));

    let update = plan_clipboard_update("Abc", Some(room), envelope(5)).expect("room exists");
    let failed = secopy::api::finish_clipboard_update(update, false);
    assert_eq!(failed.publish, None);
    assert_eq!(failed.answer, Err(ApiStatus::InternalServerError));
}
