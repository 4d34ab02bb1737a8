//! The JSON bodies of the HTTP API and of the server-sent events.
use vstd::prelude::*;
use crate::crypto::{CipherEnvelope, RoomMeta};

verus! {

/// `POST /api/rooms`: a new room's metadata and first envelope.
#[derive(Debug, PartialEq, Eq)]
pub struct CreateRoomRequest {
    pub meta: RoomMeta,
    pub envelope: CipherEnvelope,
}

/// The id the server gave a new room.
#[derive(Debug, PartialEq, Eq)]
pub struct CreateRoomResponse {
    pub room_id: String,
}

/// `GET /api/rooms/{room_id}`: the room's metadata and latest envelope.
#[derive(Debug, PartialEq, Eq)]
pub struct GetRoomResponse {
    pub room_id: String,
    pub meta: RoomMeta,
    pub envelope: CipherEnvelope,
}

/// `POST /api/rooms/{room_id}/clipboard`: a new envelope.
#[derive(Debug, PartialEq, Eq)]
pub struct UpdateClipboardRequest {
    pub envelope: CipherEnvelope,
}

/// The version the server stored for a room.
#[derive(Debug, PartialEq, Eq)]
pub struct UpdateClipboardResponse {
    pub room_id: String,
    pub version: u64,
}

/// A `clipboard` event on a room's event stream.
#[derive(Debug, PartialEq, Eq)]
pub struct ClipboardEvent {
    pub room_id: String,
    pub envelope: CipherEnvelope,
}

impl Clone for CreateRoomRequest {
    fn clone(&self) -> (r: Self)
        ensures
            r == *self,
    {
        CreateRoomRequest { meta: self.meta.clone(), envelope: self.envelope.clone() }
    }
}

impl Clone for CreateRoomResponse {
    fn clone(&self) -> (r: Self)
        ensures
            r == *self,
    {
        CreateRoomResponse { room_id: self.room_id.clone() }
    }
}

impl Clone for GetRoomResponse {
    fn clone(&self) -> (r: Self)
        ensures
            r == *self,
    {
        GetRoomResponse {
            room_id: self.room_id.clone(),
            meta: self.meta.clone(),
            envelope: self.envelope.clone(),
        }
    }
}

impl Clone for UpdateClipboardRequest {
    fn clone(&self) -> (r: Self)
        ensures
            r == *self,
    {
        UpdateClipboardRequest { envelope: self.envelope.clone() }
    }
}

impl Clone for UpdateClipboardResponse {
    fn clone(&self) -> (r: Self)
        ensures
            r == *self,
    {
        UpdateClipboardResponse { room_id: self.room_id.clone(), version: self.version }
    }
}

impl Clone for ClipboardEvent {
    fn clone(&self) -> (r: Self)
        ensures
            r == *self,
    {
        ClipboardEvent { room_id: self.room_id.clone(), envelope: self.envelope.clone() }
    }
}

} // verus!
