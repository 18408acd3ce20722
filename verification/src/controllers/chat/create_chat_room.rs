//! Opening a private room between the requesting user and another user.
//!
//! Checking the request alternates with database queries: `validator_step`
//! says, for each answer the caller got, what to do next.
use vstd::prelude::*;
use crate::ids::{parse_uuid, uuid_parse, uuid_text, uuid_to_string};
use crate::interface::global::{response_is, ResponseJson, ResponseJsonWithData};

verus! {

/// The body of a request to open a room with the user `to_id`.
#[derive(Debug)]
pub struct RoomBody {
    pub to_id: String,
}

/// The data answered for an opened room.
#[derive(Debug)]
pub struct ResponseData {
    pub id: u128,
}

/// What the caller learnt since the last step of the check.
pub enum RoomEvent {
    /// The check begins.
    Begin,
    /// The query that looks the other user up is prepared.
    TargetQueryPrepared,
    /// This many rooms already join the requester and user `to_id`.
    ExistingRooms { to_id: u128, rows: usize },
    /// This many users have the id `to_id`.
    TargetRows { rows: usize },
}

/// What the caller must do next.
#[derive(Debug, PartialEq, Eq, Structural)]
pub enum RoomAction {
    /// Prepare the query that looks the other user up.
    PrepareTargetQuery,
    /// Count the rooms that already join the requester and user `to_id`.
    QueryExistingRooms { to_id: u128 },
    /// Count the users with id `to_id`.
    QueryTarget { to_id: u128 },
    /// The check is over: the request is valid or not.
    Done { valid: bool },
}

/// The check of a room request, one step at a time: the other user's id must
/// be given, parse as a UUID, share no room with the requester yet, and exist.
pub fn validator_step(body: &RoomBody, event: RoomEvent) -> (res: RoomAction)
    ensures
        match event {
            RoomEvent::Begin => res == if body.to_id@.len() == 0 {
                RoomAction::Done { valid: false }
            } else {
                RoomAction::PrepareTargetQuery
            },
            RoomEvent::TargetQueryPrepared => res == match uuid_parse(body.to_id@) {
                Some(id) => RoomAction::QueryExistingRooms { to_id: id },
                None => RoomAction::Done { valid: false },
            },
            RoomEvent::ExistingRooms { to_id, rows } => res == if rows != 0 {
                RoomAction::Done { valid: false }
            } else {
                RoomAction::QueryTarget { to_id }
            },
            RoomEvent::TargetRows { rows } => res == RoomAction::Done { valid: rows != 0 },
        },
{
    match event {
        RoomEvent::Begin => {
            if body.to_id.as_str().is_empty() {
                RoomAction::Done { valid: false }
            } else {
                RoomAction::PrepareTargetQuery
            }
        },
        RoomEvent::TargetQueryPrepared => match parse_uuid(body.to_id.as_str()) {
            Ok(id) => RoomAction::QueryExistingRooms { to_id: id },
            Err(_) => RoomAction::Done { valid: false },
        },
        RoomEvent::ExistingRooms { to_id, rows } => {
            if rows != 0 {
                RoomAction::Done { valid: false }
            } else {
                RoomAction::QueryTarget { to_id }
            }
        },
        RoomEvent::TargetRows { rows } => RoomAction::Done { valid: rows != 0 },
    }
}

/// The answer to a request that fails the check.
pub fn invalid_room_request() -> (res: ResponseJson)
    ensures
        response_is(res, "fail"@, 400, "Invalid data"@),
{
    ResponseJson::new("fail", 400, "Invalid data")
}

/// The name of the room between `user_id` and the user named by `to_id`:
/// the requester's id, an underscore, and the other id as it was given.
pub fn room_name(user_id: u128, to_id: &str) -> (res: String)
    ensures
        res@ == uuid_text(user_id) + "_"@ + to_id@,
{
    let mut name = uuid_to_string(user_id);
    name.append("_");
    name.append(to_id);
    name
}

/// The answer once the room's insert was tried (`Err` when it failed).
pub fn room_created(inserted: Result<u128, ()>) -> (res: Result<ResponseJsonWithData<ResponseData>, ResponseJson>)
    ensures
        match inserted {
            Err(_) => res matches Err(e) && response_is(e, "fail"@, 400, "Something went wrong"@),
            Ok(room_id) => res matches Ok(body) && body.data.id == room_id && body.status@ == "success"@
                && body.status_code == 200 && body.message@ == "success to create room"@,
        },
{
    match inserted {
        Err(_) => Err(ResponseJson::new("fail", 400, "Something went wrong")),
        Ok(room_id) => Ok(ResponseJsonWithData::new("success", 200, "success to create room", ResponseData { id: room_id })),
    }
}

} // verus!
