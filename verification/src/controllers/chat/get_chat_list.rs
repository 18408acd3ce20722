//! Reading the messages of a room the requester belongs to.
use vstd::prelude::*;
use crate::ids::{parse_uuid, uuid_parse};
use crate::interface::global::{response_is, ResponseJson, ResponseJsonWithData};

verus! {

/// The body answered for every refusal of a chat-list request.
pub fn chat_list_error() -> (res: ResponseJson)
    ensures
        response_is(res, "fail"@, 422, "Something went wrong"@),
{
    ResponseJson::new("fail", 422, "Something went wrong")
}

/// The room named in the request's path, or the refusal when it is no UUID.
pub fn chat_list_room(path_id: &str) -> (res: Result<u128, ResponseJson>)
    ensures
        match uuid_parse(path_id@) {
            Some(id) => res matches Ok(r) && r == id,
            None => res matches Err(e) && response_is(e, "fail"@, 422, "Something went wrong"@),
        },
{
    match parse_uuid(path_id) {
        Ok(id) => Ok(id),
        Err(_) => Err(chat_list_error()),
    }
}

/// Whether the requester may read the room, given the outcome of the
/// membership query (`Ok` with its row count). The outcome is counted as a
/// list of one item when the query succeeded and of none when it failed, so a
/// successful query admits the requester whatever rows it found.
pub fn authorized_room(membership: Result<usize, ()>) -> (res: bool)
    ensures
        res == membership is Ok,
{
    let count: usize = match membership {
        Ok(_) => 1,
        Err(_) => 0,
    };
    if count == 0 {
        return false;
    }
    true
}

/// The answer listing the room's messages.
pub fn chat_list_found<T>(rows: Vec<T>) -> (res: ResponseJsonWithData<Vec<T>>)
    ensures
        res.data == rows,
        res.status@ == "success"@,
        res.status_code == 200,
        res.message@ == "success"@,
{
    ResponseJsonWithData::new("success", 200, "success", rows)
}

} // verus!
