//! Listing the rooms the requester belongs to.
use vstd::prelude::*;
use crate::interface::global::{response_is, ResponseJson, ResponseJsonWithData};

verus! {

/// The answer once the rooms were fetched (`Err` when the query failed).
pub fn chat_rooms_response<T>(fetched: Result<Vec<T>, ()>) -> (res: Result<ResponseJsonWithData<Vec<T>>, ResponseJson>)
    ensures
        match fetched {
            Err(_) => res matches Err(e) && response_is(e, "fail"@, 400, "something went wrong"@),
            Ok(rows) => res matches Ok(body) && body.data == rows && body.status@ == "success"@
                && body.status_code == 200 && body.message@ == "success"@,
        },
{
    match fetched {
        Err(_) => Err(ResponseJson::new("fail", 400, "something went wrong")),
        Ok(rows) => Ok(ResponseJsonWithData::new("success", 200, "success", rows)),
    }
}

} // verus!
