//! Listing all users.
use vstd::prelude::*;
use crate::interface::global::ResponseJsonWithData;

verus! {

/// The answer listing the users' rows.
pub fn users_listing<T>(rows: Vec<T>) -> (res: ResponseJsonWithData<Vec<T>>)
    ensures
        res.data == rows,
        res.status@ == "success"@,
        res.status_code == 200,
        res.message@ == "success get data"@,
{
    ResponseJsonWithData::new("success", 200, "success get data", rows)
}

} // verus!
