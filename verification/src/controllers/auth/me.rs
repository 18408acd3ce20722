//! Answering who the holder of a token is.
use vstd::prelude::*;
use crate::controllers::auth::login::{error_is, ErrorResponse};
use crate::interface::global::{ResponseJsonWithData, UserToken};

verus! {

/// The answer to a "who am I" request: the token's claims, or an error when the
/// token could not be read (`decoded` is `None`).
pub fn me_response(decoded: Option<UserToken>) -> (res: Result<ResponseJsonWithData<UserToken>, ErrorResponse>)
    ensures
        match decoded {
            None => res matches Err(e) && error_is(e, "fail"@, 400, "Something went wrong"@),
            Some(claims) => res matches Ok(body) && body.data == claims && body.status@ == "success"@
                && body.status_code == 200 && body.message@ == ""@,
        },
{
    match decoded {
        None => Err(ErrorResponse::new("fail", 400, "Something went wrong")),
        Some(claims) => Ok(ResponseJsonWithData::new("success", 200, "", claims)),
    }
}

} // verus!
