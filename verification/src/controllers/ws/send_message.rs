//! Opening a chat socket: the user is named by the token in the query string.
use vstd::prelude::*;

verus! {

/// The query string of a socket request.
#[derive(Debug)]
pub struct Header {
    pub token: Option<String>,
}

/// The error answered when a socket cannot be opened.
#[derive(Debug)]
pub struct ErrorCustom {
    pub message: String,
}

impl ErrorCustom {
    /// The error with the message `Something went wrong`.
    pub fn something_went_wrong() -> (res: ErrorCustom)
        ensures
            res.message@ == "Something went wrong"@,
    {
        ErrorCustom { message: "Something went wrong".to_owned() }
    }

    /// The text the error displays as: its message.
    pub fn to_string(&self) -> (res: String)
        ensures
            res@ == self.message@,
    {
        self.message.clone()
    }
}

/// The token to decode, or the refusal when the query string has none.
pub fn socket_token(info: &Header) -> (res: Result<String, ErrorCustom>)
    ensures
        match info.token_view() {
            Some(t) => res matches Ok(r) && r@ == t,
            None => res matches Err(e) && e.message@ == "Something went wrong"@,
        },
{
    match &info.token {
        Some(t) => Ok(t.clone()),
        None => Err(ErrorCustom::something_went_wrong()),
    }
}

impl Header {
    /// The token of the query string, as text.
    pub open spec fn token_view(&self) -> Option<Seq<char>> {
        match self.token {
            Some(t) => Some(t@),
            None => None,
        }
    }
}

/// The user the socket belongs to: the id in the decoded token, or the refusal
/// when the token did not decode (`decoded` is `None`).
pub fn socket_user(decoded: Option<u128>) -> (res: Result<u128, ErrorCustom>)
    ensures
        match decoded {
            Some(id) => res matches Ok(u) && u == id,
            None => res matches Err(e) && e.message@ == "Something went wrong"@,
        },
{
    match decoded {
        Some(id) => Ok(id),
        None => Err(ErrorCustom::something_went_wrong()),
    }
}

} // verus!
