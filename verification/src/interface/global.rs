//! The JSON bodies the server answers with, and the claims carried by a login token.
use vstd::prelude::*;

verus! {

/// The length of a text in UTF-8 bytes, which is what `str::len` counts.
pub open spec fn byte_len(s: Seq<char>) -> nat {
    vstd::utf8::encode_utf8(s).len()
}

/// Calls `str::len`. Trusted: the result is the text's length in UTF-8 bytes,
/// exactly; std documents that a `str` is a slice of bytes and that no
/// allocation, hence no slice, exceeds `isize::MAX` bytes, so the length never
/// wraps (vstd's own specification of `str::len` leaves that bound unsaid).
#[verifier::external_body]
fn str_byte_len(s: &str) -> (res: usize)
    ensures
        res == byte_len(s@),
{
    s.len()
}

/// The length of a text in UTF-8 bytes.
pub fn text_byte_len(s: &String) -> (res: usize)
    ensures
        res == byte_len(s@),
{
    str_byte_len(s.as_str())
}

/// A body with a status word, a status code and a message.
#[derive(Debug)]
pub struct ResponseJson {
    pub status: String,
    pub status_code: u32,
    pub message: String,
}

/// Whether `r` carries exactly this status word, code and message.
pub open spec fn response_is(r: ResponseJson, status: Seq<char>, status_code: u32, message: Seq<char>) -> bool {
    r.status@ == status && r.status_code == status_code && r.message@ == message
}

impl ResponseJson {
    /// A body made of these parts.
    pub fn new(status: &str, status_code: u32, message: &str) -> (res: ResponseJson)
        ensures
            response_is(res, status@, status_code, message@),
    {
        ResponseJson { status: status.to_owned(), status_code, message: message.to_owned() }
    }

    /// The text the body displays as: its message.
    pub fn to_string(&self) -> (res: String)
        ensures
            res@ == self.message@,
    {
        self.message.clone()
    }
}

/// A body with a status word, a status code, a message and a payload.
#[derive(Debug)]
pub struct ResponseJsonWithData<T> {
    pub status: String,
    pub status_code: u32,
    pub message: String,
    pub data: T,
}

impl<T> ResponseJsonWithData<T> {
    /// A body made of these parts.
    pub fn new(status: &str, status_code: u32, message: &str, data: T) -> (res: ResponseJsonWithData<T>)
        ensures
            res.status@ == status@,
            res.status_code == status_code,
            res.message@ == message@,
            res.data == data,
    {
        ResponseJsonWithData { status: status.to_owned(), status_code, message: message.to_owned(), data }
    }

    /// The text the body displays as: its message.
    pub fn to_string(&self) -> (res: String)
        ensures
            res@ == self.message@,
    {
        self.message.clone()
    }
}

/// The claims of a login token: who the user is, their role, and when the token expires.
#[derive(Debug)]
pub struct UserToken {
    pub nrp: String,
    pub name: String,
    pub id: u128,
    pub role: String,
    pub exp: usize,
}

} // verus!
