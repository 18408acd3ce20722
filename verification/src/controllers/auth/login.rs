//! Logging in: checking the request, the stored password, and what the token says.
use vstd::prelude::*;
use crate::config::auth::{check_password, password_check, PasswordCheck};
use crate::config::jwt::{issue_token, issued_claims, jwt_claims, jwt_token};
use crate::ids::uuid_text;
use crate::interface::global::{
    byte_len, response_is, text_byte_len, ResponseJson, ResponseJsonWithData, UserToken,
};
use crate::models::{role_name, Role, Users};

verus! {

/// The body of a login request.
#[derive(Debug, Clone)]
pub struct LoginParams {
    pub nrp: String,
    pub password: String,
}

/// An error body: a status code, a message and a status word.
#[derive(Debug)]
pub struct ErrorResponse {
    pub status_code: u32,
    pub message: String,
    pub status: String,
}

/// Whether `e` carries exactly this status word, code and message.
pub open spec fn error_is(e: ErrorResponse, status: Seq<char>, status_code: u32, message: Seq<char>) -> bool {
    e.status@ == status && e.status_code == status_code && e.message@ == message
}

impl ErrorResponse {
    /// An error body made of these parts.
    pub fn new(status: &str, status_code: u32, message: &str) -> (res: ErrorResponse)
        ensures
            error_is(res, status@, status_code, message@),
    {
        ErrorResponse { status_code, message: message.to_owned(), status: status.to_owned() }
    }

    /// The text the error displays as.
    pub fn to_string(&self) -> (res: String)
        ensures
            res@ == "Error not found"@,
    {
        "Error not found".to_owned()
    }
}

/// A login request is refused when its NRP is longer than 20 bytes.
pub fn validator(login_params: &LoginParams) -> (res: Result<(), ResponseJson>)
    ensures
        byte_len(login_params.nrp@) <= 20 <==> res is Ok,
        res matches Err(e) ==> response_is(e, "fail"@, 400, "Nrp tidak boleh lebih dari 20 karakter"@),
{
    if text_byte_len(&login_params.nrp) > 20 {
        return Err(ResponseJson::new("fail", 400, "Nrp tidak boleh lebih dari 20 karakter"));
    }
    Ok(())
}

/// The data returned on a successful login.
#[derive(Debug)]
pub struct DataResponse {
    pub token: String,
    pub id: u128,
    pub nrp: String,
    pub role: Role,
}

/// What a login attempt comes to once the user has been looked up.
pub enum LoginOutcome {
    /// Refused, with this body.
    Rejected(ResponseJson),
    /// Accepted: a token is to be signed over these claims; the user has this role.
    Accepted { claims: UserToken, role: Role },
    /// The user has no stored password.
    StoredPasswordMissing,
    /// The stored password does not decrypt with the key.
    StoredPasswordUnreadable,
}

/// Decides a login for `request` once the user with its NRP was looked up
/// (`user`), given the server's private key and the token's expiry time.
pub fn login_decision(request: &LoginParams, user: Option<Users>, private_key: &str, expiration: i64) -> (res: LoginOutcome)
    ensures
        match user {
            None => res matches LoginOutcome::Rejected(e) && response_is(e, "fail"@, 422, "Invalid password or NRp"@),
            Some(u) => match u.password {
                None => res is StoredPasswordMissing,
                Some(stored) => match password_check(private_key@, stored@, request.password@) {
                    PasswordCheck::Unreadable => res is StoredPasswordUnreadable,
                    PasswordCheck::Differs => res matches LoginOutcome::Rejected(e) && response_is(e, "fail"@, 401, "Invalid password"@),
                    PasswordCheck::Matches => res matches LoginOutcome::Accepted { claims, role } && {
                        &&& claims.id == u.id
                        &&& claims.name@ == u.name@
                        &&& claims.nrp@ == u.nrp@
                        &&& claims.role@ == role_name(u.role)
                        &&& claims.exp == expiration as usize
                        &&& role == u.role
                    },
                },
            },
        },
{
    let user = match user {
        Some(u) => u,
        None => return LoginOutcome::Rejected(ResponseJson::new("fail", 422, "Invalid password or NRp")),
    };
    let stored = match &user.password {
        Some(p) => p,
        None => return LoginOutcome::StoredPasswordMissing,
    };
    match check_password(private_key, stored.as_str(), request.password.as_str()) {
        PasswordCheck::Unreadable => LoginOutcome::StoredPasswordUnreadable,
        PasswordCheck::Differs => LoginOutcome::Rejected(ResponseJson::new("fail", 401, "Invalid password")),
        PasswordCheck::Matches => {
            let role_text = match user.role.from_str() {
                Ok(text) => text,
                Err(_) => user.role.to_string(),
            };
            let claims = UserToken {
                id: user.id,
                name: user.name,
                nrp: user.nrp,
                role: role_text,
                exp: expiration as usize,
            };
            LoginOutcome::Accepted { claims, role: user.role }
        },
    }
}

/// The body answered on a successful login: the token signed with `private_key`
/// over the user's claims (which carries exactly those claims under that key),
/// with the user's id, NRP and role.
pub fn login_success(claims: &UserToken, role: Role, private_key: &str) -> (res: ResponseJsonWithData<DataResponse>)
    ensures
        res.status@ == "success"@,
        res.status_code == 200,
        res.message@ == "Success to login"@,
        res.data.token@ == jwt_token(
            claims.nrp@,
            claims.name@,
            uuid_text(claims.id),
            claims.role@,
            claims.exp as u64,
            private_key@,
        ),
        jwt_claims(res.data.token@, private_key@) == Some(issued_claims(*claims)),
        res.data.id == claims.id,
        res.data.nrp@ == claims.nrp@,
        res.data.role == role,
{
    let token = issue_token(claims, private_key);
    let data = DataResponse { token, id: claims.id, nrp: claims.nrp.clone(), role };
    ResponseJsonWithData::new("success", 200, "Success to login", data)
}

} // verus!
