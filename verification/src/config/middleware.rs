//! Who may pass a guarded route: a request passes when its `Authorization`
//! header is `<scheme> <token>`, the token decodes, and the token's role is
//! exactly the role the route asks for.
//!
//! The token is a JSON Web Token signed with the server's key; the key itself
//! is read by the caller.
use vstd::prelude::*;
use crate::config::auth::{split_spaces, token_from_header};
use crate::config::jwt::{claims_complete, claims_describe, decode_user_token, issued_claims, jwt_claims};
use crate::interface::global::UserToken;
use crate::controllers::auth::login::{error_is, ErrorResponse};

verus! {

/// The `Authorization` header as text, when there is one.
pub open spec fn header_text(header: Option<&str>) -> Option<Seq<char>> {
    match header {
        Some(h) => Some(h@),
        None => None,
    }
}

/// The token a header holds: its second space-separated word (empty when it
/// has none).
pub open spec fn header_token(header: Option<Seq<char>>) -> Seq<char> {
    match header {
        Some(h) => if split_spaces(h).len() >= 2 {
            split_spaces(h)[1]
        } else {
            Seq::empty()
        },
        None => Seq::empty(),
    }
}

/// Whether reading `token` under `key` may give `decoded`: a user only when
/// the token's claims under `key` describe that user; nothing at any time, as
/// a token is also refused once it has expired.
pub open spec fn may_decode_as(token: Seq<char>, key: Seq<char>, decoded: Option<UserToken>) -> bool {
    match decoded {
        Some(u) => jwt_claims(token, key) matches Some(c) && claims_describe(c, u),
        None => true,
    }
}

/// Whether the middleware lets a request with `header` through, its token
/// having been read as `decoded`.
pub open spec fn middleware_passes(header: Option<Seq<char>>, decoded: Option<UserToken>, role: Seq<char>) -> bool {
    match header {
        Some(h) => h.len() > 0 && (decoded matches Some(u) && u.role@ == role),
        None => false,
    }
}

/// Whether `auth_fn` lets a request with `header` through, its token having
/// been read as `decoded`.
pub open spec fn auth_fn_passes(header: Option<Seq<char>>, decoded: Option<UserToken>, role: Seq<char>) -> bool {
    match header {
        Some(h) => h.len() > 0 && split_spaces(h).len() >= 2 && (decoded matches Some(u) && u.role@ == role),
        None => false,
    }
}

/// The middleware lets a request through exactly when `auth_fn` would, for the
/// same header, role and reading of the token. (The middleware is only asked
/// about headers that are missing, empty, or hold a second word.)
pub proof fn middleware_agrees_with_auth_fn(header: Option<Seq<char>>, decoded: Option<UserToken>, role: Seq<char>)
    requires
        header matches Some(h) ==> (h.len() > 0 ==> split_spaces(h).len() >= 2),
    ensures
        middleware_passes(header, decoded, role) == auth_fn_passes(header, decoded, role),
{
}

/// Whether a guarded route lets the request through.
#[derive(Debug, Clone, Copy, PartialEq, Eq, Structural)]
pub enum Status {
    SUCCESS,
    FAIL,
}

/// The guard of a route: the role a request's token must carry.
#[derive(Debug)]
pub struct Authorize {
    pub role: String,
}

/// A guard placed in front of the service `S`.
pub struct SayHiMiddleware<S> {
    service: S,
    role: String,
}

impl Authorize {
    /// Puts this guard in front of `service`.
    pub fn new_transform<S>(&self, service: S) -> (res: SayHiMiddleware<S>)
        ensures
            res.service_view() == service,
            res.role_view() == self.role@,
    {
        SayHiMiddleware { service, role: self.role.clone() }
    }
}

impl<S> SayHiMiddleware<S> {
    /// The guarded service.
    pub closed spec fn service_view(&self) -> S {
        self.service
    }

    /// The role the guard asks for.
    pub closed spec fn role_view(&self) -> Seq<char> {
        self.role@
    }

    /// The guarded service.
    pub fn service(&self) -> (res: &S)
        ensures
            *res == self.service_view(),
    {
        &self.service
    }

    /// The role the guard asks for.
    pub fn role(&self) -> (res: &String)
        ensures
            res@ == self.role_view(),
    {
        &self.role
    }

    /// The token to verify: none when the header is missing or empty. A
    /// non-empty header must hold a second word (the guard reads it unchecked).
    pub fn token(&self, header: Option<&str>) -> (res: Option<String>)
        requires
            header matches Some(h) ==> (h@.len() > 0 ==> split_spaces(h@).len() >= 2),
        ensures
            match header {
                Some(h) => if h@.len() == 0 {
                    res is None
                } else {
                    res matches Some(t) && t@ == split_spaces(h@)[1]
                },
                None => res is None,
            },
    {
        match header {
            None => None,
            Some(h) => {
                if h.is_empty() {
                    None
                } else {
                    token_from_header(h)
                }
            },
        }
    }

    /// Whether the request with this `Authorization` header passes, its token
    /// read with `key`. It passes only when the token's claims under `key` are a
    /// user's with exactly the guard's role; a token issued for a user of
    /// another role never passes.
    pub fn check(&self, header: Option<&str>, key: &str) -> (res: Status)
        requires
            header matches Some(h) ==> (h@.len() > 0 ==> split_spaces(h@).len() >= 2),
        ensures
            res == Status::SUCCESS ==> (header matches Some(h) && h@.len() > 0 && (jwt_claims(split_spaces(h@)[1], key@)
                matches Some(c) && claims_complete(c) && c.role == Some(self.role_view()))),
            header matches Some(h) && h@.len() > 0 && jwt_claims(split_spaces(h@)[1], key@) is None ==> res
                == Status::FAIL,
            forall|user: UserToken|
                header matches Some(h) && h@.len() > 0 && jwt_claims(split_spaces(h@)[1], key@) == Some(
                    #[trigger] issued_claims(user),
                ) && user.role@ != self.role_view() ==> res == Status::FAIL,
            exists|decoded: Option<UserToken>|
                #[trigger] may_decode_as(header_token(header_text(header)), key@, decoded) && (res == Status::SUCCESS
                    <==> middleware_passes(header_text(header), decoded, self.role_view())),
    {
        let ghost token_text = header_token(header_text(header));
        match self.token(header) {
            None => {
                assert(may_decode_as(token_text, key@, None));
                Status::FAIL
            },
            Some(token) => match decode_user_token(token.as_str(), key) {
                Ok(user) => {
                    let res = self.status(Some(user.role.as_str()));
                    assert(may_decode_as(token_text, key@, Some(user)));
                    res
                },
                Err(_) => {
                    assert(may_decode_as(token_text, key@, None));
                    Status::FAIL
                },
            },
        }
    }

    /// Whether the request passes, given the role carried by its token (`None`
    /// when there was no token or it did not decode).
    pub fn status(&self, token_role: Option<&str>) -> (res: Status)
        ensures
            res == Status::SUCCESS <==> (token_role matches Some(r) && r@ == self.role_view()),
    {
        match token_role {
            Some(r) => if r.to_owned() == self.role {
                Status::SUCCESS
            } else {
                Status::FAIL
            },
            None => Status::FAIL,
        }
    }
}

/// The refusal answered by `auth_fn`.
pub open spec fn unauthorized(e: ErrorResponse) -> bool {
    error_is(e, "fail"@, 401, "Unauthorized"@)
}

/// The refusal answered by `auth_fn`.
pub fn unauthorized_response() -> (res: ErrorResponse)
    ensures
        unauthorized(res),
{
    ErrorResponse::new("fail", 401, "Unauthorized")
}

/// First step of `auth_fn`: the token to verify, or the refusal when the
/// header is missing, empty, or has no second word.
pub fn auth_fn_token(header: Option<&str>) -> (res: Result<String, ErrorResponse>)
    ensures
        match header {
            Some(h) => if h@.len() == 0 || split_spaces(h@).len() < 2 {
                res matches Err(e) && unauthorized(e)
            } else {
                res matches Ok(t) && t@ == split_spaces(h@)[1]
            },
            None => res matches Err(e) && unauthorized(e),
        },
{
    match header {
        None => Err(unauthorized_response()),
        Some(h) => {
            if h.is_empty() {
                return Err(unauthorized_response());
            }
            match token_from_header(h) {
                Some(t) => Ok(t),
                None => Err(unauthorized_response()),
            }
        },
    }
}

/// `auth_fn` with the server's key: the request passes exactly when its header
/// holds a token, `jsonwebtoken` accepts it under `key`, its claims describe a
/// user, and that user's role is `role`. A header without a token, or a token
/// without claims under `key`, is refused; so is a token issued for a user of
/// another role.
pub fn auth_fn_with_key(header: Option<&str>, key: &str, role: &str) -> (res: Result<(), ErrorResponse>)
    ensures
        res matches Err(e) ==> unauthorized(e),
        (match header {
            Some(h) => h@.len() == 0 || split_spaces(h@).len() < 2,
            None => true,
        }) ==> res is Err,
        res is Ok ==> (header matches Some(h) && h@.len() > 0 && split_spaces(h@).len() >= 2 && (jwt_claims(
            split_spaces(h@)[1],
            key@,
        ) matches Some(c) && claims_complete(c) && c.role == Some(role@))),
        header matches Some(h) && split_spaces(h@).len() >= 2 && jwt_claims(split_spaces(h@)[1], key@) is None
            ==> res is Err,
        forall|user: UserToken|
            header matches Some(h) && split_spaces(h@).len() >= 2 && jwt_claims(
                split_spaces(h@)[1],
                key@,
            ) == Some(#[trigger] issued_claims(user)) && user.role@ != role@ ==> res is Err,
        exists|decoded: Option<UserToken>|
            #[trigger] may_decode_as(header_token(header_text(header)), key@, decoded) && (res is Ok
                <==> auth_fn_passes(header_text(header), decoded, role@)),
{
    let ghost token_text = header_token(header_text(header));
    let token = match auth_fn_token(header) {
        Ok(t) => t,
        Err(e) => {
            assert(may_decode_as(token_text, key@, None));
            return Err(e);
        },
    };
    match decode_user_token(token.as_str(), key) {
        Ok(user) => {
            let res = auth_fn_role(Some(user.role.as_str()), role);
            assert(may_decode_as(token_text, key@, Some(user)));
            res
        },
        Err(_) => {
            assert(may_decode_as(token_text, key@, None));
            auth_fn_role(None, role)
        },
    }
}

/// Second step of `auth_fn`: the request passes exactly when its token decoded
/// and carries the required role, compared as whole texts.
pub fn auth_fn_role(token_role: Option<&str>, role: &str) -> (res: Result<(), ErrorResponse>)
    ensures
        res is Ok <==> (token_role matches Some(r) && r@ == role@),
        res matches Err(e) ==> unauthorized(e),
{
    match token_role {
        Some(r) => if r.to_owned() == role.to_owned() {
            Ok(())
        } else {
            Err(unauthorized_response())
        },
        None => Err(unauthorized_response()),
    }
}

} // verus!
