//! Login tokens: JSON Web Tokens signed with the server's key (HMAC-SHA256),
//! issued and read through `jsonwebtoken`, and the user their claims describe.
use jsonwebtoken::errors::Error as JwtError;
use jsonwebtoken::{decode, encode, Algorithm, DecodingKey, EncodingKey, Header, Validation};
use serde_json::Value;
use vstd::prelude::*;
use crate::ids::{parse_uuid, uuid_parse, uuid_text, uuid_to_string};
use crate::interface::global::UserToken;

verus! {

/// The error of `jsonwebtoken`, carried through unread.
#[verifier::external_type_specification]
#[verifier::external_body]
pub struct ExJwtError(JwtError);

/// The claims a token's payload holds, field by field: the JSON string under
/// `nrp`, `name`, `id` and `role`, the unsigned integer under `exp`, or none
/// where the field is missing or holds another kind of value.
pub struct ClaimFields {
    pub nrp: Option<Seq<char>>,
    pub name: Option<Seq<char>>,
    pub id: Option<Seq<char>>,
    pub role: Option<Seq<char>>,
    pub exp: Option<u64>,
}

/// A text that may be missing, as a sequence of characters.
pub open spec fn text_view(o: Option<String>) -> Option<Seq<char>> {
    match o {
        Some(s) => Some(s@),
        None => None,
    }
}

/// The claims read out of a token's payload.
pub struct TokenClaims {
    pub nrp: Option<String>,
    pub name: Option<String>,
    pub id: Option<String>,
    pub role: Option<String>,
    pub exp: Option<u64>,
}

impl View for TokenClaims {
    type V = ClaimFields;

    open spec fn view(&self) -> ClaimFields {
        ClaimFields {
            nrp: text_view(self.nrp),
            name: text_view(self.name),
            id: text_view(self.id),
            role: text_view(self.role),
            exp: self.exp,
        }
    }
}

/// What a token carries when its header names HS256, its signature is the
/// HMAC-SHA256 under `key` of its first two parts, and its payload is JSON:
/// the claims of that payload. None for any other token.
pub uninterp spec fn jwt_claims(token: Seq<char>, key: Seq<char>) -> Option<ClaimFields>;

/// The token `jsonwebtoken::encode` makes with the default header (HS256) and
/// `key` as HMAC secret, for a payload object holding these five claims.
pub uninterp spec fn jwt_token(nrp: Seq<char>, name: Seq<char>, id: Seq<char>, role: Seq<char>, exp: u64, key: Seq<char>) -> Seq<char>;

/// The claims a login token is issued with for `user`.
pub open spec fn issued_claims(user: UserToken) -> ClaimFields {
    ClaimFields {
        nrp: Some(user.nrp@),
        name: Some(user.name@),
        id: Some(uuid_text(user.id)),
        role: Some(user.role@),
        exp: Some(user.exp as u64),
    }
}

/// Calls `jsonwebtoken::encode` with `Header::default()` (HS256, type JWT), the
/// key's bytes as HMAC secret, and a JSON object of the five claims. Trusted: a
/// token is made (the key's family is HMAC as HS256 asks, serialising a header
/// and a map of strings and an integer cannot fail, and HMAC signing returns
/// `Ok`); it is the value named by `jwt_token`; and (the signature being the
/// HMAC of the first two parts, and the payload the base64 of the object's JSON)
/// it carries exactly these claims under the same key.
#[verifier::external_body]
fn encode_hs256(nrp: &str, name: &str, id: &str, role: &str, exp: u64, key: &str) -> (res: Result<String, JwtError>)
    ensures
        res is Ok,
        res matches Ok(t) ==> t@ == jwt_token(nrp@, name@, id@, role@, exp, key@),
        res matches Ok(t) ==> jwt_claims(t@, key@) == Some(
            ClaimFields { nrp: Some(nrp@), name: Some(name@), id: Some(id@), role: Some(role@), exp: Some(exp) },
        ),
{
    let mut claims = serde_json::Map::new();
    claims.insert("nrp".to_owned(), Value::from(nrp));
    claims.insert("name".to_owned(), Value::from(name));
    claims.insert("id".to_owned(), Value::from(id));
    claims.insert("role".to_owned(), Value::from(role));
    claims.insert("exp".to_owned(), Value::from(exp));
    encode(&Header::default(), &claims, &EncodingKey::from_secret(key.as_bytes()))
}

/// Calls `jsonwebtoken::decode` into a JSON value, with `Validation::new(HS256)`
/// and the key's bytes as HMAC secret, and reads the five claims out of it.
/// Trusted: a token that `jwt_claims` gives nothing for is refused, and an
/// accepted one yields the claims `jwt_claims` names. A token with claims may
/// still be refused: the expiry is checked against the clock (with 60 s of
/// leeway), and a missing `exp` is refused; which of these happens is left unsaid.
#[verifier::external_body]
fn decode_hs256(token: &str, key: &str) -> (res: Result<TokenClaims, JwtError>)
    ensures
        jwt_claims(token@, key@) is None ==> res is Err,
        res matches Ok(c) ==> jwt_claims(token@, key@) == Some(c@),
{
    let key = DecodingKey::from_secret(key.as_bytes());
    let data = decode::<Value>(token, &key, &Validation::new(Algorithm::HS256))?.claims;
    let text = |field: &str| data.get(field).and_then(Value::as_str).map(str::to_owned);
    let exp = data.get("exp").and_then(Value::as_u64);
    Ok(TokenClaims { nrp: text("nrp"), name: text("name"), id: text("id"), role: text("role"), exp })
}

/// Whether claims describe a user the way `UserToken` reads them: every field
/// there, `id` a UUID and `exp` within `usize`.
pub open spec fn claims_complete(c: ClaimFields) -> bool {
    &&& c.nrp is Some
    &&& c.name is Some
    &&& c.role is Some
    &&& c.id matches Some(id) && uuid_parse(id) is Some
    &&& c.exp matches Some(e) && e <= usize::MAX
}

/// Whether `user` is the user that claims `c` describe.
pub open spec fn claims_describe(c: ClaimFields, user: UserToken) -> bool {
    &&& c.nrp == Some(user.nrp@)
    &&& c.name == Some(user.name@)
    &&& c.role == Some(user.role@)
    &&& c.id matches Some(id) && uuid_parse(id) == Some(user.id)
    &&& c.exp == Some(user.exp as u64)
}

/// Whether two users' claims agree field by field.
pub open spec fn same_user(a: UserToken, b: UserToken) -> bool {
    a.nrp@ == b.nrp@ && a.name@ == b.name@ && a.id == b.id && a.role@ == b.role@ && a.exp == b.exp
}

/// The user that a token's claims describe, or none when they do not describe one.
/// Claims issued for a user give that very user back.
pub fn user_token_from_claims(c: TokenClaims) -> (res: Option<UserToken>)
    ensures
        res is Some <==> claims_complete(c@),
        res matches Some(u) ==> claims_describe(c@, u),
        forall|user: UserToken| #[trigger] issued_claims(user) == c@ ==> (res matches Some(u) && same_user(u, user)),
{
    let id_text = match &c.id {
        Some(t) => t,
        None => return None,
    };
    let id = match parse_uuid(id_text.as_str()) {
        Ok(id) => id,
        Err(_) => return None,
    };
    let exp = match c.exp {
        Some(e) => if e <= usize::MAX as u64 {
            e as usize
        } else {
            return None;
        },
        None => return None,
    };
    match (c.nrp, c.name, c.role) {
        (Some(nrp), Some(name), Some(role)) => Some(UserToken { nrp, name, id, role, exp }),
        _ => None,
    }
}

/// Why a token was not taken as a login token.
#[derive(Debug)]
pub enum TokenRejected {
    /// `jsonwebtoken` refused it: a bad form or signature, no expiry, or expired.
    Refused(JwtError),
    /// Its claims do not describe a user.
    NotAUserToken,
}

/// The user a token decoded by `jsonwebtoken` describes: what follows the
/// decoding, for each thing the decoding can give.
pub fn user_token_outcome(decoded: Result<TokenClaims, JwtError>) -> (res: Result<UserToken, TokenRejected>)
    ensures
        match decoded {
            Err(_) => res is Err && res->Err_0 is Refused,
            Ok(c) => {
                &&& res is Ok <==> claims_complete(c@)
                &&& res matches Ok(u) ==> claims_describe(c@, u)
                &&& res is Err ==> res->Err_0 is NotAUserToken
                &&& forall|user: UserToken| #[trigger] issued_claims(user) == c@ ==> (res matches Ok(u) && same_user(u, user))
            },
        },
{
    match decoded {
        Err(e) => Err(TokenRejected::Refused(e)),
        Ok(c) => match user_token_from_claims(c) {
            Some(u) => Ok(u),
            None => Err(TokenRejected::NotAUserToken),
        },
    }
}

/// Reads a login token signed with `key`. A token without valid claims under
/// `key` is refused; an accepted one gives the user its claims describe, and a
/// token issued for a user gives that user back whenever it is accepted.
pub fn decode_user_token(token: &str, key: &str) -> (res: Result<UserToken, TokenRejected>)
    ensures
        jwt_claims(token@, key@) is None ==> res is Err && res->Err_0 is Refused,
        res matches Ok(u) ==> jwt_claims(token@, key@) matches Some(c) && claims_describe(c, u),
        forall|user: UserToken| jwt_claims(token@, key@) == Some(#[trigger] issued_claims(user)) ==> (res
            matches Ok(u) ==> same_user(u, user)) && !(res matches Err(TokenRejected::NotAUserToken)),
{
    user_token_outcome(decode_hs256(token, key))
}

/// Signs a login token for `user` with `key`: the token `jsonwebtoken` makes for
/// the user's claims, which carries exactly those claims under the same key.
pub fn issue_token(user: &UserToken, key: &str) -> (res: String)
    ensures
        res@ == jwt_token(user.nrp@, user.name@, uuid_text(user.id), user.role@, user.exp as u64, key@),
        jwt_claims(res@, key@) == Some(issued_claims(*user)),
{
    let id = uuid_to_string(user.id);
    match encode_hs256(user.nrp.as_str(), user.name.as_str(), id.as_str(), user.role.as_str(), user.exp as u64, key) {
        Ok(token) => token,
        Err(_) => {
            proof {
                assert(false);
            }
            String::new()
        },
    }
}

} // verus!
