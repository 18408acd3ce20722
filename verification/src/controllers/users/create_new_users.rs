//! Registering a new member account.
use chrono::NaiveDateTime;
use vstd::prelude::*;
use crate::config::auth::{aes256_encrypt_base64, Auth};
use crate::ids::{new_v4, uuid_variant, uuid_version};
use crate::interface::global::{byte_len, response_is, text_byte_len, ResponseJson, ResponseJsonWithData};
use crate::models::{Role, Users};

verus! {

/// The body of a request to register a user.
#[derive(Debug)]
pub struct NewUsers {
    pub name: String,
    pub nrp: String,
    pub password: String,
}

/// The first rule a registration request breaks, as the message to answer with.
pub open spec fn new_users_error(args: NewUsers) -> Option<Seq<char>> {
    if byte_len(args.name@) == 0 {
        Some("Name can not be empty"@)
    } else if byte_len(args.name@) > 40 {
        Some("Nama tidak boleh lebih dari 40 char"@)
    } else if byte_len(args.nrp@) > 20 {
        Some("Nama tidak boleh lebih dari 20 char"@)
    } else if byte_len(args.nrp@) == 0 {
        Some("NRP Can not be empty"@)
    } else if byte_len(args.password@) == 0 {
        Some("Password can not be empty"@)
    } else {
        None
    }
}

/// A registration request is refused exactly when it breaks one of its rules: a
/// name of 1 to 40 bytes, an NRP of 1 to 20 bytes, a non-empty password. The
/// message names the first rule broken, in that order; each message comes
/// only when its rule is broken and the rules before it hold.
pub proof fn registration_rules(args: NewUsers)
    ensures
        new_users_error(args) is None <==> (0 < byte_len(args.name@) <= 40 && 0 < byte_len(args.nrp@) <= 20
            && byte_len(args.password@) > 0),
        new_users_error(args) == Some("Name can not be empty"@) <==> byte_len(args.name@) == 0,
        new_users_error(args) == Some("Nama tidak boleh lebih dari 40 char"@) <==> byte_len(args.name@) > 40,
        new_users_error(args) == Some("Nama tidak boleh lebih dari 20 char"@) <==> (0 < byte_len(args.name@)
            <= 40 && byte_len(args.nrp@) > 20),
        new_users_error(args) == Some("NRP Can not be empty"@) <==> (0 < byte_len(args.name@) <= 40 && byte_len(
            args.nrp@,
        ) == 0),
        new_users_error(args) == Some("Password can not be empty"@) <==> (0 < byte_len(args.name@) <= 40 && 0
            < byte_len(args.nrp@) <= 20 && byte_len(args.password@) == 0),
{
    reveal_strlit("Name can not be empty");
    reveal_strlit("Nama tidak boleh lebih dari 40 char");
    reveal_strlit("Nama tidak boleh lebih dari 20 char");
    reveal_strlit("NRP Can not be empty");
    reveal_strlit("Password can not be empty");
    let empty_name = "Name can not be empty"@;
    let long_name = "Nama tidak boleh lebih dari 40 char"@;
    let long_nrp = "Nama tidak boleh lebih dari 20 char"@;
    let empty_nrp = "NRP Can not be empty"@;
    let empty_password = "Password can not be empty"@;
    assert(empty_name.len() != long_name.len() && empty_name.len() != long_nrp.len());
    assert(empty_name.len() != empty_nrp.len() && empty_name.len() != empty_password.len());
    assert(long_name.len() != empty_nrp.len() && long_name.len() != empty_password.len());
    assert(long_nrp.len() != empty_nrp.len() && long_nrp.len() != empty_password.len());
    assert(empty_nrp.len() != empty_password.len());
    assert(long_name[28] != long_nrp[28]);
}

/// Checks a registration request: a name of 1 to 40 bytes, an NRP of 1 to 20
/// bytes and a non-empty password; the first rule broken is reported.
pub fn validator(args: &NewUsers) -> (res: Result<(), String>)
    ensures
        match new_users_error(*args) {
            None => res is Ok,
            Some(message) => res matches Err(m) && m@ == message,
        },
        res is Ok <==> (0 < byte_len(args.name@) <= 40 && 0 < byte_len(args.nrp@) <= 20 && byte_len(
            args.password@,
        ) > 0),
        byte_len(args.name@) == 0 ==> (res matches Err(m) && m@ == "Name can not be empty"@),
        byte_len(args.name@) > 40 ==> (res matches Err(m) && m@ == "Nama tidak boleh lebih dari 40 char"@),
{
    if text_byte_len(&args.name) == 0 {
        return Err("Name can not be empty".to_owned());
    }
    if text_byte_len(&args.name) > 40 {
        return Err("Nama tidak boleh lebih dari 40 char".to_owned());
    }
    if text_byte_len(&args.nrp) > 20 {
        return Err("Nama tidak boleh lebih dari 20 char".to_owned());
    }
    if text_byte_len(&args.nrp) == 0 {
        return Err("NRP Can not be empty".to_owned());
    }
    if text_byte_len(&args.password) == 0 {
        return Err("Password can not be empty".to_owned());
    }
    Ok(())
}

/// The answer to a request that breaks a rule.
pub fn invalid_request(message: String) -> (res: ResponseJson)
    ensures
        res.message == message,
        res.status@ == "fail"@,
        res.status_code == 400,
{
    ResponseJson { status: "fail".to_owned(), status_code: 400, message }
}

/// The account to insert for a request: a fresh random id, the request's name
/// and NRP, the password encrypted with the private key, and the member role.
pub fn new_member(req: &NewUsers, private_key: &str) -> (res: Users)
    ensures
        uuid_version(res.id) == 4,
        uuid_variant(res.id) == 2,
        res.name@ == req.name@,
        res.nrp@ == req.nrp@,
        res.password matches Some(p) && p@ == aes256_encrypt_base64(private_key@, req.password@),
        res.role == Role::MEMBER,
{
    let auth = Auth { plain: req.password.clone() };
    Users {
        id: new_v4(),
        name: req.name.clone(),
        nrp: req.nrp.clone(),
        password: Some(auth.encrypt(private_key)),
        role: Role::MEMBER,
    }
}

/// The data answered for a registered user.
#[derive(Debug)]
pub struct UsersResult {
    pub id: u128,
    pub nrp: String,
    pub name: String,
    pub created_at: Option<NaiveDateTime>,
}

/// The answer once the insert was tried. The inserted row comes back as
/// `(id, nrp, name, created_at)` and is read positionally as
/// `(id, name, nrp, created_at)`, so the answer's `name` holds the NRP column
/// and its `nrp` the name column. A failed insert means the NRP is taken.
pub fn created_user_response(inserted: Result<(u128, String, String, Option<NaiveDateTime>), ()>) -> (res: Result<ResponseJsonWithData<UsersResult>, ResponseJson>)
    ensures
        match inserted {
            Err(_) => res matches Err(e) && response_is(e, "fail"@, 400, "NRP telah digunakan"@),
            Ok(row) => res matches Ok(body) && {
                &&& body.status@ == "success"@
                &&& body.status_code == 200
                &&& body.message@ == "success"@
                &&& body.data.id == row.0
                &&& body.data.name == row.1
                &&& body.data.nrp == row.2
                &&& body.data.created_at == row.3
            },
        },
{
    match inserted {
        Err(_) => Err(ResponseJson::new("fail", 400, "NRP telah digunakan")),
        Ok((id, name, nrp, created_at)) => {
            let data = UsersResult { id, name, created_at, nrp };
            Ok(ResponseJsonWithData::new("success", 200, "success", data))
        },
    }
}

} // verus!
