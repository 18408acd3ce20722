//! Searching members by name.
use vstd::prelude::*;
use crate::controllers::auth::login::{error_is, ErrorResponse};
use crate::interface::global::ResponseJsonWithData;

verus! {

/// The query string of a member search.
#[derive(Debug)]
pub struct Info {
    pub search: Option<String>,
}

/// The SQL to run for a search, with its one text parameter if it has one.
pub struct UsersQuery {
    pub sql: String,
    pub param: Option<String>,
}

/// With a search text, users whose name contains it (case-insensitively,
/// `ILIKE '%text%'`); without one, the first ten users.
pub fn users_query(info: &Info) -> (res: UsersQuery)
    ensures
        match info.search {
            Some(search) => {
                &&& res.sql@ == "SELECT id, name FROM users WHERE name ILIKE $1"@
                &&& res.param matches Some(p) && p@ == "%"@ + search@ + "%"@
            },
            None => res.sql@ == "SELECT id, name FROM users LIMIT 10"@ && res.param is None,
        },
{
    match &info.search {
        Some(search) => {
            let mut pattern = "%".to_owned();
            pattern.append(search.as_str());
            pattern.append("%");
            UsersQuery { sql: "SELECT id, name FROM users WHERE name ILIKE $1".to_owned(), param: Some(pattern) }
        },
        None => UsersQuery { sql: "SELECT id, name FROM users LIMIT 10".to_owned(), param: None },
    }
}

/// The answer when the query failed with the error text `err`.
pub fn users_query_failed(err: &str) -> (res: ErrorResponse)
    ensures
        error_is(res, "error"@, 400, "Something went wrong "@ + err@),
{
    let mut message = "Something went wrong ".to_owned();
    message.append(err);
    ErrorResponse { status_code: 400, message, status: "error".to_owned() }
}

/// The answer listing the users found.
pub fn users_found<T>(rows: Vec<T>) -> (res: ResponseJsonWithData<Vec<T>>)
    ensures
        res.data == rows,
        res.status@ == "success"@,
        res.status_code == 200,
        res.message@ == "success"@,
{
    ResponseJsonWithData::new("success", 200, "success", rows)
}

} // verus!
