use vstd::prelude::*;

verus! {

/// The role a user account holds.
#[derive(Debug, Clone, Copy, PartialEq, Eq, Structural)]
pub enum Role {
    ADMIN,
    MEMBER,
}

/// The text a role is displayed and stored as.
pub open spec fn role_name(role: Role) -> Seq<char> {
    match role {
        Role::ADMIN => seq!['A', 'D', 'M', 'I', 'N'],
        Role::MEMBER => seq!['M', 'E', 'M', 'B', 'E', 'R'],
    }
}

/// The bytes a role is written as in the `role_type` column.
pub open spec fn role_bytes(role: Role) -> Seq<u8> {
    match role {
        Role::ADMIN => seq![65u8, 68u8, 77u8, 73u8, 78u8],
        Role::MEMBER => seq![77u8, 69u8, 77u8, 66u8, 69u8, 82u8],
    }
}

/// The role that stored bytes name, if any.
pub open spec fn decode_role(bytes: Seq<u8>) -> Option<Role> {
    if bytes == role_bytes(Role::ADMIN) {
        Some(Role::ADMIN)
    } else if bytes == role_bytes(Role::MEMBER) {
        Some(Role::MEMBER)
    } else {
        None
    }
}

/// The error returned when stored bytes name no role.
#[derive(Debug, Clone, Copy, PartialEq, Eq, Structural)]
pub enum RoleDecodeError {
    UncategorizedEnum,
}

impl Role {
    /// The role's name as text; never fails.
    pub fn from_str(&self) -> (res: Result<String, ()>)
        ensures
            res matches Ok(s) && s@ == role_name(*self),
    {
        match self {
            Role::ADMIN => {
                proof {
                    reveal_strlit("ADMIN");
                }
                Ok("ADMIN".to_owned())
            },
            Role::MEMBER => {
                proof {
                    reveal_strlit("MEMBER");
                }
                Ok("MEMBER".to_owned())
            },
        }
    }

    /// The role as displayed to people.
    pub fn to_string(&self) -> (res: String)
        ensures
            res@ == role_name(*self),
    {
        match self {
            Role::ADMIN => {
                proof {
                    reveal_strlit("ADMIN");
                }
                "ADMIN".to_owned()
            },
            Role::MEMBER => {
                proof {
                    reveal_strlit("MEMBER");
                }
                "MEMBER".to_owned()
            },
        }
    }

    /// The bytes written for this role in the database.
    pub fn to_sql(&self) -> (res: Vec<u8>)
        ensures
            res@ == role_bytes(*self),
    {
        match self {
            Role::ADMIN => vec![65u8, 68u8, 77u8, 73u8, 78u8],
            Role::MEMBER => vec![77u8, 69u8, 77u8, 66u8, 69u8, 82u8],
        }
    }

    /// Reads a role back from the bytes stored in the database.
    pub fn from_sql(bytes: &[u8]) -> (res: Result<Role, RoleDecodeError>)
        ensures
            res == match decode_role(bytes@) {
                Some(r) => Ok::<Role, RoleDecodeError>(r),
                None => Err(RoleDecodeError::UncategorizedEnum),
            },
    {
        let n = bytes.len();
        if n == 5 && bytes[0] == 65u8 && bytes[1] == 68u8 && bytes[2] == 77u8 && bytes[3] == 73u8
            && bytes[4] == 78u8 {
            assert(bytes@ =~= role_bytes(Role::ADMIN));
            Ok(Role::ADMIN)
        } else if n == 6 && bytes[0] == 77u8 && bytes[1] == 69u8 && bytes[2] == 77u8 && bytes[3]
            == 66u8 && bytes[4] == 69u8 && bytes[5] == 82u8 {
            assert(bytes@ =~= role_bytes(Role::MEMBER));
            Ok(Role::MEMBER)
        } else {
            Err(RoleDecodeError::UncategorizedEnum)
        }
    }
}

impl RoleDecodeError {
    /// The message the database layer reports for this error.
    pub fn message(&self) -> (res: String)
        ensures
            res@ == "Uncategorize enum"@,
    {
        "Uncategorize enum".to_owned()
    }
}

/// A user account as stored in the `users` table.
#[derive(Debug, Clone)]
pub struct Users {
    pub id: u128,
    pub nrp: String,
    pub name: String,
    pub password: Option<String>,
    pub role: Role,
}

/// Reading back what was written for a role gives the same role.
pub proof fn role_sql_round_trip(role: Role)
    ensures
        decode_role(role_bytes(role)) == Some(role),
{
    assert(role_bytes(Role::ADMIN).len() != role_bytes(Role::MEMBER).len());
}

/// Distinct roles are written as distinct bytes.
pub proof fn role_bytes_injective(a: Role, b: Role)
    ensures
        role_bytes(a) == role_bytes(b) ==> a == b,
{
    assert(role_bytes(Role::ADMIN).len() != role_bytes(Role::MEMBER).len());
}

/// The stored bytes of a role are the UTF-8 encoding of its displayed name.
pub proof fn role_bytes_encode_name(role: Role)
    ensures
        role_bytes(role) == vstd::utf8::encode_utf8(role_name(role)),
{
    let name = role_name(role);
    assert(vstd::utf8::is_ascii_chars(name));
    vstd::utf8::is_ascii_chars_encode_utf8(name);
    assert(vstd::utf8::encode_utf8(name) =~= role_bytes(role));
}

} // verus!
