use vstd::prelude::*;
use crate::role::Role;

verus! {

/// Who is calling: the subject's id, display name and authorization level.
#[derive(Debug)]
pub struct UserIdContext {
    pub id: i64,
    pub username: String,
    pub role: Role,
}

/// Display name of the anonymous caller.
pub open spec fn visitor_name() -> Seq<char> {
    seq!['v', 'i', 's', 'i', 't', 'o', 'r']
}

/// The identity of a caller that holds no valid session token.
pub open spec fn is_visitor_identity(u: UserIdContext) -> bool {
    &&& u.id == 0
    &&& u.username@ == visitor_name()
    &&& u.role == Role::Visitor
}

impl Clone for UserIdContext {
    fn clone(&self) -> (r: Self)
        ensures
            r == *self,
    {
        UserIdContext { id: self.id, username: self.username.clone(), role: self.role }
    }
}

impl UserIdContext {
    /// The anonymous identity.
    pub fn visitor() -> (r: UserIdContext)
        ensures
            is_visitor_identity(r),
    {
        proof {
            reveal_strlit("visitor");
            assert("visitor"@ =~= visitor_name());
        }
        UserIdContext { id: 0, username: "visitor".to_owned(), role: Role::Visitor }
    }
}

/// A stored user id with its encoded password hash.
#[derive(Debug)]
pub struct IdPassword {
    pub id: i64,
    pub password: Vec<u8>,
}

/// A row of the user list.
#[derive(Debug)]
pub struct ListUser {
    pub id: i64,
    pub username: String,
    pub role: Role,
}

/// A user as the edit form shows it.
#[derive(Debug)]
pub struct FetchUser {
    pub username: String,
    pub role: Role,
}

/// A user's encoded password hash.
#[derive(Debug)]
pub struct FetchPassword {
    pub password: Vec<u8>,
}

} // verus!
