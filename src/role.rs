use vstd::prelude::*;

verus! {

/// Authorization level of a caller, totally ordered `Visitor < User < Root`.
#[derive(Clone, Copy, Debug, PartialEq, Eq, Structural)]
pub enum Role {
    Root,
    User,
    Visitor,
}

/// Numeric rank of a role: the order of roles is the order of their ranks.
pub open spec fn rank(r: Role) -> nat {
    match r {
        Role::Root => 2,
        Role::User => 1,
        Role::Visitor => 0,
    }
}

/// The name under which a role is stored and submitted in forms.
pub open spec fn role_name(r: Role) -> Seq<char> {
    match r {
        Role::Root => seq!['r', 'o', 'o', 't'],
        Role::User => seq!['u', 's', 'e', 'r'],
        Role::Visitor => seq!['v', 'i', 's', 'i', 't', 'o', 'r'],
    }
}

/// The role whose name is `s`, if any.
pub open spec fn role_named(s: Seq<char>) -> Option<Role> {
    if s == role_name(Role::Root) {
        Some(Role::Root)
    } else if s == role_name(Role::User) {
        Some(Role::User)
    } else if s == role_name(Role::Visitor) {
        Some(Role::Visitor)
    } else {
        None
    }
}

/// Whether two strings hold the same characters.
fn same_text(a: &str, b: &str) -> (r: bool)
    ensures
        r == (a@ == b@),
{
    let x: String = a.to_owned();
    let y: String = b.to_owned();
    x == y
}

impl Role {
    pub fn level(&self) -> (r: u8)
        ensures
            r as nat == rank(*self),
    {
        match self {
            Role::Root => 2,
            Role::User => 1,
            Role::Visitor => 0,
        }
    }

    /// Every role, highest first.
    pub fn all_roles() -> (r: Vec<Role>)
        ensures
            r@ == seq![Role::Root, Role::User, Role::Visitor],
    {
        vec![Role::Root, Role::User, Role::Visitor]
    }

    /// The role with the given name. Any other text is not a role: it gives
    /// `None`, so that callers decide what an unknown name means instead of
    /// the program stopping on it.
    pub fn parse(s: &str) -> (r: Option<Role>)
        ensures
            r == role_named(s@),
    {
        proof {
            reveal_strlit("root");
            reveal_strlit("user");
            reveal_strlit("visitor");
            assert("root"@ =~= role_name(Role::Root));
            assert("user"@ =~= role_name(Role::User));
            assert("visitor"@ =~= role_name(Role::Visitor));
        }
        if same_text(s, "root") {
            Some(Role::Root)
        } else if same_text(s, "user") {
            Some(Role::User)
        } else if same_text(s, "visitor") {
            Some(Role::Visitor)
        } else {
            None
        }
    }

    /// The stored name of the role.
    pub fn name(&self) -> (r: String)
        ensures
            r@ == role_name(*self),
    {
        proof {
            reveal_strlit("root");
            reveal_strlit("user");
            reveal_strlit("visitor");
            assert("root"@ =~= role_name(Role::Root));
            assert("user"@ =~= role_name(Role::User));
            assert("visitor"@ =~= role_name(Role::Visitor));
        }
        match self {
            Role::Root => "root".to_owned(),
            Role::User => "user".to_owned(),
            Role::Visitor => "visitor".to_owned(),
        }
    }
}

/// Roles compare by rank.
pub open spec fn role_cmp(a: Role, b: Role) -> core::cmp::Ordering {
    if rank(a) < rank(b) {
        core::cmp::Ordering::Less
    } else if rank(a) == rank(b) {
        core::cmp::Ordering::Equal
    } else {
        core::cmp::Ordering::Greater
    }
}

impl PartialOrd for Role {
    fn partial_cmp(&self, other: &Role) -> (r: Option<core::cmp::Ordering>)
        ensures
            r == Some(role_cmp(*self, *other)),
    {
        let a = self.level();
        let b = other.level();
        if a < b {
            Some(core::cmp::Ordering::Less)
        } else if a == b {
            Some(core::cmp::Ordering::Equal)
        } else {
            Some(core::cmp::Ordering::Greater)
        }
    }
}

impl vstd::std_specs::cmp::PartialOrdSpecImpl for Role {
    open spec fn obeys_partial_cmp_spec() -> bool {
        true
    }

    open spec fn partial_cmp_spec(&self, other: &Role) -> Option<core::cmp::Ordering> {
        Some(role_cmp(*self, *other))
    }
}

} // verus!
