//! Member roles of the community demonstration store.

use vstd::prelude::*;
use crate::text::{to_lowercase, lowercase, str_eq};

verus! {

/// A member's role.
#[derive(Debug, Clone, Copy, PartialEq, Eq, Structural)]
pub enum MemberRole {
    Member,
    Developer,
    Admin,
}

/// The stored name of a role.
pub open spec fn role_name(r: MemberRole) -> Seq<char> {
    match r {
        MemberRole::Member => "member"@,
        MemberRole::Developer => "developer"@,
        MemberRole::Admin => "admin"@,
    }
}

/// The role a name denotes, ignoring case; any unknown name is a plain
/// member.
pub open spec fn role_of(s: Seq<char>) -> MemberRole {
    let l = lowercase(s);
    if l == "admin"@ {
        MemberRole::Admin
    } else if l == "developer"@ {
        MemberRole::Developer
    } else {
        MemberRole::Member
    }
}

impl MemberRole {
    /// The stored name of the role.
    pub fn as_str(&self) -> (s: &'static str)
        ensures
            s@ == role_name(*self),
    {
        match self {
            MemberRole::Member => "member",
            MemberRole::Developer => "developer",
            MemberRole::Admin => "admin",
        }
    }

    /// The role a name denotes, ignoring case; unknown names give a member.
    pub fn from_string(s: &str) -> (r: Self)
        ensures
            r == role_of(s@),
    {
        let l = to_lowercase(s);
        if str_eq(l.as_str(), "admin") {
            MemberRole::Admin
        } else if str_eq(l.as_str(), "developer") {
            MemberRole::Developer
        } else {
            MemberRole::Member
        }
    }
}

/// Reading back the stored name of a role gives the role.
pub proof fn lemma_role_round_trip(r: MemberRole)
    ensures
        role_of(role_name(r)) == r,
{
    reveal_strlit("member");
    reveal_strlit("developer");
    reveal_strlit("admin");
    crate::community::models::lemma_lowercase_word(role_name(r));
    if r == MemberRole::Member {
        assert(role_name(r) != "admin"@ && role_name(r) != "developer"@) by {
            assert(role_name(r).len() == 6);
        }
    }
    if r == MemberRole::Developer {
        assert(role_name(r) != "admin"@) by {
            assert(role_name(r).len() == 9);
        }
    }
}

} // verus!
