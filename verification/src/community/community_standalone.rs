//! Roles and activity kinds of the self-contained community store, with
//! the names they are stored under.

use vstd::prelude::*;
use crate::text::{owned, push_str, str_eq};

verus! {

/// A member's role.
#[derive(Debug, Clone, Copy, PartialEq, Eq, Structural)]
pub enum MemberRole {
    Member,
    Admin,
    Developer,
}

/// The stored name of a role.
pub open spec fn role_name(r: MemberRole) -> Seq<char> {
    match r {
        MemberRole::Member => "member"@,
        MemberRole::Admin => "admin"@,
        MemberRole::Developer => "developer"@,
    }
}

/// The role a stored name denotes; the names are matched exactly.
pub open spec fn role_named(s: Seq<char>) -> Option<MemberRole> {
    if s == "member"@ {
        Some(MemberRole::Member)
    } else if s == "admin"@ {
        Some(MemberRole::Admin)
    } else if s == "developer"@ {
        Some(MemberRole::Developer)
    } else {
        None
    }
}

impl MemberRole {
    /// The stored name of the role.
    pub fn to_string(&self) -> (s: String)
        ensures
            s@ == role_name(*self),
    {
        match self {
            MemberRole::Member => owned("member"),
            MemberRole::Admin => owned("admin"),
            MemberRole::Developer => owned("developer"),
        }
    }

    /// Reads a stored role name; any other text is refused with
    /// `Invalid role: <text>`.
    pub fn from_string(s: &str) -> (r: Result<Self, String>)
        ensures
            role_named(s@) matches Some(role) ==> r == Ok::<MemberRole, String>(role),
            role_named(s@) is None ==> (r matches Err(e) && e@ == "Invalid role: "@ + s@),
    {
        if str_eq(s, "member") {
            Ok(MemberRole::Member)
        } else if str_eq(s, "admin") {
            Ok(MemberRole::Admin)
        } else if str_eq(s, "developer") {
            Ok(MemberRole::Developer)
        } else {
            let mut e = owned("Invalid role: ");
            push_str(&mut e, s);
            Err(e)
        }
    }
}

/// Reading back the stored name of a role gives the role.
pub proof fn lemma_role_name_round_trip(r: MemberRole)
    ensures
        role_named(role_name(r)) == Some(r),
{
    reveal_strlit("member");
    reveal_strlit("admin");
    reveal_strlit("developer");
    if r != MemberRole::Member {
        assert(role_name(r) != "member"@) by {
            assert(role_name(r)[0] != 'm');
        }
    }
    if r == MemberRole::Developer {
        assert(role_name(r) != "admin"@) by {
            assert(role_name(r)[0] != 'a');
        }
    }
}

/// Storing the role read from a name gives the name back.
pub proof fn lemma_role_named_round_trip(s: Seq<char>)
    requires
        role_named(s) is Some,
    ensures
        role_name(role_named(s)->Some_0) == s,
{
}

/// A member activity kind.
#[derive(Debug, Clone, PartialEq, Eq)]
pub enum ActivityType {
    Login,
    ProfileUpdate,
    ContentView,
    ContentShare,
    Comment,
    Like,
    Download,
    Upload,
    Custom(String),
}

/// An activity kind with the text of a custom one.
pub enum ActivityTypeView {
    Login,
    ProfileUpdate,
    ContentView,
    ContentShare,
    Comment,
    Like,
    Download,
    Upload,
    Custom(Seq<char>),
}

impl View for ActivityType {
    type V = ActivityTypeView;

    open spec fn view(&self) -> ActivityTypeView {
        match self {
            ActivityType::Login => ActivityTypeView::Login,
            ActivityType::ProfileUpdate => ActivityTypeView::ProfileUpdate,
            ActivityType::ContentView => ActivityTypeView::ContentView,
            ActivityType::ContentShare => ActivityTypeView::ContentShare,
            ActivityType::Comment => ActivityTypeView::Comment,
            ActivityType::Like => ActivityTypeView::Like,
            ActivityType::Download => ActivityTypeView::Download,
            ActivityType::Upload => ActivityTypeView::Upload,
            ActivityType::Custom(s) => ActivityTypeView::Custom(s@),
        }
    }
}

/// The stored name of an activity kind; a custom activity is stored as its
/// own text.
pub open spec fn activity_name(a: ActivityTypeView) -> Seq<char> {
    match a {
        ActivityTypeView::Login => "login"@,
        ActivityTypeView::ProfileUpdate => "profile_update"@,
        ActivityTypeView::ContentView => "content_view"@,
        ActivityTypeView::ContentShare => "content_share"@,
        ActivityTypeView::Comment => "comment"@,
        ActivityTypeView::Like => "like"@,
        ActivityTypeView::Download => "download"@,
        ActivityTypeView::Upload => "upload"@,
        ActivityTypeView::Custom(s) => s,
    }
}

/// The activity kind a stored name denotes: a known name gives its kind,
/// any other text a custom activity.
pub open spec fn activity_named(s: Seq<char>) -> ActivityTypeView {
    if s == "login"@ {
        ActivityTypeView::Login
    } else if s == "profile_update"@ {
        ActivityTypeView::ProfileUpdate
    } else if s == "content_view"@ {
        ActivityTypeView::ContentView
    } else if s == "content_share"@ {
        ActivityTypeView::ContentShare
    } else if s == "comment"@ {
        ActivityTypeView::Comment
    } else if s == "like"@ {
        ActivityTypeView::Like
    } else if s == "download"@ {
        ActivityTypeView::Download
    } else if s == "upload"@ {
        ActivityTypeView::Upload
    } else {
        ActivityTypeView::Custom(s)
    }
}

/// The text is one of the known activity names.
pub open spec fn known_activity_name(s: Seq<char>) -> bool {
    !(activity_named(s) is Custom)
}

impl ActivityType {
    /// The stored name of the activity kind.
    pub fn to_string(&self) -> (s: String)
        ensures
            s@ == activity_name(self@),
    {
        match self {
            ActivityType::Login => owned("login"),
            ActivityType::ProfileUpdate => owned("profile_update"),
            ActivityType::ContentView => owned("content_view"),
            ActivityType::ContentShare => owned("content_share"),
            ActivityType::Comment => owned("comment"),
            ActivityType::Like => owned("like"),
            ActivityType::Download => owned("download"),
            ActivityType::Upload => owned("upload"),
            ActivityType::Custom(s) => s.clone(),
        }
    }

    /// Reads a stored activity name; it never fails, unknown names being
    /// custom activities.
    pub fn from_string(s: &str) -> (r: Result<Self, String>)
        ensures
            r matches Ok(a) && a@ == activity_named(s@),
    {
        let a = if str_eq(s, "login") {
            ActivityType::Login
        } else if str_eq(s, "profile_update") {
            ActivityType::ProfileUpdate
        } else if str_eq(s, "content_view") {
            ActivityType::ContentView
        } else if str_eq(s, "content_share") {
            ActivityType::ContentShare
        } else if str_eq(s, "comment") {
            ActivityType::Comment
        } else if str_eq(s, "like") {
            ActivityType::Like
        } else if str_eq(s, "download") {
            ActivityType::Download
        } else if str_eq(s, "upload") {
            ActivityType::Upload
        } else {
            ActivityType::Custom(owned(s))
        };
        Ok(a)
    }
}

/// Storing the activity read from a name gives the name back.
pub proof fn lemma_activity_named_round_trip(s: Seq<char>)
    ensures
        activity_name(activity_named(s)) == s,
{
}

/// Reading back the stored name of an activity kind gives the kind, for
/// every kind but a custom activity that carries a known name.
pub proof fn lemma_activity_name_round_trip(a: ActivityTypeView)
    requires
        a matches ActivityTypeView::Custom(t) ==> !known_activity_name(t),
    ensures
        activity_named(activity_name(a)) == a,
{
    reveal_strlit("login");
    reveal_strlit("profile_update");
    reveal_strlit("content_view");
    reveal_strlit("content_share");
    reveal_strlit("comment");
    reveal_strlit("like");
    reveal_strlit("download");
    reveal_strlit("upload");
    let n = activity_name(a);
    match a {
        ActivityTypeView::Custom(t) => {},
        ActivityTypeView::Login => {
            assert(n.len() == 5);
        },
        ActivityTypeView::ProfileUpdate => {
            assert(n.len() == 14);
            assert(n != "login"@);
        },
        ActivityTypeView::ContentView => {
            assert(n.len() == 12);
            assert(n != "login"@);
            assert(n != "profile_update"@);
        },
        ActivityTypeView::ContentShare => {
            assert(n.len() == 13);
            assert(n != "login"@);
            assert(n != "profile_update"@);
            assert(n != "content_view"@);
        },
        ActivityTypeView::Comment => {
            assert(n.len() == 7);
            assert(n != "login"@);
            assert(n != "profile_update"@);
            assert(n != "content_view"@);
            assert(n != "content_share"@);
        },
        ActivityTypeView::Like => {
            assert(n.len() == 4);
            assert(n != "login"@);
            assert(n != "profile_update"@);
            assert(n != "content_view"@);
            assert(n != "content_share"@);
            assert(n != "comment"@);
        },
        ActivityTypeView::Download => {
            assert(n.len() == 8);
            assert(n != "login"@);
            assert(n != "profile_update"@);
            assert(n != "content_view"@);
            assert(n != "content_share"@);
            assert(n != "comment"@);
            assert(n != "like"@);
        },
        ActivityTypeView::Upload => {
            assert(n.len() == 6);
            assert(n != "login"@);
            assert(n != "profile_update"@);
            assert(n != "content_view"@);
            assert(n != "content_share"@);
            assert(n != "comment"@);
            assert(n != "like"@);
            assert(n != "download"@);
        },
    }
}

} // verus!
