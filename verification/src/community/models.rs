//! Community member roles, activity kinds and administrator permissions.

use vstd::prelude::*;
use crate::text::{all_ascii, ascii_lower, ascii_upper, lowercase, has_prefix, owned, push_str, str_eq, to_lowercase, chars_of, starts_with_chars, string_of_range};

verus! {

/// Member roles with hierarchical permissions.
#[derive(Debug, Clone, Copy, PartialEq, Eq, Structural)]
pub enum MemberRole {
    /// Regular community member - basic access
    Member,
    /// Developer - additional access to developer resources
    Developer,
    /// Administrator - full access to all features and admin panel
    Admin,
}

/// The storage name of a role.
pub open spec fn role_name(r: MemberRole) -> Seq<char> {
    match r {
        MemberRole::Member => "member"@,
        MemberRole::Developer => "developer"@,
        MemberRole::Admin => "admin"@,
    }
}

/// The role a stored name denotes: matched without regard to case, any
/// other name meaning a plain member.
pub open spec fn role_of(s: Seq<char>) -> MemberRole {
    let l = lowercase(s);
    if l == "admin"@ {
        MemberRole::Admin
    } else if l == "developer"@ {
        MemberRole::Developer
    } else {
        MemberRole::Member
    }
}

impl MemberRole {
    /// Whether this role has admin privileges.
    pub fn is_admin(&self) -> (b: bool)
        ensures
            b == (*self == MemberRole::Admin),
    {
        match self {
            MemberRole::Admin => true,
            _ => false,
        }
    }

    /// Whether this role has developer privileges (Developer or Admin).
    pub fn is_developer_or_higher(&self) -> (b: bool)
        ensures
            b == (*self == MemberRole::Developer || *self == MemberRole::Admin),
    {
        match self {
            MemberRole::Developer | MemberRole::Admin => true,
            _ => false,
        }
    }

    /// The role as stored in the database.
    pub fn as_str(&self) -> (s: &'static str)
        ensures
            s@ == role_name(*self),
    {
        match self {
            MemberRole::Member => "member",
            MemberRole::Developer => "developer",
            MemberRole::Admin => "admin",
        }
    }

    /// Parses a stored role, ignoring case; unknown names give `Member`.
    pub fn from_str(s: &str) -> (r: Self)
        ensures
            r == role_of(s@),
    {
        let l = to_lowercase(s);
        if str_eq(l.as_str(), "admin") {
            MemberRole::Admin
        } else if str_eq(l.as_str(), "developer") {
            MemberRole::Developer
        } else {
            MemberRole::Member
        }
    }
}

/// Reading back the stored name of a role gives the role.
pub proof fn lemma_role_round_trip(r: MemberRole)
    ensures
        role_of(role_name(r)) == r,
{
    reveal_strlit("member");
    reveal_strlit("developer");
    reveal_strlit("admin");
    lemma_lowercase_word(role_name(r));
    if r != MemberRole::Admin {
        assert(role_name(r) != "admin"@) by {
            assert(role_name(r).len() != 5 || role_name(r)[0] != 'a');
        }
    }
    if r == MemberRole::Member {
        assert(role_name(r) != "developer"@) by {
            assert(role_name(r).len() != 9);
        }
    }
}

/// ASCII lowercasing keeps a string's length and which characters are
/// ASCII, changes nothing on a second pass, and undoes ASCII uppercasing.
proof fn lemma_ascii_case(s: Seq<char>)
    ensures
        ascii_lower(s).len() == s.len(),
        all_ascii(ascii_lower(s)) == all_ascii(s),
        ascii_lower(ascii_lower(s)) == ascii_lower(s),
        ascii_lower(ascii_upper(s)) == ascii_lower(s),
{
    let l = ascii_lower(s);
    let u = ascii_upper(s);
    assert forall|i: int| 0 <= i < s.len() implies ((#[trigger] l[i] as u32) < 128) == ((s[i] as u32) < 128) by {}
    if all_ascii(s) {
        assert forall|i: int| 0 <= i < l.len() implies (#[trigger] l[i] as u32) < 128 by {
            assert((s[i] as u32) < 128);
        }
    }
    if all_ascii(l) {
        assert forall|i: int| 0 <= i < s.len() implies (#[trigger] s[i] as u32) < 128 by {
            assert((l[i] as u32) < 128);
        }
    }
    assert(ascii_lower(l) =~= l) by {
        assert forall|i: int| 0 <= i < l.len() implies #[trigger] ascii_lower(l)[i] == l[i] by {
            assert(!('A' <= l[i] && l[i] <= 'Z'));
        }
    }
    assert(ascii_lower(u) =~= l) by {
        assert forall|i: int| 0 <= i < l.len() implies #[trigger] ascii_lower(u)[i] == l[i] by {
            let c = s[i];
            if 'a' <= c && c <= 'z' {
                assert(u[i] == ((c as u32) - 32) as char);
            } else if 'A' <= c && c <= 'Z' {
                assert(u[i] == c);
            } else {
                assert(u[i] == c);
            }
        }
    }
}

/// Parsing a role ignores letter case: two strings that differ only in the
/// case of their ASCII letters give the same role, and so does a string
/// and its ASCII-uppercased and ASCII-lowercased forms.
pub proof fn lemma_role_ignores_case(s: Seq<char>, t: Seq<char>)
    requires
        ascii_lower(s) == ascii_lower(t),
    ensures
        role_of(s) == role_of(t),
        role_of(s) == role_of(ascii_upper(s)),
        role_of(s) == role_of(ascii_lower(s)),
{
    lemma_ascii_case(s);
    lemma_ascii_case(t);
    lemma_ascii_case(ascii_upper(s));
    lemma_ascii_case(ascii_lower(s));
    assert(lowercase(s) == lowercase(t));
    assert(lowercase(s) == lowercase(ascii_upper(s)));
    assert(lowercase(s) == lowercase(ascii_lower(s)));
}

/// Words of lowercase ASCII letters are their own lowercase form.
pub proof fn lemma_lowercase_word(s: Seq<char>)
    requires
        forall|i: int| 0 <= i < s.len() ==> 'a' <= #[trigger] s[i] <= 'z',
    ensures
        lowercase(s) == s,
{
    assert(all_ascii(s)) by {
        assert forall|i: int| 0 <= i < s.len() implies (#[trigger] s[i] as u32) < 128 by {
            assert('a' <= s[i] <= 'z');
        }
    }
    assert(ascii_lower(s) =~= s);
}

/// Activity types for tracking member engagement.
#[derive(Debug, Clone, PartialEq, Eq)]
pub enum ActivityType {
    Registration,
    Login,
    Logout,
    ProfileUpdate,
    EmailVerified,
    PasswordReset,
    DashboardView,
    AnalysisDownload,
    ReportGenerated,
    ApiCall,
    PluginInstall,
    ForumPost,
    CommentPosted,
    DocumentationView,
    TutorialComplete,
    AdminAction,
    RoleChanged,
    AccountDeactivated,
    /// Custom activity (with description)
    Custom(String),
}

/// The contents of an [`ActivityType`].
pub enum ActivityTypeView {
    Registration,
    Login,
    Logout,
    ProfileUpdate,
    EmailVerified,
    PasswordReset,
    DashboardView,
    AnalysisDownload,
    ReportGenerated,
    ApiCall,
    PluginInstall,
    ForumPost,
    CommentPosted,
    DocumentationView,
    TutorialComplete,
    AdminAction,
    RoleChanged,
    AccountDeactivated,
    Custom(Seq<char>),
}

impl View for ActivityType {
    type V = ActivityTypeView;

    open spec fn view(&self) -> ActivityTypeView {
        match self {
            ActivityType::Registration => ActivityTypeView::Registration,
            ActivityType::Login => ActivityTypeView::Login,
            ActivityType::Logout => ActivityTypeView::Logout,
            ActivityType::ProfileUpdate => ActivityTypeView::ProfileUpdate,
            ActivityType::EmailVerified => ActivityTypeView::EmailVerified,
            ActivityType::PasswordReset => ActivityTypeView::PasswordReset,
            ActivityType::DashboardView => ActivityTypeView::DashboardView,
            ActivityType::AnalysisDownload => ActivityTypeView::AnalysisDownload,
            ActivityType::ReportGenerated => ActivityTypeView::ReportGenerated,
            ActivityType::ApiCall => ActivityTypeView::ApiCall,
            ActivityType::PluginInstall => ActivityTypeView::PluginInstall,
            ActivityType::ForumPost => ActivityTypeView::ForumPost,
            ActivityType::CommentPosted => ActivityTypeView::CommentPosted,
            ActivityType::DocumentationView => ActivityTypeView::DocumentationView,
            ActivityType::TutorialComplete => ActivityTypeView::TutorialComplete,
            ActivityType::AdminAction => ActivityTypeView::AdminAction,
            ActivityType::RoleChanged => ActivityTypeView::RoleChanged,
            ActivityType::AccountDeactivated => ActivityTypeView::AccountDeactivated,
            ActivityType::Custom(d) => ActivityTypeView::Custom(d@),
        }
    }
}

/// The storage name of an activity type; custom activities are stored as
/// `custom:` followed by their description.
pub open spec fn activity_name(a: ActivityTypeView) -> Seq<char> {
    match a {
        ActivityTypeView::Registration => "registration"@,
        ActivityTypeView::Login => "login"@,
        ActivityTypeView::Logout => "logout"@,
        ActivityTypeView::ProfileUpdate => "profile_update"@,
        ActivityTypeView::EmailVerified => "email_verified"@,
        ActivityTypeView::PasswordReset => "password_reset"@,
        ActivityTypeView::DashboardView => "dashboard_view"@,
        ActivityTypeView::AnalysisDownload => "analysis_download"@,
        ActivityTypeView::ReportGenerated => "report_generated"@,
        ActivityTypeView::ApiCall => "api_call"@,
        ActivityTypeView::PluginInstall => "plugin_install"@,
        ActivityTypeView::ForumPost => "forum_post"@,
        ActivityTypeView::CommentPosted => "comment_posted"@,
        ActivityTypeView::DocumentationView => "documentation_view"@,
        ActivityTypeView::TutorialComplete => "tutorial_complete"@,
        ActivityTypeView::AdminAction => "admin_action"@,
        ActivityTypeView::RoleChanged => "role_changed"@,
        ActivityTypeView::AccountDeactivated => "account_deactivated"@,
        ActivityTypeView::Custom(d) => "custom:"@ + d,
    }
}

/// The activity type a stored name denotes.
pub open spec fn activity_of(s: Seq<char>) -> ActivityTypeView {
    if has_prefix(s, "custom:"@) {
        ActivityTypeView::Custom(s.subrange(7, s.len() as int))
    } else if s == "registration"@ {
        ActivityTypeView::Registration
    } else if s == "login"@ {
        ActivityTypeView::Login
    } else if s == "logout"@ {
        ActivityTypeView::Logout
    } else if s == "profile_update"@ {
        ActivityTypeView::ProfileUpdate
    } else if s == "email_verified"@ {
        ActivityTypeView::EmailVerified
    } else if s == "password_reset"@ {
        ActivityTypeView::PasswordReset
    } else if s == "dashboard_view"@ {
        ActivityTypeView::DashboardView
    } else if s == "analysis_download"@ {
        ActivityTypeView::AnalysisDownload
    } else if s == "report_generated"@ {
        ActivityTypeView::ReportGenerated
    } else if s == "api_call"@ {
        ActivityTypeView::ApiCall
    } else if s == "plugin_install"@ {
        ActivityTypeView::PluginInstall
    } else if s == "forum_post"@ {
        ActivityTypeView::ForumPost
    } else if s == "comment_posted"@ {
        ActivityTypeView::CommentPosted
    } else if s == "documentation_view"@ {
        ActivityTypeView::DocumentationView
    } else if s == "tutorial_complete"@ {
        ActivityTypeView::TutorialComplete
    } else if s == "admin_action"@ {
        ActivityTypeView::AdminAction
    } else if s == "role_changed"@ {
        ActivityTypeView::RoleChanged
    } else if s == "account_deactivated"@ {
        ActivityTypeView::AccountDeactivated
    } else {
        ActivityTypeView::Custom(s)
    }
}

impl ActivityType {
    /// The activity type as stored in the database.
    pub fn as_str(&self) -> (s: String)
        ensures
            s@ == activity_name(self@),
    {
        match self {
            ActivityType::Registration => owned("registration"),
            ActivityType::Login => owned("login"),
            ActivityType::Logout => owned("logout"),
            ActivityType::ProfileUpdate => owned("profile_update"),
            ActivityType::EmailVerified => owned("email_verified"),
            ActivityType::PasswordReset => owned("password_reset"),
            ActivityType::DashboardView => owned("dashboard_view"),
            ActivityType::AnalysisDownload => owned("analysis_download"),
            ActivityType::ReportGenerated => owned("report_generated"),
            ActivityType::ApiCall => owned("api_call"),
            ActivityType::PluginInstall => owned("plugin_install"),
            ActivityType::ForumPost => owned("forum_post"),
            ActivityType::CommentPosted => owned("comment_posted"),
            ActivityType::DocumentationView => owned("documentation_view"),
            ActivityType::TutorialComplete => owned("tutorial_complete"),
            ActivityType::AdminAction => owned("admin_action"),
            ActivityType::RoleChanged => owned("role_changed"),
            ActivityType::AccountDeactivated => owned("account_deactivated"),
            ActivityType::Custom(desc) => {
                let mut s = owned("custom:");
                push_str(&mut s, desc.as_str());
                s
            },
        }
    }

    /// Parses a stored activity type; unknown names become custom activities.
    pub fn from_str(s: &str) -> (r: Self)
        ensures
            r@ == activity_of(s@),
    {
        let cs = chars_of(s);
        let prefix = chars_of("custom:");
        proof {
            reveal_strlit("custom:");
        }
        if starts_with_chars(&cs, &prefix) {
            return ActivityType::Custom(string_of_range(&cs, 7, cs.len()));
        }
        if str_eq(s, "registration") {
        ActivityType::Registration
    } else if str_eq(s, "login") {
        ActivityType::Login
    } else if str_eq(s, "logout") {
        ActivityType::Logout
    } else if str_eq(s, "profile_update") {
        ActivityType::ProfileUpdate
    } else if str_eq(s, "email_verified") {
        ActivityType::EmailVerified
    } else if str_eq(s, "password_reset") {
        ActivityType::PasswordReset
    } else if str_eq(s, "dashboard_view") {
        ActivityType::DashboardView
    } else if str_eq(s, "analysis_download") {
        ActivityType::AnalysisDownload
    } else if str_eq(s, "report_generated") {
        ActivityType::ReportGenerated
    } else if str_eq(s, "api_call") {
        ActivityType::ApiCall
    } else if str_eq(s, "plugin_install") {
        ActivityType::PluginInstall
    } else if str_eq(s, "forum_post") {
        ActivityType::ForumPost
    } else if str_eq(s, "comment_posted") {
        ActivityType::CommentPosted
    } else if str_eq(s, "documentation_view") {
        ActivityType::DocumentationView
    } else if str_eq(s, "tutorial_complete") {
        ActivityType::TutorialComplete
    } else if str_eq(s, "admin_action") {
        ActivityType::AdminAction
    } else if str_eq(s, "role_changed") {
        ActivityType::RoleChanged
    } else if str_eq(s, "account_deactivated") {
        ActivityType::AccountDeactivated
    } else {
            ActivityType::Custom(owned(s))
        }
    }
}

/// Reading back the stored name of an activity type gives the same type.
pub proof fn lemma_activity_round_trip(a: ActivityTypeView)
    ensures
        activity_of(activity_name(a)) == a,
{
    reveal_strlit("custom:");
    reveal_strlit("registration");
    reveal_strlit("login");
    reveal_strlit("logout");
    reveal_strlit("profile_update");
    reveal_strlit("email_verified");
    reveal_strlit("password_reset");
    reveal_strlit("dashboard_view");
    reveal_strlit("analysis_download");
    reveal_strlit("report_generated");
    reveal_strlit("api_call");
    reveal_strlit("plugin_install");
    reveal_strlit("forum_post");
    reveal_strlit("comment_posted");
    reveal_strlit("documentation_view");
    reveal_strlit("tutorial_complete");
    reveal_strlit("admin_action");
    reveal_strlit("role_changed");
    reveal_strlit("account_deactivated");
    let s = activity_name(a);
    match a {
        ActivityTypeView::Custom(d) => {
            assert(s =~= "custom:"@ + d);
            assert(s.subrange(0, 7) =~= "custom:"@);
            assert(s.subrange(7, s.len() as int) =~= d);
            assert(has_prefix(s, "custom:"@));
        },
        ActivityTypeView::Registration => {
            assert(s[0] == 'r');
            assert(!has_prefix(s, "custom:"@)) by {
                if has_prefix(s, "custom:"@) {
                    assert(s.subrange(0, 7)[0] == s[0]);
                }
            }
        },
        ActivityTypeView::Login => {
            assert(s[0] == 'l');
            assert(!has_prefix(s, "custom:"@)) by {
                if has_prefix(s, "custom:"@) {
                    assert(s.subrange(0, 7)[0] == s[0]);
                }
            }
        },
        ActivityTypeView::Logout => {
            assert(s[0] == 'l');
            assert(!has_prefix(s, "custom:"@)) by {
                if has_prefix(s, "custom:"@) {
                    assert(s.subrange(0, 7)[0] == s[0]);
                }
            }
        },
        ActivityTypeView::ProfileUpdate => {
            assert(s[0] == 'p');
            assert(!has_prefix(s, "custom:"@)) by {
                if has_prefix(s, "custom:"@) {
                    assert(s.subrange(0, 7)[0] == s[0]);
                }
            }
        },
        ActivityTypeView::EmailVerified => {
            assert(s[0] == 'e');
            assert(!has_prefix(s, "custom:"@)) by {
                if has_prefix(s, "custom:"@) {
                    assert(s.subrange(0, 7)[0] == s[0]);
                }
            }
            assert(s[0] != "profile_update"@[0]);
        },
        ActivityTypeView::PasswordReset => {
            assert(s[0] == 'p');
            assert(!has_prefix(s, "custom:"@)) by {
                if has_prefix(s, "custom:"@) {
                    assert(s.subrange(0, 7)[0] == s[0]);
                }
            }
            assert(s[1] != "profile_update"@[1]);
            assert(s[0] != "email_verified"@[0]);
        },
        ActivityTypeView::DashboardView => {
            assert(s[0] == 'd');
            assert(!has_prefix(s, "custom:"@)) by {
                if has_prefix(s, "custom:"@) {
                    assert(s.subrange(0, 7)[0] == s[0]);
                }
            }
            assert(s[0] != "profile_update"@[0]);
            assert(s[0] != "email_verified"@[0]);
            assert(s[0] != "password_reset"@[0]);
        },
        ActivityTypeView::AnalysisDownload => {
            assert(s[0] == 'a');
            assert(!has_prefix(s, "custom:"@)) by {
                if has_prefix(s, "custom:"@) {
                    assert(s.subrange(0, 7)[0] == s[0]);
                }
            }
        },
        ActivityTypeView::ReportGenerated => {
            assert(s[0] == 'r');
            assert(!has_prefix(s, "custom:"@)) by {
                if has_prefix(s, "custom:"@) {
                    assert(s.subrange(0, 7)[0] == s[0]);
                }
            }
        },
        ActivityTypeView::ApiCall => {
            assert(s[0] == 'a');
            assert(!has_prefix(s, "custom:"@)) by {
                if has_prefix(s, "custom:"@) {
                    assert(s.subrange(0, 7)[0] == s[0]);
                }
            }
        },
        ActivityTypeView::PluginInstall => {
            assert(s[0] == 'p');
            assert(!has_prefix(s, "custom:"@)) by {
                if has_prefix(s, "custom:"@) {
                    assert(s.subrange(0, 7)[0] == s[0]);
                }
            }
            assert(s[1] != "profile_update"@[1]);
            assert(s[0] != "email_verified"@[0]);
            assert(s[1] != "password_reset"@[1]);
            assert(s[0] != "dashboard_view"@[0]);
        },
        ActivityTypeView::ForumPost => {
            assert(s[0] == 'f');
            assert(!has_prefix(s, "custom:"@)) by {
                if has_prefix(s, "custom:"@) {
                    assert(s.subrange(0, 7)[0] == s[0]);
                }
            }
        },
        ActivityTypeView::CommentPosted => {
            assert(s[1] == 'o');
            assert(!has_prefix(s, "custom:"@)) by {
                if has_prefix(s, "custom:"@) {
                    assert(s.subrange(0, 7)[1] == s[1]);
                }
            }
            assert(s[0] != "profile_update"@[0]);
            assert(s[0] != "email_verified"@[0]);
            assert(s[0] != "password_reset"@[0]);
            assert(s[0] != "dashboard_view"@[0]);
            assert(s[0] != "plugin_install"@[0]);
        },
        ActivityTypeView::DocumentationView => {
            assert(s[0] == 'd');
            assert(!has_prefix(s, "custom:"@)) by {
                if has_prefix(s, "custom:"@) {
                    assert(s.subrange(0, 7)[0] == s[0]);
                }
            }
        },
        ActivityTypeView::TutorialComplete => {
            assert(s[0] == 't');
            assert(!has_prefix(s, "custom:"@)) by {
                if has_prefix(s, "custom:"@) {
                    assert(s.subrange(0, 7)[0] == s[0]);
                }
            }
            assert(s[0] != "analysis_download"@[0]);
        },
        ActivityTypeView::AdminAction => {
            assert(s[0] == 'a');
            assert(!has_prefix(s, "custom:"@)) by {
                if has_prefix(s, "custom:"@) {
                    assert(s.subrange(0, 7)[0] == s[0]);
                }
            }
            assert(s[0] != "registration"@[0]);
        },
        ActivityTypeView::RoleChanged => {
            assert(s[0] == 'r');
            assert(!has_prefix(s, "custom:"@)) by {
                if has_prefix(s, "custom:"@) {
                    assert(s.subrange(0, 7)[0] == s[0]);
                }
            }
            assert(s[1] != "registration"@[1]);
            assert(s[0] != "admin_action"@[0]);
        },
        ActivityTypeView::AccountDeactivated => {
            assert(s[0] == 'a');
            assert(!has_prefix(s, "custom:"@)) by {
                if has_prefix(s, "custom:"@) {
                    assert(s.subrange(0, 7)[0] == s[0]);
                }
            }
        },
    }
}

/// Granular admin permissions.
#[derive(Debug, Clone, Copy, PartialEq, Eq, Structural)]
pub struct AdminPermissions {
    pub can_manage_users: bool,
    pub can_manage_content: bool,
    pub can_view_analytics: bool,
    pub can_manage_settings: bool,
    pub can_manage_admins: bool,
    pub can_export_data: bool,
    pub can_delete_users: bool,
    pub can_manage_billing: bool,
    pub can_access_logs: bool,
}

/// Every permission of `a` is also granted by `b`.
pub open spec fn grants_at_least(b: AdminPermissions, a: AdminPermissions) -> bool {
    &&& (a.can_manage_users ==> b.can_manage_users)
    &&& (a.can_manage_content ==> b.can_manage_content)
    &&& (a.can_view_analytics ==> b.can_view_analytics)
    &&& (a.can_manage_settings ==> b.can_manage_settings)
    &&& (a.can_manage_admins ==> b.can_manage_admins)
    &&& (a.can_export_data ==> b.can_export_data)
    &&& (a.can_delete_users ==> b.can_delete_users)
    &&& (a.can_manage_billing ==> b.can_manage_billing)
    &&& (a.can_access_logs ==> b.can_access_logs)
}

impl Default for AdminPermissions {
    /// No permissions at all.
    fn default() -> (p: Self)
        ensures
            !p.can_manage_users && !p.can_manage_content && !p.can_view_analytics && !p.can_manage_settings && !p.can_manage_admins && !p.can_export_data && !p.can_delete_users && !p.can_manage_billing && !p.can_access_logs,
    {
        AdminPermissions {
            can_manage_users: false,
            can_manage_content: false,
            can_view_analytics: false,
            can_manage_settings: false,
            can_manage_admins: false,
            can_export_data: false,
            can_delete_users: false,
            can_manage_billing: false,
            can_access_logs: false,
        }
    }
}

impl AdminPermissions {
    /// Basic moderator permissions: users, content and analytics.
    pub fn moderator() -> (p: Self)
        ensures
            p.can_manage_users && p.can_manage_content && p.can_view_analytics && !p.can_manage_settings && !p.can_manage_admins && !p.can_export_data && !p.can_delete_users && !p.can_manage_billing && !p.can_access_logs,
    {
        AdminPermissions {
            can_manage_users: true,
            can_manage_content: true,
            can_view_analytics: true,
            can_manage_settings: false,
            can_manage_admins: false,
            can_export_data: false,
            can_delete_users: false,
            can_manage_billing: false,
            can_access_logs: false,
        }
    }

    /// Full administrator permissions, except managing other admins.
    pub fn administrator() -> (p: Self)
        ensures
            p.can_manage_users && p.can_manage_content && p.can_view_analytics && p.can_manage_settings && !p.can_manage_admins && p.can_export_data && p.can_delete_users && p.can_manage_billing && p.can_access_logs,
    {
        AdminPermissions {
            can_manage_users: true,
            can_manage_content: true,
            can_view_analytics: true,
            can_manage_settings: true,
            can_manage_admins: false,
            can_export_data: true,
            can_delete_users: true,
            can_manage_billing: true,
            can_access_logs: true,
        }
    }

    /// Super admin permissions (all access).
    pub fn super_admin() -> (p: Self)
        ensures
            p.can_manage_users && p.can_manage_content && p.can_view_analytics && p.can_manage_settings && p.can_manage_admins && p.can_export_data && p.can_delete_users && p.can_manage_billing && p.can_access_logs,
    {
        AdminPermissions {
            can_manage_users: true,
            can_manage_content: true,
            can_view_analytics: true,
            can_manage_settings: true,
            can_manage_admins: true,
            can_export_data: true,
            can_delete_users: true,
            can_manage_billing: true,
            can_access_logs: true,
        }
    }
}

/// The admin levels are ordered by what they grant: a moderator's
/// permissions are an administrator's, and an administrator's are a super
/// admin's; only the super admin manages other admins.
pub proof fn lemma_permission_hierarchy(m: AdminPermissions, a: AdminPermissions, s: AdminPermissions)
    requires
        m.can_manage_users && m.can_manage_content && m.can_view_analytics && !m.can_manage_settings && !m.can_manage_admins && !m.can_export_data && !m.can_delete_users && !m.can_manage_billing && !m.can_access_logs,
        a.can_manage_users && a.can_manage_content && a.can_view_analytics && a.can_manage_settings && !a.can_manage_admins && a.can_export_data && a.can_delete_users && a.can_manage_billing && a.can_access_logs,
        s.can_manage_users && s.can_manage_content && s.can_view_analytics && s.can_manage_settings && s.can_manage_admins && s.can_export_data && s.can_delete_users && s.can_manage_billing && s.can_access_logs,
    ensures
        grants_at_least(a, m),
        grants_at_least(s, a),
        !m.can_manage_admins && !a.can_manage_admins && s.can_manage_admins,
{
}

/// Admin hierarchy levels.
#[derive(Debug, Clone, Copy, PartialEq, Eq, Structural)]
pub enum AdminLevel {
    Moderator,
    Administrator,
    SuperAdmin,
}

/// Types of developers in the community.
#[derive(Debug, Clone, Copy, PartialEq, Eq, Structural)]
pub enum DeveloperType {
    OpenSource,
    Enterprise,
    Student,
    Freelancer,
    Startup,
    Corporate,
}

/// API access levels for developers.
#[derive(Debug, Clone, Copy, PartialEq, Eq, Structural)]
pub enum ApiAccessLevel {
    Basic,
    Premium,
    Enterprise,
}

/// Developer badges and achievements.
#[derive(Debug, Clone, PartialEq, Eq)]
pub enum BadgeType {
    EarlyAdopter,
    Contributor,
    Mentor,
    BugFinder,
    FeatureRequester,
    BetaTester,
    CommunityHelper,
    CodeReviewer,
    Documentation,
    Custom(String),
}

/// Role-specific settings and permissions.
#[derive(Debug, Clone)]
pub struct RolePermissions {
    pub role: MemberRole,
    pub can_access_api: bool,
    pub can_view_source: bool,
    pub can_download_reports: bool,
    pub can_create_projects: bool,
    pub can_share_publicly: bool,
    pub can_invite_members: bool,
    pub rate_limit_tier: i32,
    pub storage_quota_mb: i64,
    pub features: Vec<String>,
}

} // verus!
