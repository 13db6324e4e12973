//! How the community store writes its enumerations and builds its member
//! listing query.

use vstd::prelude::*;
use crate::community::models::{AdminLevel, ApiAccessLevel, BadgeType, DeveloperType, MemberRole, role_name};
use crate::text::{decimal, owned, push_decimal, push_str, str_eq};

verus! {

/// The stored name of an admin level.
pub open spec fn admin_level_name(l: AdminLevel) -> Seq<char> {
    match l {
        AdminLevel::Moderator => "moderator"@,
        AdminLevel::Administrator => "administrator"@,
        AdminLevel::SuperAdmin => "super_admin"@,
    }
}

/// The admin level a stored name denotes; unknown names give `Moderator`.
pub open spec fn admin_level_named(s: Seq<char>) -> AdminLevel {
    if s == "administrator"@ {
        AdminLevel::Administrator
    } else if s == "super_admin"@ {
        AdminLevel::SuperAdmin
    } else {
        AdminLevel::Moderator
    }
}

/// The stored name of a developer type.
pub open spec fn developer_type_name(t: DeveloperType) -> Seq<char> {
    match t {
        DeveloperType::OpenSource => "opensource"@,
        DeveloperType::Enterprise => "enterprise"@,
        DeveloperType::Student => "student"@,
        DeveloperType::Freelancer => "freelancer"@,
        DeveloperType::Startup => "startup"@,
        DeveloperType::Corporate => "corporate"@,
    }
}

/// The developer type a stored name denotes; unknown names give
/// `OpenSource`.
pub open spec fn developer_type_named(s: Seq<char>) -> DeveloperType {
    if s == "enterprise"@ {
        DeveloperType::Enterprise
    } else if s == "student"@ {
        DeveloperType::Student
    } else if s == "freelancer"@ {
        DeveloperType::Freelancer
    } else if s == "startup"@ {
        DeveloperType::Startup
    } else if s == "corporate"@ {
        DeveloperType::Corporate
    } else {
        DeveloperType::OpenSource
    }
}

/// The API access level a stored name denotes; unknown names give `Basic`.
pub open spec fn api_access_level_named(s: Seq<char>) -> ApiAccessLevel {
    if s == "premium"@ {
        ApiAccessLevel::Premium
    } else if s == "enterprise"@ {
        ApiAccessLevel::Enterprise
    } else {
        ApiAccessLevel::Basic
    }
}

/// The stored name of a badge; a custom badge is stored under its own name.
pub open spec fn badge_name(b: BadgeType) -> Seq<char> {
    match b {
        BadgeType::EarlyAdopter => "early_adopter"@,
        BadgeType::Contributor => "contributor"@,
        BadgeType::Mentor => "mentor"@,
        BadgeType::BugFinder => "bug_finder"@,
        BadgeType::FeatureRequester => "feature_requester"@,
        BadgeType::BetaTester => "beta_tester"@,
        BadgeType::CommunityHelper => "community_helper"@,
        BadgeType::CodeReviewer => "code_reviewer"@,
        BadgeType::Documentation => "documentation"@,
        BadgeType::Custom(name) => name@,
    }
}

/// The stored name of an admin level.
pub fn admin_level_as_str(l: AdminLevel) -> (s: &'static str)
    ensures
        s@ == admin_level_name(l),
{
    match l {
        AdminLevel::Moderator => "moderator",
        AdminLevel::Administrator => "administrator",
        AdminLevel::SuperAdmin => "super_admin",
    }
}

/// The admin level a stored name denotes.
pub fn admin_level_from_str(s: &str) -> (l: AdminLevel)
    ensures
        l == admin_level_named(s@),
{
    if str_eq(s, "administrator") {
        AdminLevel::Administrator
    } else if str_eq(s, "super_admin") {
        AdminLevel::SuperAdmin
    } else {
        AdminLevel::Moderator
    }
}

/// The stored name of a developer type.
pub fn developer_type_as_str(t: DeveloperType) -> (s: &'static str)
    ensures
        s@ == developer_type_name(t),
{
    match t {
        DeveloperType::OpenSource => "opensource",
        DeveloperType::Enterprise => "enterprise",
        DeveloperType::Student => "student",
        DeveloperType::Freelancer => "freelancer",
        DeveloperType::Startup => "startup",
        DeveloperType::Corporate => "corporate",
    }
}

/// The developer type a stored name denotes.
pub fn developer_type_from_str(s: &str) -> (t: DeveloperType)
    ensures
        t == developer_type_named(s@),
{
    if str_eq(s, "enterprise") {
        DeveloperType::Enterprise
    } else if str_eq(s, "student") {
        DeveloperType::Student
    } else if str_eq(s, "freelancer") {
        DeveloperType::Freelancer
    } else if str_eq(s, "startup") {
        DeveloperType::Startup
    } else if str_eq(s, "corporate") {
        DeveloperType::Corporate
    } else {
        DeveloperType::OpenSource
    }
}

/// The API access level a stored name denotes.
pub fn api_access_level_from_str(s: &str) -> (l: ApiAccessLevel)
    ensures
        l == api_access_level_named(s@),
{
    if str_eq(s, "premium") {
        ApiAccessLevel::Premium
    } else if str_eq(s, "enterprise") {
        ApiAccessLevel::Enterprise
    } else {
        ApiAccessLevel::Basic
    }
}

/// The stored name of a badge.
pub fn badge_type_as_str(b: &BadgeType) -> (s: String)
    ensures
        s@ == badge_name(*b),
{
    match b {
        BadgeType::EarlyAdopter => owned("early_adopter"),
        BadgeType::Contributor => owned("contributor"),
        BadgeType::Mentor => owned("mentor"),
        BadgeType::BugFinder => owned("bug_finder"),
        BadgeType::FeatureRequester => owned("feature_requester"),
        BadgeType::BetaTester => owned("beta_tester"),
        BadgeType::CommunityHelper => owned("community_helper"),
        BadgeType::CodeReviewer => owned("code_reviewer"),
        BadgeType::Documentation => owned("documentation"),
        BadgeType::Custom(name) => name.clone(),
    }
}

/// Reading back a stored admin level gives the level that was stored.
pub proof fn lemma_admin_level_round_trip(l: AdminLevel)
    ensures
        admin_level_named(admin_level_name(l)) == l,
{
    reveal_strlit("moderator");
    reveal_strlit("administrator");
    reveal_strlit("super_admin");
    assert("moderator"@[0] == 'm' && "administrator"@[0] == 'a' && "super_admin"@[0] == 's');
}

/// Reading back a stored developer type gives the type that was stored.
pub proof fn lemma_developer_type_round_trip(t: DeveloperType)
    ensures
        developer_type_named(developer_type_name(t)) == t,
{
    reveal_strlit("opensource");
    reveal_strlit("enterprise");
    reveal_strlit("student");
    reveal_strlit("freelancer");
    reveal_strlit("startup");
    reveal_strlit("corporate");
    assert("opensource"@[0] == 'o' && "enterprise"@[0] == 'e' && "student"@[0] == 's');
    assert("freelancer"@[0] == 'f' && "startup"@[0] == 's' && "corporate"@[0] == 'c');
    assert("student"@[2] == 'u' && "startup"@[2] == 'a');
}

/// A value bound to a placeholder of the member listing query.
#[derive(Debug, Clone, PartialEq, Eq)]
pub enum SqlValue {
    Text(String),
    Integer(i64),
}

/// The columns and table of the member listing.
pub const MEMBER_LISTING_HEAD: &'static str = r#"
            SELECT id, email, name, role, created_at, last_active, is_active, email_verified,
                   avatar_url, company, job_title, languages, experience_level, use_case,
                   referral_source, newsletter_subscribed, marketing_consent, custom_fields
            FROM community_members WHERE 1=1
        "#;

/// The member listing query: members of a role if one is given, active
/// ones only if asked, newest first, then the limit and the offset if
/// given; placeholders are numbered in order.
pub open spec fn member_listing_sql(role: Option<MemberRole>, active_only: bool, limit: Option<usize>, offset: Option<usize>) -> Seq<char> {
    let n_role: nat = if role is Some { 1 } else { 0 };
    let n_limit: nat = n_role + if limit is Some { 1nat } else { 0nat };
    let n_offset: nat = n_limit + if offset is Some { 1nat } else { 0nat };
    MEMBER_LISTING_HEAD@
        + (if role is Some { " AND role = ?"@ + decimal(n_role) } else { Seq::empty() })
        + (if active_only { " AND is_active = 1"@ } else { Seq::empty() })
        + " ORDER BY created_at DESC"@
        + (if limit is Some { " LIMIT ?"@ + decimal(n_limit) } else { Seq::empty() })
        + (if offset is Some { " OFFSET ?"@ + decimal(n_offset) } else { Seq::empty() })
}

/// A bound value with its text as characters.
pub enum SqlValueView {
    Text(Seq<char>),
    Integer(i64),
}

/// The view of a bound value.
pub open spec fn sql_value_view(v: SqlValue) -> SqlValueView {
    match v {
        SqlValue::Text(s) => SqlValueView::Text(s@),
        SqlValue::Integer(i) => SqlValueView::Integer(i),
    }
}

/// The values bound to the placeholders, in order: the role's stored
/// name, the limit, the offset.
pub open spec fn member_listing_params(role: Option<MemberRole>, limit: Option<usize>, offset: Option<usize>) -> Seq<SqlValueView> {
    (if role is Some { seq![SqlValueView::Text(role_name(role->Some_0))] } else { Seq::empty() })
        + (if limit is Some { seq![SqlValueView::Integer(limit->Some_0 as i64)] } else { Seq::empty() })
        + (if offset is Some { seq![SqlValueView::Integer(offset->Some_0 as i64)] } else { Seq::empty() })
}

/// The member listing query and the values of its placeholders.
pub fn member_listing_query(role_filter: Option<MemberRole>, active_only: bool, limit: Option<usize>, offset: Option<usize>) -> (r: (String, Vec<SqlValue>))
    ensures
        r.0@ == member_listing_sql(role_filter, active_only, limit, offset),
        r.1@.map_values(|v: SqlValue| sql_value_view(v)) == member_listing_params(role_filter, limit, offset),
{
    let mut sql = owned(MEMBER_LISTING_HEAD);
    let mut params: Vec<SqlValue> = Vec::new();
    let mut param_count: u64 = 0;
    let ghost n_role: nat = if role_filter is Some { 1 } else { 0 };
    let ghost n_limit: nat = n_role + if limit is Some { 1nat } else { 0nat };
    let ghost n_offset: nat = n_limit + if offset is Some { 1nat } else { 0nat };
    if let Some(role) = role_filter {
        param_count = param_count + 1;
        push_str(&mut sql, " AND role = ?");
        push_decimal(&mut sql, param_count);
        params.push(SqlValue::Text(owned(role.as_str())));
    }
    let ghost after_role = sql@;
    if active_only {
        push_str(&mut sql, " AND is_active = 1");
    }
    push_str(&mut sql, " ORDER BY created_at DESC");
    if let Some(limit_val) = limit {
        param_count = param_count + 1;
        push_str(&mut sql, " LIMIT ?");
        push_decimal(&mut sql, param_count);
        params.push(SqlValue::Integer(limit_val as i64));
    }
    if let Some(offset_val) = offset {
        param_count = param_count + 1;
        push_str(&mut sql, " OFFSET ?");
        push_decimal(&mut sql, param_count);
        params.push(SqlValue::Integer(offset_val as i64));
    }
    assert(sql@ =~= member_listing_sql(role_filter, active_only, limit, offset));
    assert(params@.map_values(|v: SqlValue| sql_value_view(v)) =~= member_listing_params(role_filter, limit, offset));
    (sql, params)
}

} // verus!
