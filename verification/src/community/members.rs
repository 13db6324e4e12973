//! Community members and their activity records, with the RFC 3339 times
//! the store keeps them under.

use vstd::prelude::*;
use crate::cache::incremental_cache::Timestamp;
use crate::community::models::{ActivityType, MemberRole};

verus! {

/// What a member told about themselves.
#[derive(Debug, Clone)]
pub struct MemberProfile {
    pub company: Option<String>,
    pub job_title: Option<String>,
    pub languages: Vec<String>,
    pub experience_level: Option<String>,
    pub use_case: Option<String>,
    pub referral_source: Option<String>,
    pub newsletter_subscribed: bool,
    pub marketing_consent: bool,
    /// Further answers by name, each name once.
    pub custom_fields: Vec<(String, String)>,
}

impl Default for MemberProfile {
    fn default() -> (p: Self)
        ensures
            p.company is None,
            p.job_title is None,
            p.languages@.len() == 0,
            p.experience_level is None,
            p.use_case is None,
            p.referral_source is None,
            !p.newsletter_subscribed,
            !p.marketing_consent,
            p.custom_fields@.len() == 0,
    {
        MemberProfile {
            company: None,
            job_title: None,
            languages: Vec::new(),
            experience_level: None,
            use_case: None,
            referral_source: None,
            newsletter_subscribed: false,
            marketing_consent: false,
            custom_fields: Vec::new(),
        }
    }
}

/// A member of the community.
#[derive(Debug, Clone)]
pub struct CommunityMember {
    pub id: String,
    pub email: String,
    pub name: String,
    pub role: MemberRole,
    pub created_at: Timestamp,
    pub last_active: Option<Timestamp>,
    pub is_active: bool,
    pub profile: MemberProfile,
    pub email_verified: bool,
    pub avatar_url: Option<String>,
}

/// One recorded action of a member.
#[derive(Debug)]
pub struct MemberActivity {
    pub id: Option<i64>,
    pub member_id: String,
    pub activity_type: ActivityType,
    pub timestamp: Timestamp,
    pub description: Option<String>,
    pub ip_address: Option<String>,
    pub user_agent: Option<String>,
    /// Further details by name, each name once.
    pub metadata: Vec<(String, String)>,
}

/// The instant an RFC 3339 text denotes, as whole seconds since the Unix
/// epoch and the nanoseconds past them, or nothing when the text is not
/// RFC 3339; it depends on the text alone.
pub uninterp spec fn rfc3339_instant(s: Seq<char>) -> Option<(i64, u32)>;

/// A time as its seconds and nanoseconds.
pub open spec fn instant_pair(t: Timestamp) -> (i64, u32) {
    (t.secs, t.nanos)
}

/// `chrono::DateTime::parse_from_rfc3339`, read back with `timestamp` and
/// `timestamp_subsec_nanos`. Trusted to return the instant the text
/// denotes, or nothing when the parse fails, as the named parse gives them.
#[verifier::external_body]
pub fn parse_rfc3339(s: &str) -> (r: Option<Timestamp>)
    ensures
        r is None <==> rfc3339_instant(s@) is None,
        r matches Some(t) ==> rfc3339_instant(s@) == Some(instant_pair(t)),
{
    match chrono::DateTime::parse_from_rfc3339(s) {
        Ok(d) => Some(Timestamp { secs: d.timestamp(), nanos: d.timestamp_subsec_nanos() }),
        Err(_) => None,
    }
}

/// The time an RFC 3339 text denotes.
pub open spec fn stored_time(s: Seq<char>) -> Option<Timestamp> {
    match rfc3339_instant(s) {
        Some(p) => Some(Timestamp { secs: p.0, nanos: p.1 }),
        None => None,
    }
}

/// Reads a required time column: the time it holds, or the column's text
/// as the error when it is not RFC 3339.
pub fn parse_stored_time(s: &str) -> (r: Result<Timestamp, String>)
    ensures
        match stored_time(s@) {
            Some(t) => r == Ok::<Timestamp, String>(t),
            None => r matches Err(e) && e@ == s@,
        },
{
    match parse_rfc3339(s) {
        Some(t) => Ok(t),
        None => Err(s.to_string()),
    }
}

/// Reads an optional time column, where a text that is not RFC 3339
/// counts as no time.
pub fn optional_stored_time(s: &Option<String>) -> (r: Option<Timestamp>)
    ensures
        r == match s {
            Some(t) => stored_time(t@),
            None => None,
        },
{
    match s {
        Some(t) => parse_rfc3339(t.as_str()),
        None => None,
    }
}

} // verus!
