use uveddi::cache::incremental_cache::Timestamp;
use uveddi::community::members::{optional_stored_time, parse_stored_time, MemberProfile};
use uveddi::community::community_standalone as standalone;
use uveddi::community::database::{
    deserialize_custom_fields, deserialize_languages, DeserializationError, DeserializationFailure,
};
use uveddi::community::models::{ActivityType, AdminLevel, AdminPermissions, ApiAccessLevel, BadgeType, DeveloperType, MemberRole};
use uveddi::community::store;
use uveddi::tools::community_demo;

#[test]
fn test_malicious_json_payloads() {
    // Test oversized payload (simulate large JSON)
    let large_languages: Vec<String> = (0..100000).map(|i| format!("lang{}", i)).collect();
    let large_json = serde_json::to_string(&large_languages).unwrap();
    let result = deserialize_languages(&large_json);
    assert!(result.is_err());
    if let Err(DeserializationFailure { source: Some(DeserializationError::PayloadTooLarge { .. }), .. }) = result {
        // Expected error type
    } else {
        panic!("Expected PayloadTooLarge error for oversized payload");
    }

    // Test malformed JSON
    let malformed = "{ invalid json }";
    let result = deserialize_custom_fields(malformed);
    assert!(result.is_err());
    if let Err(DeserializationFailure { source: Some(DeserializationError::InvalidFormat(_)), .. }) = result {
        // Expected error type
    } else {
        panic!("Expected InvalidFormat error for malformed JSON");
    }
}

#[test]
fn test_size_limits() {
    // Test array length limits for languages
    let too_many_languages: Vec<String> = (0..2000).map(|i| format!("lang{}", i)).collect();
    let json = serde_json::to_string(&too_many_languages).unwrap();
    let result = deserialize_languages(&json);
    assert!(result.is_err());
    if let Err(DeserializationFailure { source: Some(DeserializationError::SecurityValidation(_)), .. }) = result {
        // Expected error type
    } else {
        panic!("Expected SecurityValidation error for too many languages");
    }

    // Test field count limits for custom fields
    let too_many_fields: std::collections::HashMap<String, String> =
        (0..100).map(|i| (format!("key{}", i), format!("value{}", i))).collect();
    let json = serde_json::to_string(&too_many_fields).unwrap();
    let result = deserialize_custom_fields(&json);
    assert!(result.is_err());
}

#[test]
fn test_valid_data_acceptance() {
    // Test valid languages
    let valid_languages = r#"["rust", "python", "javascript"]"#;
    let result = deserialize_languages(valid_languages);
    assert!(result.is_ok());
    let languages = result.unwrap();
    assert_eq!(languages.len(), 3);
    assert!(languages.contains(&"rust".to_string()));

    // Test valid custom fields
    let valid_fields = r#"{"company": "TechCorp", "role": "developer"}"#;
    let result = deserialize_custom_fields(valid_fields);
    assert!(result.is_ok());
    let fields = result.unwrap();
    assert_eq!(fields.len(), 2);
    let company = fields.iter().find(|(k, _)| k == "company").map(|(_, v)| v.clone());
    assert_eq!(company, Some("TechCorp".to_string()));
}

#[test]
fn test_language_validation() {
    // Test valid language codes
    let valid_languages = r#"["rust", "python3", "c-sharp", "objective_c"]"#;
    let result = deserialize_languages(valid_languages);
    assert!(result.is_ok());

    // Test invalid language codes with special characters
    let invalid_languages = r#"["rust", "python/3", "c#"]"#;
    let result = deserialize_languages(invalid_languages);
    assert!(result.is_err()); // Should fail due to invalid characters

    // Test language codes that are too long
    let long_language = "x".repeat(100);
    let long_languages = format!(r#"["rust", "{}"]"#, long_language);
    let result = deserialize_languages(&long_languages);
    assert!(result.is_err()); // Should fail due to length limit
}

#[test]
fn deserialization_messages() {
    let err = deserialize_languages(r#"["ok", "c#"]"#).unwrap_err();
    assert_eq!(err.message, "Invalid language format: c#");
    assert_eq!(err.context, "languages deserialization");
    let err = deserialize_custom_fields(&format!(r#"{{"k": "{}"}}"#, "v".repeat(1001))).unwrap_err();
    assert_eq!(err.message, "Custom field key or value too large");
    let fields: std::collections::HashMap<String, String> =
        (0..51).map(|i| (format!("k{}", i), "v".to_string())).collect();
    let err = deserialize_custom_fields(&serde_json::to_string(&fields).unwrap()).unwrap_err();
    assert_eq!(err.message, "Too many custom fields: 51");
    let err = deserialize_languages("[1, 2]").unwrap_err();
    assert!(err.message.starts_with("Invalid JSON format: "));
    let big = format!("\"{}\"", "a".repeat(1024 * 1024));
    let err = deserialize_languages(&big).unwrap_err();
    assert_eq!(err.message, format!("JSON payload too large: {} bytes", big.len()));
}

#[test]
fn model_roles_round_trip() {
    for role in [MemberRole::Member, MemberRole::Developer, MemberRole::Admin] {
        assert_eq!(MemberRole::from_str(role.as_str()), role);
    }
    assert_eq!(MemberRole::from_str("ADMIN"), MemberRole::Admin);
    assert_eq!(MemberRole::from_str("someone"), MemberRole::Member);
    assert!(MemberRole::Admin.is_admin() && !MemberRole::Developer.is_admin());
    assert!(MemberRole::Developer.is_developer_or_higher());
    assert!(!MemberRole::Member.is_developer_or_higher());
}

#[test]
fn model_activity_names() {
    assert_eq!(ActivityType::Login.as_str(), "login");
    assert_eq!(ActivityType::Custom("deploy".to_string()).as_str(), "custom:deploy");
    assert_eq!(ActivityType::from_str("custom:deploy"), ActivityType::Custom("deploy".to_string()));
    assert_eq!(ActivityType::from_str("role_changed"), ActivityType::RoleChanged);
    assert_eq!(ActivityType::from_str("something"), ActivityType::Custom("something".to_string()));
    let a = ActivityType::AccountDeactivated;
    assert_eq!(ActivityType::from_str(&a.as_str()), a);
}

#[test]
fn admin_permission_levels() {
    let m = AdminPermissions::moderator();
    let a = AdminPermissions::administrator();
    let s = AdminPermissions::super_admin();
    assert!(m.can_manage_users && !m.can_manage_settings);
    assert!(a.can_manage_billing && !a.can_manage_admins);
    assert!(s.can_manage_admins);
    assert_eq!(AdminPermissions::default(), AdminPermissions {
        can_manage_users: false,
        can_manage_content: false,
        can_view_analytics: false,
        can_manage_settings: false,
        can_manage_admins: false,
        can_export_data: false,
        can_delete_users: false,
        can_manage_billing: false,
        can_access_logs: false,
    });
}

#[test]
fn standalone_role_strings() {
    assert_eq!(standalone::MemberRole::Admin.to_string(), "admin");
    assert_eq!(standalone::MemberRole::from_string("developer"), Ok(standalone::MemberRole::Developer));
    assert_eq!(standalone::MemberRole::from_string("Admin"), Err("Invalid role: Admin".to_string()));
}

#[test]
fn standalone_activity_strings() {
    let a = standalone::ActivityType::from_string("content_share").unwrap();
    assert_eq!(a, standalone::ActivityType::ContentShare);
    assert_eq!(a.to_string(), "content_share");
    let c = standalone::ActivityType::from_string("deploy").unwrap();
    assert_eq!(c, standalone::ActivityType::Custom("deploy".to_string()));
    assert_eq!(c.to_string(), "deploy");
}

#[test]
fn demo_roles() {
    assert_eq!(community_demo::MemberRole::from_string("DeVeLoPeR"), community_demo::MemberRole::Developer);
    assert_eq!(community_demo::MemberRole::from_string("guest"), community_demo::MemberRole::Member);
    assert_eq!(community_demo::MemberRole::Admin.as_str(), "admin");
}

#[test]
fn store_names_round_trip() {
    use_store_names();
}

fn use_store_names() {
    for l in [AdminLevel::Moderator, AdminLevel::Administrator, AdminLevel::SuperAdmin] {
        assert_eq!(store::admin_level_from_str(store::admin_level_as_str(l)), l);
    }
    assert_eq!(store::admin_level_from_str("root"), AdminLevel::Moderator);
    for t in [
        DeveloperType::OpenSource,
        DeveloperType::Enterprise,
        DeveloperType::Student,
        DeveloperType::Freelancer,
        DeveloperType::Startup,
        DeveloperType::Corporate,
    ] {
        assert_eq!(store::developer_type_from_str(store::developer_type_as_str(t)), t);
    }
    assert_eq!(store::api_access_level_from_str("premium"), ApiAccessLevel::Premium);
    assert_eq!(store::api_access_level_from_str("gold"), ApiAccessLevel::Basic);
    assert_eq!(store::badge_type_as_str(&BadgeType::BugFinder), "bug_finder");
    assert_eq!(store::badge_type_as_str(&BadgeType::Custom("speaker".to_string())), "speaker");
}

#[test]
fn member_listing_query_numbers_its_placeholders() {
    let (sql, params) = store::member_listing_query(Some(MemberRole::Developer), true, Some(10), Some(20));
    let expected = [
        store::MEMBER_LISTING_HEAD,
        " AND role = ?1 AND is_active = 1 ORDER BY created_at DESC LIMIT ?2 OFFSET ?3",
    ]
    .concat();
    assert_eq!(sql, expected);
    assert_eq!(
        params,
        vec![
            store::SqlValue::Text("developer".to_string()),
            store::SqlValue::Integer(10),
            store::SqlValue::Integer(20)
        ]
    );
    let (sql, params) = store::member_listing_query(None, false, None, Some(5));
    assert_eq!(sql, [store::MEMBER_LISTING_HEAD, " ORDER BY created_at DESC OFFSET ?1"].concat());
    assert_eq!(params, vec![store::SqlValue::Integer(5)]);
}

#[test]
fn stored_times_are_read_as_instants() {
    let t = parse_stored_time("1996-12-19T16:39:57-08:00").unwrap();
    assert_eq!(t, Timestamp { secs: 851_042_397, nanos: 0 });
    let t = parse_stored_time("2024-01-01T00:00:00.5Z").unwrap();
    assert_eq!(t, Timestamp { secs: 1_704_067_200, nanos: 500_000_000 });
    assert_eq!(parse_stored_time("yesterday"), Err("yesterday".to_string()));
    assert_eq!(optional_stored_time(&Some("not a time".to_string())), None);
    assert_eq!(optional_stored_time(&None), None);
    assert_eq!(
        optional_stored_time(&Some("1970-01-01T00:00:01Z".to_string())),
        Some(Timestamp { secs: 1, nanos: 0 })
    );
}

#[test]
fn new_profile_is_empty() {
    let p = MemberProfile::default();
    assert!(p.company.is_none() && p.languages.is_empty() && p.custom_fields.is_empty());
    assert!(!p.newsletter_subscribed && !p.marketing_consent);
}

#[test]
fn role_parsing_ignores_letter_case() {
    assert_eq!(MemberRole::from_str("aDmIn"), MemberRole::Admin);
    assert_eq!(MemberRole::from_str("DEVELOPER"), MemberRole::Developer);
    assert_eq!(MemberRole::from_str("Ädmin"), MemberRole::from_str("ÄDMIN"));
    assert_eq!(MemberRole::from_str("Ädmin"), MemberRole::Member);
}
