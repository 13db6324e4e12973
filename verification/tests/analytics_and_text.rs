use uveddi::community::analytics::{
    count_consents, language_interests, parse_language_rows, tally_languages, top_languages,
};
use uveddi::numeric::F64Bits;
use uveddi::text::{join, parse_bool, parse_u32, split_trimmed, trim_str};

#[test]
fn consents_are_counted() {
    let rows = vec![(true, false), (true, true), (false, false)];
    let c = count_consents(&rows);
    assert_eq!((c.newsletter, c.marketing, c.total), (2, 1, 3));
    let none = count_consents(&vec![]);
    assert_eq!((none.newsletter, none.marketing, none.total), (0, 0, 0));
}

#[test]
fn unreadable_language_rows_are_skipped() {
    let rows = vec![
        r#"["rust", "python"]"#.to_string(),
        "not json".to_string(),
        r#"["rust"]"#.to_string(),
    ];
    let lists = parse_language_rows(&rows);
    assert_eq!(lists.len(), 2);
    assert_eq!(lists[0], vec!["rust".to_string(), "python".to_string()]);
}

#[test]
fn languages_are_tallied_in_order_of_first_mention() {
    let lists = vec![
        vec!["rust".to_string(), "go".to_string()],
        vec!["go".to_string()],
        vec!["rust".to_string(), "go".to_string(), "c".to_string()],
    ];
    let tally = tally_languages(&lists);
    assert_eq!(
        tally,
        vec![("rust".to_string(), 2), ("go".to_string(), 3), ("c".to_string(), 1)]
    );
}

#[test]
fn top_languages_keeps_the_ten_highest_counts() {
    let tally: Vec<(String, usize)> = (0..12).map(|i| (format!("lang{}", i), i)).collect();
    let top = top_languages(&tally);
    assert_eq!(top.len(), 10);
    assert_eq!(top[0], ("lang11".to_string(), 11));
    assert_eq!(top[9], ("lang2".to_string(), 2));
    for w in top.windows(2) {
        assert!(w[0].1 >= w[1].1);
    }
    let few = top_languages(&vec![("a".to_string(), 1), ("b".to_string(), 5)]);
    assert_eq!(few, vec![("b".to_string(), 5), ("a".to_string(), 1)]);
}

#[test]
fn language_interests_over_member_rows() {
    let rows = vec![
        r#"["rust", "python"]"#.to_string(),
        r#"["python"]"#.to_string(),
        "{}".to_string(),
    ];
    let (members, top) = language_interests(&rows).unwrap();
    assert_eq!(members, 2);
    assert_eq!(top, vec![("python".to_string(), 2), ("rust".to_string(), 1)]);
}

#[test]
fn numbers_and_flags_parse_like_str_parse() {
    assert_eq!(parse_u32("42"), Some(42));
    assert_eq!(parse_u32("4294967295"), Some(u32::MAX));
    assert_eq!(parse_u32("4294967296"), None);
    assert_eq!(parse_u32(""), None);
    assert_eq!(parse_u32("+7"), Some(7));
    assert_eq!(parse_u32("-1"), None);
    assert_eq!(parse_bool("true"), Some(true));
    assert_eq!(parse_bool("True"), None);
}

#[test]
fn text_helpers_trim_split_join() {
    assert_eq!(trim_str("  a b \t"), "a b");
    assert_eq!(split_trimmed(" a, b ,,c", ','), vec!["a", "b", "", "c"]);
    assert_eq!(join(&vec!["x".to_string(), "y".to_string()], ", "), "x, y");
}

#[test]
fn fraction_bits_compare_as_floats() {
    let half = F64Bits::from_bits(0.5f64.to_bits());
    let one = F64Bits::from_bits(1.0f64.to_bits());
    let neg = F64Bits::from_bits((-0.25f64).to_bits());
    let nan = F64Bits::from_bits(f64::NAN.to_bits());
    assert!(half.lt(&one));
    assert!(!one.lt(&half));
    assert!(neg.lt(&half));
    assert!(half.in_unit_interval());
    assert!(!neg.in_unit_interval());
    assert!(!nan.in_unit_interval());
    assert!(!nan.le(&nan));
    let negzero = F64Bits::from_bits((-0.0f64).to_bits());
    assert!(negzero.in_unit_interval());
}
