use unleash_client::entity_tag::EntityTag;
use unleash_client::error::{EntityTagParseError, TokenParseError};
use unleash_client::token::UnleashToken;

#[test]
fn credential_without_colon_is_rejected() {
    assert!(UnleashToken::from_str("abc").is_err());
}

#[test]
fn credential_without_dot_is_rejected() {
    assert!(UnleashToken::from_str("abc:def").is_err());
}

#[test]
fn credential_with_environment_is_parsed() {
    let t = UnleashToken::from_str("abc:dev.xyz123").unwrap();
    assert_eq!(t.token, "abc:dev.xyz123");
    assert_eq!(t.environment, "dev");
}

#[test]
fn credential_uses_first_dot_segment_only() {
    let t = UnleashToken::from_str("abc:dev.extra.xyz").unwrap();
    assert_eq!(t.environment, "dev");
    assert_eq!(t.token, "abc:dev.extra.xyz");
}

#[test]
fn credential_dot_before_colon_does_not_count() {
    assert!(UnleashToken::from_str("a.b:cd").is_err());
    let t = UnleashToken::from_str("a.b:cd.e").unwrap();
    assert_eq!(t.environment, "cd");
}

#[test]
fn credential_empty_environment() {
    let t = UnleashToken::from_str("*:.abc").unwrap();
    assert_eq!(t.environment, "");
}

#[test]
fn credential_try_from_owned_string() {
    let t = UnleashToken::try_from("x:production.123".to_string()).unwrap();
    assert_eq!(t.environment, "production");
    assert!(UnleashToken::try_from(String::new()).is_err());
}

#[test]
fn entity_tag_round_trip() {
    for v in ["", "abc", "1-2-3", "with space", "ünïcödé"] {
        let tag = EntityTag::new(v);
        let text = tag.to_string();
        let back = EntityTag::from_str(&text).unwrap();
        assert_eq!(back.value(), v);
        assert!(back.same_as(&tag));
    }
}

#[test]
fn entity_tag_format() {
    assert_eq!(EntityTag::new("76d8bb0e").to_string(), "W/\"76d8bb0e\"");
}

#[test]
fn entity_tag_parse_value() {
    let tag = EntityTag::from_str("W/\"76d8bb0e:1234\"").unwrap();
    assert_eq!(tag.value(), "76d8bb0e:1234");
    let empty = EntityTag::from_str("W/\"\"").unwrap();
    assert_eq!(empty.value(), "");
}

#[test]
fn entity_tag_too_short_is_rejected() {
    assert!(EntityTag::from_str("").is_err());
    assert!(EntityTag::from_str("W").is_err());
    assert!(EntityTag::from_str("W/\"").is_err());
}

#[test]
fn entity_tag_without_weak_prefix_is_rejected() {
    assert!(EntityTag::from_str("\"abcdef\"").is_err());
    assert!(EntityTag::from_str("w/\"abc\"").is_err());
    assert!(EntityTag::from_str("W\\\"abc\"").is_err());
}

#[test]
fn entity_tag_comparison() {
    assert!(EntityTag::new("a").same_as(&EntityTag::new("a")));
    assert!(!EntityTag::new("a").same_as(&EntityTag::new("b")));
    assert!(!EntityTag::new("a").same_as(&EntityTag::new("ab")));
    assert!(EntityTag::new("a").copy().same_as(&EntityTag::new("a")));
}

#[test]
fn error_messages() {
    assert_eq!(TokenParseError.message(), "could not parse authorization token");
    assert_eq!(EntityTagParseError.message(), "could not parse etag");
}

#[test]
fn entity_tag_without_closing_quote_is_rejected() {
    assert!(EntityTag::from_str("W/\"abc").is_err());
    assert!(EntityTag::from_str("W/\"\u{e9}").is_err());
    assert!(EntityTag::from_str("W/\"ab\"c").is_err());
}

#[test]
fn entity_tag_format_of_parse_gives_input() {
    for s in ["W/\"abc\"", "W/\"\"", "W/\"\u{e9}\"", "W/\"a\"b\""] {
        assert_eq!(EntityTag::from_str(s).unwrap().to_string(), s);
    }
}
