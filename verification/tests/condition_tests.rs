use push_evaluator::assoc::Assoc;
use push_evaluator::condition::{
    Condition, EventMatchCondition, KnownCondition, MatchError, RelatedEventMatchCondition,
};
use push_evaluator::evaluator::PushRuleEvaluator;

fn assoc_str(pairs: &[(&str, &str)]) -> Assoc<String> {
    Assoc {
        entries: pairs.iter().map(|(k, v)| (k.to_string(), v.to_string())).collect(),
    }
}

fn build_evaluator(
    pairs: &[(&str, &str)],
    room_member_count: u64,
    sender_power_level: Option<i64>,
    notification_power_levels: &[(&str, i64)],
    related_events: &[(&str, &[(&str, &str)])],
    related_event_match_enabled: bool,
) -> PushRuleEvaluator {
    PushRuleEvaluator::py_new(
        assoc_str(pairs),
        room_member_count,
        sender_power_level,
        Assoc {
            entries: notification_power_levels
                .iter()
                .map(|(k, v)| (k.to_string(), *v))
                .collect(),
        },
        Assoc {
            entries: related_events
                .iter()
                .map(|(k, v)| (k.to_string(), assoc_str(v)))
                .collect(),
        },
        related_event_match_enabled,
    )
    .unwrap()
}

fn body_evaluator(body: &str) -> PushRuleEvaluator {
    build_evaluator(&[("content.body", body)], 10, Some(0), &[], &[], true)
}

fn count_evaluator(room_member_count: u64) -> PushRuleEvaluator {
    build_evaluator(&[], room_member_count, Some(0), &[], &[], true)
}

fn event_match(key: &str, pattern: &str) -> Condition {
    Condition::Known(KnownCondition::EventMatch(EventMatchCondition {
        key: key.to_string(),
        pattern: Some(pattern.to_string()),
        pattern_type: None,
    }))
}

fn pattern_type_match(key: &str, pattern_type: &str) -> Condition {
    Condition::Known(KnownCondition::EventMatch(EventMatchCondition {
        key: key.to_string(),
        pattern: None,
        pattern_type: Some(pattern_type.to_string()),
    }))
}

fn member_count(is_clause: &str) -> Condition {
    Condition::Known(KnownCondition::RoomMemberCount {
        is: Some(is_clause.to_string()),
    })
}

fn member_count_verdict(count: u64, is_clause: &str) -> Result<bool, MatchError> {
    count_evaluator(count).match_condition(&member_count(is_clause), None, None)
}

#[test]
fn word_mode_matches_whole_tokens() {
    let evaluator = body_evaluator("foo bar bob hello");
    assert!(evaluator.matches(event_match("content.body", "bob"), None, None));
    assert!(!evaluator.matches(event_match("content.body", "bo"), None, None));
}

#[test]
fn whole_mode_matches_entire_value() {
    let evaluator = build_evaluator(&[("type", "foobar")], 10, Some(0), &[], &[], true);
    assert!(!evaluator.matches(event_match("type", "foo"), None, None));
    assert!(evaluator.matches(event_match("type", "foobar"), None, None));
}

#[test]
fn glob_wildcards_and_case_folding() {
    let evaluator = body_evaluator("foo bar bob hello");
    assert!(evaluator.matches(event_match("content.body", "b?b"), None, None));
    assert!(evaluator.matches(event_match("content.body", "BOB"), None, None));
    assert!(evaluator.matches(event_match("content.body", "b*o"), None, None));
    let whole = build_evaluator(&[("type", "m.room.message")], 10, Some(0), &[], &[], true);
    assert!(whole.matches(event_match("type", "m.room.*"), None, None));
    assert!(!whole.matches(event_match("type", "m?room.message.extra"), None, None));
}

#[test]
fn absent_key_never_matches() {
    let evaluator = body_evaluator("foo");
    assert!(!evaluator.matches(event_match("content.msgtype", "*"), None, None));
}

#[test]
fn pattern_from_user_id() {
    let evaluator = build_evaluator(&[("sender", "@user:server")], 10, Some(0), &[], &[], true);
    assert!(evaluator.matches(
        pattern_type_match("sender", "user_id"),
        Some("@user:server"),
        None
    ));
    let localpart = build_evaluator(&[("sender", "user")], 10, Some(0), &[], &[], true);
    assert!(localpart.matches(
        pattern_type_match("sender", "user_localpart"),
        Some("@user:server"),
        None
    ));
    // Without a user id the condition cannot match.
    assert!(!evaluator.matches(pattern_type_match("sender", "user_id"), None, None));
    // An unrecognized pattern type never matches.
    assert!(!evaluator.matches(
        pattern_type_match("sender", "bogus"),
        Some("@user:server"),
        None
    ));
    // Neither pattern nor pattern type: never matches.
    let bare = Condition::Known(KnownCondition::EventMatch(EventMatchCondition {
        key: "sender".to_string(),
        pattern: None,
        pattern_type: None,
    }));
    assert!(!evaluator.matches(bare, Some("@user:server"), None));
}

#[test]
fn malformed_user_id_is_an_error() {
    let evaluator = build_evaluator(&[("sender", "user")], 10, Some(0), &[], &[], true);
    let condition = pattern_type_match("sender", "user_localpart");
    assert_eq!(
        evaluator.match_condition(&condition, Some("no-sigil"), None),
        Err(MatchError::MalformedUserId)
    );
    assert_eq!(
        evaluator.match_condition(&condition, Some("@nocolon"), None),
        Err(MatchError::MalformedUserId)
    );
    // The non-throwing wrapper absorbs the error into a non-match.
    assert!(!evaluator.matches(condition, Some("no-sigil"), None));
}

#[test]
fn display_name_word_match() {
    let evaluator = body_evaluator("foo bar bob hello");
    let condition = Condition::Known(KnownCondition::ContainsDisplayName);
    assert!(evaluator.matches(condition, None, Some("bob")));
    let condition = Condition::Known(KnownCondition::ContainsDisplayName);
    assert!(!evaluator.matches(condition, None, Some("bobby")));
    let condition = Condition::Known(KnownCondition::ContainsDisplayName);
    assert!(!evaluator.matches(condition, None, None));
}

#[test]
fn empty_display_name_never_matches() {
    // Even with an empty body, which an empty pattern would match.
    let evaluator = build_evaluator(&[], 10, Some(0), &[], &[], true);
    let condition = Condition::Known(KnownCondition::ContainsDisplayName);
    assert_eq!(evaluator.match_condition(&condition, None, Some("")), Ok(false));
    let evaluator = body_evaluator("foo bar bob hello");
    let condition = Condition::Known(KnownCondition::ContainsDisplayName);
    assert_eq!(evaluator.match_condition(&condition, None, Some("")), Ok(false));
}

#[test]
fn inequality_equality_forms() {
    assert_eq!(member_count_verdict(2, "2"), Ok(true));
    assert_eq!(member_count_verdict(2, "==2"), Ok(true));
    assert_eq!(member_count_verdict(3, "2"), Ok(false));
    assert_eq!(member_count_verdict(3, "==2"), Ok(false));
}

#[test]
fn inequality_comparisons() {
    assert_eq!(member_count_verdict(3, ">2"), Ok(true));
    assert_eq!(member_count_verdict(2, ">2"), Ok(false));
    assert_eq!(member_count_verdict(1, "<2"), Ok(true));
    assert_eq!(member_count_verdict(2, "<2"), Ok(false));
    assert_eq!(member_count_verdict(2, ">=2"), Ok(true));
    assert_eq!(member_count_verdict(1, ">=2"), Ok(false));
    assert_eq!(member_count_verdict(2, "<=2"), Ok(true));
    assert_eq!(member_count_verdict(3, "<=2"), Ok(false));
}

#[test]
fn inequality_unrecognized_operator_is_false_not_error() {
    assert_eq!(member_count_verdict(2, "=<2"), Ok(false));
    assert_eq!(member_count_verdict(2, "=2"), Ok(false));
    assert_eq!(member_count_verdict(2, "<>2"), Ok(false));
    assert_eq!(member_count_verdict(2, "===2"), Ok(false));
}

#[test]
fn inequality_bad_expressions_error() {
    assert_eq!(
        member_count_verdict(2, "abc"),
        Err(MatchError::BadInequalityExpression)
    );
    assert_eq!(
        member_count_verdict(2, ""),
        Err(MatchError::BadInequalityExpression)
    );
    assert_eq!(
        member_count_verdict(2, ">="),
        Err(MatchError::BadInequalityExpression)
    );
    assert_eq!(
        member_count_verdict(2, "2x"),
        Err(MatchError::BadInequalityExpression)
    );
    // Does not fit u64.
    assert_eq!(
        member_count_verdict(2, "99999999999999999999999"),
        Err(MatchError::BadInequalityExpression)
    );
    // Largest value that still fits.
    assert_eq!(member_count_verdict(2, "<=18446744073709551615"), Ok(true));
}

#[test]
fn missing_is_clause_never_matches() {
    let evaluator = count_evaluator(10);
    let condition = Condition::Known(KnownCondition::RoomMemberCount { is: None });
    assert_eq!(evaluator.match_condition(&condition, None, None), Ok(false));
}

#[test]
fn sender_permission_default_threshold() {
    let at_default = build_evaluator(&[], 10, Some(50), &[], &[], true);
    let condition = Condition::Known(KnownCondition::SenderNotificationPermission {
        key: "k".to_string(),
    });
    assert!(at_default.matches(condition, None, None));
    let below = build_evaluator(&[], 10, Some(49), &[], &[], true);
    let condition = Condition::Known(KnownCondition::SenderNotificationPermission {
        key: "k".to_string(),
    });
    assert!(!below.matches(condition, None, None));
}

#[test]
fn sender_permission_explicit_threshold_and_outlier() {
    let evaluator = build_evaluator(&[], 10, Some(10), &[("room", 10)], &[], true);
    let condition = Condition::Known(KnownCondition::SenderNotificationPermission {
        key: "room".to_string(),
    });
    assert!(evaluator.matches(condition, None, None));
    let evaluator = build_evaluator(&[], 10, Some(9), &[("room", 10)], &[], true);
    let condition = Condition::Known(KnownCondition::SenderNotificationPermission {
        key: "room".to_string(),
    });
    assert!(!evaluator.matches(condition, None, None));
    // An outlier event has no sender level and never matches.
    let outlier = build_evaluator(&[], 10, None, &[("room", 10)], &[], true);
    let condition = Condition::Known(KnownCondition::SenderNotificationPermission {
        key: "room".to_string(),
    });
    assert!(!outlier.matches(condition, None, None));
}

fn related_condition(
    rel_type: &str,
    key: Option<&str>,
    pattern: Option<&str>,
    include_fallbacks: Option<bool>,
) -> Condition {
    Condition::Known(KnownCondition::RelatedEventMatch(RelatedEventMatchCondition {
        rel_type: rel_type.to_string(),
        key: key.map(|k| k.to_string()),
        pattern: pattern.map(|p| p.to_string()),
        pattern_type: None,
        include_fallbacks,
    }))
}

#[test]
fn related_event_absent_relation_never_matches() {
    let evaluator = build_evaluator(
        &[],
        10,
        Some(0),
        &[],
        &[("m.annotation", &[("sender", "@user:server")])],
        true,
    );
    assert!(!evaluator.matches(
        related_condition("m.in_reply_to", None, None, Some(true)),
        None,
        None
    ));
    assert!(!evaluator.matches(
        related_condition("m.in_reply_to", Some("sender"), Some("*"), Some(true)),
        None,
        None
    ));
}

#[test]
fn related_event_existence_and_field_match() {
    let evaluator = build_evaluator(
        &[],
        10,
        Some(0),
        &[],
        &[("m.in_reply_to", &[("sender", "@user:server")])],
        true,
    );
    // Without a key the existence of the relation suffices.
    assert!(evaluator.matches(related_condition("m.in_reply_to", None, None, None), None, None));
    assert!(evaluator.matches(
        related_condition("m.in_reply_to", Some("sender"), Some("@user:server"), None),
        None,
        None
    ));
    assert!(!evaluator.matches(
        related_condition("m.in_reply_to", Some("sender"), Some("@other:server"), None),
        None,
        None
    ));
    // An absent key in the related event never matches.
    assert!(!evaluator.matches(
        related_condition("m.in_reply_to", Some("content.body"), Some("*"), None),
        None,
        None
    ));
}

#[test]
fn related_event_fallbacks_excluded_unless_included() {
    let related: &[(&str, &[(&str, &str)])] = &[(
        "m.in_reply_to",
        &[("sender", "@user:server"), ("im.vector.is_falling_back", "")],
    )];
    let evaluator = build_evaluator(&[], 10, Some(0), &[], related, true);
    assert!(!evaluator.matches(related_condition("m.in_reply_to", None, None, None), None, None));
    assert!(!evaluator.matches(
        related_condition("m.in_reply_to", None, None, Some(false)),
        None,
        None
    ));
    assert!(evaluator.matches(
        related_condition("m.in_reply_to", None, None, Some(true)),
        None,
        None
    ));
}

#[test]
fn related_event_feature_flag_off_never_matches() {
    let evaluator = build_evaluator(
        &[],
        10,
        Some(0),
        &[],
        &[("m.in_reply_to", &[("sender", "@user:server")])],
        false,
    );
    assert!(!evaluator.matches(related_condition("m.in_reply_to", None, None, None), None, None));
}

#[test]
fn unknown_condition_never_matches_never_errors() {
    let evaluator = body_evaluator("foo bar bob hello");
    let condition = Condition::Unknown("org.example.custom".to_string());
    assert_eq!(evaluator.match_condition(&condition, None, None), Ok(false));
    let condition = Condition::Unknown("org.example.custom".to_string());
    assert!(!evaluator.matches(condition, None, None));
}

#[test]
fn derived_body_is_used_for_display_name_match() {
    // The body is derived from content.body at construction.
    let evaluator = build_evaluator(&[("content.body", "hi bob")], 10, Some(0), &[], &[], true);
    let condition = Condition::Known(KnownCondition::ContainsDisplayName);
    assert!(evaluator.matches(condition, None, Some("bob")));
    let no_body = build_evaluator(&[("type", "m.room.message")], 10, Some(0), &[], &[], true);
    let condition = Condition::Known(KnownCondition::ContainsDisplayName);
    assert!(!no_body.matches(condition, None, Some("bob")));
}
