//! The evaluator: a snapshot of event-derived facts, the per-condition
//! matching semantics, and the first-match-wins rule selection loop.

use vstd::prelude::*;

use crate::assoc::Assoc;
use crate::condition::{
    Action, Condition, EventMatchCondition, FilteredPushRules, KnownCondition, MatchError,
    PushRule, RelatedEventMatchCondition,
};
use crate::glob::{spec_glob_match, glob_match, GlobMatchType};
use crate::inequality::{eval_ineq, ineq_verdict};
use crate::strutil::{get_localpart_from_id, spec_localpart, str_eq};

verus! {

/// An optional string slice, as an optional character sequence.
pub open spec fn opt_str_view(o: Option<&str>) -> Option<Seq<char>> {
    match o {
        Some(s) => Some(s@),
        None => None,
    }
}

/// An optional owned string, as an optional character sequence.
pub open spec fn opt_string_view(o: Option<String>) -> Option<Seq<char>> {
    match o {
        Some(s) => Some(s@),
        None => None,
    }
}

/// The pattern text an event-match condition uses: the literal `pattern` if
/// present; else, by `pattern_type`, the user id or its localpart.
/// `Ok(None)` means the condition cannot match (no user id, or an
/// unrecognized `pattern_type`); the error is a malformed user id whose
/// localpart was requested.
pub open spec fn spec_resolve_pattern(
    pattern: Option<Seq<char>>,
    pattern_type: Option<Seq<char>>,
    user_id: Option<Seq<char>>,
) -> Result<Option<Seq<char>>, MatchError> {
    match pattern {
        Some(p) => Ok(Some(p)),
        None => match pattern_type {
            None => Ok(None),
            Some(pt) => match user_id {
                None => Ok(None),
                Some(uid) => if pt == "user_id"@ {
                    Ok(Some(uid))
                } else if pt == "user_localpart"@ {
                    match spec_localpart(uid) {
                        Some(lp) => Ok(Some(lp)),
                        None => Err(MatchError::MalformedUserId),
                    }
                } else {
                    Ok(None)
                },
            },
        },
    }
}

/// Values of the `content.body` key are matched word by word; every other
/// key is matched against its entire value.
pub open spec fn key_match_type(key: Seq<char>) -> GlobMatchType {
    if key == "content.body"@ {
        GlobMatchType::Word
    } else {
        GlobMatchType::Whole
    }
}

/// Allows running a set of push rules against a particular event, the
/// event given as a snapshot of derived facts, immutable for the
/// evaluator's lifetime.
pub struct PushRuleEvaluator {
    /// A mapping of "flattened" dotted key paths to string values of the
    /// event, e.g. `type` and `content.body`.
    pub flattened_keys: Assoc<String>,
    /// The value of `content.body`, or empty if absent; cached for
    /// repeated word matching.
    pub body: String,
    /// The number of users in the room.
    pub room_member_count: u64,
    /// The required power level per notification key.
    pub notification_power_levels: Assoc<i64>,
    /// The power level of the event's sender, or `None` for an outlier
    /// event whose sender level is unknown.
    pub sender_power_level: Option<i64>,
    /// The related events, indexed by relation type, each flattened in the
    /// same manner as `flattened_keys`.
    pub related_events_flattened: Assoc<Assoc<String>>,
    /// Whether related-event matching is enabled.
    pub related_event_match_enabled: bool,
}

/// The body value a snapshot derives from its flattened keys.
pub open spec fn spec_body_of(flattened_keys: Assoc<String>) -> Seq<char> {
    match flattened_keys.spec_get("content.body"@) {
        Some(b) => b@,
        None => Seq::empty(),
    }
}

/// The verdict of an event-match condition on the snapshot.
pub open spec fn spec_event_match(
    ev: PushRuleEvaluator,
    c: EventMatchCondition,
    user_id: Option<Seq<char>>,
) -> Result<bool, MatchError> {
    match spec_resolve_pattern(opt_string_view(c.pattern), opt_string_view(c.pattern_type), user_id) {
        Err(e) => Err(e),
        Ok(None) => Ok(false),
        Ok(Some(pattern)) => match ev.flattened_keys.spec_get(c.key@) {
            None => Ok(false),
            Some(haystack) => spec_glob_match(pattern, key_match_type(c.key@), haystack@),
        },
    }
}

/// The verdict of a related-event-match condition on the snapshot.
pub open spec fn spec_related_event_match(
    ev: PushRuleEvaluator,
    c: RelatedEventMatchCondition,
    user_id: Option<Seq<char>>,
) -> Result<bool, MatchError> {
    if !ev.related_event_match_enabled {
        Ok(false)
    } else {
        match ev.related_events_flattened.spec_get(c.rel_type@) {
            None => Ok(false),
            Some(event) => if c.include_fallbacks != Some(true) && event.spec_contains(
                "im.vector.is_falling_back"@,
            ) {
                Ok(false)
            } else {
                match c.key {
                    None => Ok(true),
                    Some(key) => match spec_resolve_pattern(
                        opt_string_view(c.pattern),
                        opt_string_view(c.pattern_type),
                        user_id,
                    ) {
                        Err(e) => Err(e),
                        Ok(None) => Ok(false),
                        Ok(Some(pattern)) => match event.spec_get(key@) {
                            None => Ok(false),
                            Some(haystack) => spec_glob_match(
                                pattern,
                                key_match_type(key@),
                                haystack@,
                            ),
                        },
                    },
                }
            },
        }
    }
}

/// The required power level for a notification key: the mapping's value,
/// or 50 where the mapping has no entry for the key.
pub open spec fn spec_required_level(ev: PushRuleEvaluator, key: Seq<char>) -> i64 {
    match ev.notification_power_levels.spec_get(key) {
        Some(level) => level,
        None => 50,
    }
}

/// The verdict of one condition on the snapshot: `Ok` with whether it
/// matches, or the error local to that condition. An unrecognized
/// condition kind never matches and never errors.
pub open spec fn spec_match_condition(
    ev: PushRuleEvaluator,
    cond: Condition,
    user_id: Option<Seq<char>>,
    display_name: Option<Seq<char>>,
) -> Result<bool, MatchError> {
    match cond {
        Condition::Unknown(_) => Ok(false),
        Condition::Known(known) => match known {
            KnownCondition::EventMatch(em) => spec_event_match(ev, em, user_id),
            KnownCondition::RelatedEventMatch(rem) => spec_related_event_match(ev, rem, user_id),
            KnownCondition::ContainsDisplayName => match display_name {
                None => Ok(false),
                Some(dn) => if dn.len() == 0 {
                    // An empty display name would match every event.
                    Ok(false)
                } else {
                    spec_glob_match(dn, GlobMatchType::Word, ev.body@)
                },
            },
            KnownCondition::RoomMemberCount { is } => match is {
                None => Ok(false),
                Some(is_clause) => match ineq_verdict(is_clause@, ev.room_member_count) {
                    Some(verdict) => Ok(verdict),
                    None => Err(MatchError::BadInequalityExpression),
                },
            },
            KnownCondition::SenderNotificationPermission { key } => match ev.sender_power_level {
                None => Ok(false),
                Some(sender_level) => Ok(sender_level >= spec_required_level(ev, key@)),
            },
        },
    }
}

/// An action the selector returns: everything but the reserved
/// suppress-notification variant.
pub open spec fn action_kept(a: Action) -> bool {
    !(a is DontNotify)
}

/// A rule's actions with the suppress-notification variant filtered out,
/// in their original order.
pub open spec fn filter_actions(actions: Seq<Action>) -> Seq<Action> {
    actions.filter(|a: Action| action_kept(a))
}

/// A rule fully matches: every one of its conditions matches, none errs.
pub open spec fn spec_rule_matches(
    ev: PushRuleEvaluator,
    rule: PushRule,
    user_id: Option<Seq<char>>,
    display_name: Option<Seq<char>>,
) -> bool {
    forall|i: int|
        0 <= i < rule.conditions@.len() ==> spec_match_condition(
            ev,
            #[trigger] rule.conditions@[i],
            user_id,
            display_name,
        ) == Ok::<bool, MatchError>(true)
}

/// What the selector returns on an ordered, enabled-flagged rule list: the
/// first enabled, fully matching rule's filtered actions, or empty when no
/// rule fully matches.
pub open spec fn spec_run(
    ev: PushRuleEvaluator,
    rules: Seq<(PushRule, bool)>,
    user_id: Option<Seq<char>>,
    display_name: Option<Seq<char>>,
) -> Seq<Action>
    decreases rules.len(),
{
    if rules.len() == 0 {
        Seq::empty()
    } else if rules[0].1 && spec_rule_matches(ev, rules[0].0, user_id, display_name) {
        filter_actions(rules[0].0.actions@)
    } else {
        spec_run(ev, rules.drop_first(), user_id, display_name)
    }
}

/// The pattern text an event-match condition uses, per
/// [`spec_resolve_pattern`].
fn resolve_pattern<'a>(
    pattern: &'a Option<String>,
    pattern_type: &'a Option<String>,
    user_id: Option<&'a str>,
) -> (r: Result<Option<&'a str>, MatchError>)
    ensures
        match (r, spec_resolve_pattern(
            opt_string_view(*pattern),
            opt_string_view(*pattern_type),
            opt_str_view(user_id),
        )) {
            (Ok(Some(p)), Ok(Some(sp))) => p@ == sp,
            (Ok(None), Ok(None)) => true,
            (Err(e), Err(se)) => e == se,
            _ => false,
        },
{
    match pattern {
        Some(p) => Ok(Some(p.as_str())),
        None => match pattern_type {
            None => Ok(None),
            Some(pt) => match user_id {
                None => Ok(None),
                Some(uid) => {
                    if str_eq(pt.as_str(), "user_id") {
                        Ok(Some(uid))
                    } else if str_eq(pt.as_str(), "user_localpart") {
                        match get_localpart_from_id(uid) {
                            Ok(localpart) => Ok(Some(localpart)),
                            Err(e) => Err(e),
                        }
                    } else {
                        Ok(None)
                    }
                },
            },
        },
    }
}

impl PushRuleEvaluator {
    /// The snapshot's internal invariant: unique keys in every mapping,
    /// and `body` derived from the flattened keys.
    pub open spec fn wf(self) -> bool {
        &&& self.flattened_keys.wf()
        &&& self.notification_power_levels.wf()
        &&& self.related_events_flattened.wf()
        &&& forall|i: int|
            0 <= i < self.related_events_flattened.entries@.len() ==> (
            #[trigger] self.related_events_flattened.entries@[i]).1.wf()
        &&& self.body@ == spec_body_of(self.flattened_keys)
    }

    /// Create a new `PushRuleEvaluator`, deriving the cached body from the
    /// flattened keys.
    pub fn py_new(
        flattened_keys: Assoc<String>,
        room_member_count: u64,
        sender_power_level: Option<i64>,
        notification_power_levels: Assoc<i64>,
        related_events_flattened: Assoc<Assoc<String>>,
        related_event_match_enabled: bool,
    ) -> (r: Result<PushRuleEvaluator, MatchError>)
        requires
            flattened_keys.wf(),
            notification_power_levels.wf(),
            related_events_flattened.wf(),
            forall|i: int|
                0 <= i < related_events_flattened.entries@.len() ==> (
                #[trigger] related_events_flattened.entries@[i]).1.wf(),
        ensures
            r matches Ok(ev) && ev.wf() && ev == (PushRuleEvaluator {
                body: ev.body,
                flattened_keys,
                room_member_count,
                notification_power_levels,
                sender_power_level,
                related_events_flattened,
                related_event_match_enabled,
            }),
    {
        let body: String = match flattened_keys.get("content.body") {
            Some(b) => b.clone(),
            None => String::new(),
        };
        Ok(PushRuleEvaluator {
            flattened_keys,
            body,
            room_member_count,
            notification_power_levels,
            sender_power_level,
            related_events_flattened,
            related_event_match_enabled,
        })
    }

    /// Evaluates an `event_match` condition.
    fn match_event_match(&self, event_match: &EventMatchCondition, user_id: Option<&str>) -> (r:
        Result<bool, MatchError>)
        ensures
            r == spec_event_match(*self, *event_match, opt_str_view(user_id)),
    {
        let pattern = match resolve_pattern(
            &event_match.pattern,
            &event_match.pattern_type,
            user_id,
        ) {
            Ok(Some(p)) => p,
            Ok(None) => {
                return Ok(false);
            },
            Err(e) => {
                return Err(e);
            },
        };
        let haystack = match self.flattened_keys.get(event_match.key.as_str()) {
            Some(h) => h,
            None => {
                return Ok(false);
            },
        };
        // Values of content.body are matched word by word; everything else
        // against the entire value.
        let match_type = if str_eq(event_match.key.as_str(), "content.body") {
            GlobMatchType::Word
        } else {
            GlobMatchType::Whole
        };
        glob_match(pattern, match_type, haystack.as_str())
    }

    /// Evaluates a `related_event_match` condition.
    fn match_related_event_match(
        &self,
        event_match: &RelatedEventMatchCondition,
        user_id: Option<&str>,
    ) -> (r: Result<bool, MatchError>)
        ensures
            r == spec_related_event_match(*self, *event_match, opt_str_view(user_id)),
    {
        if !self.related_event_match_enabled {
            return Ok(false);
        }
        let event = match self.related_events_flattened.get(event_match.rel_type.as_str()) {
            Some(event) => event,
            None => {
                return Ok(false);
            },
        };
        // Unless fallbacks are explicitly included, a fallback relation,
        // marked by its sentinel key, never matches.
        let include_fallbacks = match event_match.include_fallbacks {
            Some(true) => true,
            _ => false,
        };
        if !include_fallbacks && event.contains_key("im.vector.is_falling_back") {
            return Ok(false);
        }
        // Without a key the existence of the relation alone satisfies the
        // condition.
        let key = match &event_match.key {
            Some(key) => key,
            None => {
                return Ok(true);
            },
        };
        let pattern = match resolve_pattern(
            &event_match.pattern,
            &event_match.pattern_type,
            user_id,
        ) {
            Ok(Some(p)) => p,
            Ok(None) => {
                return Ok(false);
            },
            Err(e) => {
                return Err(e);
            },
        };
        let haystack = match event.get(key.as_str()) {
            Some(h) => h,
            None => {
                return Ok(false);
            },
        };
        let match_type = if str_eq(key.as_str(), "content.body") {
            GlobMatchType::Word
        } else {
            GlobMatchType::Whole
        };
        glob_match(pattern, match_type, haystack.as_str())
    }

    /// Match a given condition for a push rule: `Ok` with whether it
    /// matches, or the error local to that condition.
    pub fn match_condition(
        &self,
        condition: &Condition,
        user_id: Option<&str>,
        display_name: Option<&str>,
    ) -> (r: Result<bool, MatchError>)
        ensures
            r == spec_match_condition(
                *self,
                *condition,
                opt_str_view(user_id),
                opt_str_view(display_name),
            ),
    {
        let known = match condition {
            Condition::Known(known) => known,
            Condition::Unknown(_) => {
                return Ok(false);
            },
        };
        match known {
            KnownCondition::EventMatch(event_match) => self.match_event_match(
                event_match,
                user_id,
            ),
            KnownCondition::RelatedEventMatch(event_match) => self.match_related_event_match(
                event_match,
                user_id,
            ),
            KnownCondition::ContainsDisplayName => {
                match display_name {
                    None => Ok(false),
                    Some(dn) => {
                        if dn.is_empty() {
                            // An empty display name would match every
                            // event; it is explicitly ignored.
                            Ok(false)
                        } else {
                            glob_match(dn, GlobMatchType::Word, self.body.as_str())
                        }
                    },
                }
            },
            KnownCondition::RoomMemberCount { is } => {
                match is {
                    None => Ok(false),
                    Some(is_clause) => self.match_member_count(is_clause.as_str()),
                }
            },
            KnownCondition::SenderNotificationPermission { key } => {
                match self.sender_power_level {
                    None => Ok(false),
                    Some(sender_level) => {
                        let required_level = match self.notification_power_levels.get(
                            key.as_str(),
                        ) {
                            Some(level) => *level,
                            None => 50,
                        };
                        Ok(sender_level >= required_level)
                    },
                }
            },
        }
    }

    /// Match the member count against an `is` clause, e.g. `>2`, `==3` or
    /// just `4`.
    fn match_member_count(&self, is_clause: &str) -> (r: Result<bool, MatchError>)
        ensures
            r == (match ineq_verdict(is_clause@, self.room_member_count) {
                Some(verdict) => Ok::<bool, MatchError>(verdict),
                None => Err::<bool, MatchError>(MatchError::BadInequalityExpression),
            }),
    {
        eval_ineq(is_clause, self.room_member_count)
    }

    /// Check whether the given condition matches, treating a condition
    /// error exactly like a non-match.
    pub fn matches(
        &self,
        condition: Condition,
        user_id: Option<&str>,
        display_name: Option<&str>,
    ) -> (r: bool)
        ensures
            r == (spec_match_condition(
                *self,
                condition,
                opt_str_view(user_id),
                opt_str_view(display_name),
            ) == Ok::<bool, MatchError>(true)),
    {
        match self.match_condition(&condition, user_id, display_name) {
            Ok(true) => true,
            Ok(false) => false,
            Err(_) => false,
        }
    }

    /// Run the evaluator with the given push rules, for the given user id
    /// and display name of the user. Passing `None` skips evaluating rules
    /// matching the user id or display name.
    ///
    /// Returns the first enabled, fully matching rule's actions with the
    /// suppress-notification actions filtered out, or an empty list when
    /// no rule fully matches. A condition error never causes a match: the
    /// containing rule is abandoned exactly as on a non-match.
    pub fn run(
        &self,
        push_rules: &FilteredPushRules,
        user_id: Option<&str>,
        display_name: Option<&str>,
    ) -> (r: Vec<Action>)
        ensures
            r@ == spec_run(
                *self,
                push_rules.rules@,
                opt_str_view(user_id),
                opt_str_view(display_name),
            ),
    {
        let ghost all_rules = push_rules.rules@;
        let ghost uid = opt_str_view(user_id);
        let ghost dn = opt_str_view(display_name);
        let n = push_rules.rules.len();
        let mut ri: usize = 0;
        proof {
            assert(all_rules.skip(0) =~= all_rules);
        }
        while ri < n
            invariant
                all_rules == push_rules.rules@,
                uid == opt_str_view(user_id),
                dn == opt_str_view(display_name),
                n == all_rules.len(),
                0 <= ri <= n,
                spec_run(*self, all_rules, uid, dn) == spec_run(
                    *self,
                    all_rules.skip(ri as int),
                    uid,
                    dn,
                ),
            decreases n - ri,
        {
            proof {
                assert(all_rules.skip(ri as int)[0] == all_rules[ri as int]);
                assert(all_rules.skip(ri as int).drop_first() =~= all_rules.skip(ri + 1 as int));
            }
            let enabled = push_rules.rules[ri].1;
            if enabled {
                let rule = &push_rules.rules[ri].0;
                let m = rule.conditions.len();
                let mut ci: usize = 0;
                let mut failed: bool = false;
                while ci < m && !failed
                    invariant
                        all_rules == push_rules.rules@,
                        uid == opt_str_view(user_id),
                        dn == opt_str_view(display_name),
                        0 <= ri < all_rules.len(),
                        *rule == all_rules[ri as int].0,
                        m == rule.conditions@.len(),
                        0 <= ci <= m,
                        !failed ==> forall|k: int|
                            0 <= k < ci ==> spec_match_condition(
                                *self,
                                #[trigger] rule.conditions@[k],
                                uid,
                                dn,
                            ) == Ok::<bool, MatchError>(true),
                        failed ==> !spec_rule_matches(*self, *rule, uid, dn),
                    decreases m - ci,
                {
                    match self.match_condition(&rule.conditions[ci], user_id, display_name) {
                        Ok(true) => {},
                        _ => {
                            failed = true;
                        },
                    }
                    ci += 1;
                }
                if !failed {
                    proof {
                        assert(spec_rule_matches(*self, *rule, uid, dn));
                        assert(spec_run(*self, all_rules.skip(ri as int), uid, dn)
                            == filter_actions(rule.actions@));
                    }
                    // Filter out the suppress-notification actions.
                    let mut actions: Vec<Action> = Vec::new();
                    let mut ai: usize = 0;
                    let na = rule.actions.len();
                    proof {
                        reveal(Seq::filter);
                        assert(rule.actions@.take(0) =~= Seq::<Action>::empty());
                        assert(actions@ =~= filter_actions(rule.actions@.take(0)));
                    }
                    while ai < na
                        invariant
                            all_rules == push_rules.rules@,
                            0 <= ri < all_rules.len(),
                            *rule == all_rules[ri as int].0,
                            na == rule.actions@.len(),
                            0 <= ai <= na,
                            actions@ == filter_actions(rule.actions@.take(ai as int)),
                        decreases na - ai,
                    {
                        proof {
                            reveal(Seq::filter);
                            assert(rule.actions@.take(ai + 1 as int).drop_last() =~= rule.actions@
                                .take(ai as int));
                            assert(rule.actions@.take(ai + 1 as int).last() == rule.actions@[
                                ai as int]);
                        }
                        let action = &rule.actions[ai];
                        if !action.is_dont_notify() {
                            actions.push(action.clone());
                        }
                        ai += 1;
                    }
                    proof {
                        assert(rule.actions@.take(na as int) =~= rule.actions@);
                    }
                    return actions;
                }
            }
            ri += 1;
        }
        proof {
            assert(all_rules.skip(n as int) =~= Seq::<(PushRule, bool)>::empty());
        }
        Vec::new()
    }
}

} // verus!
