//! Laws of the rule selector and the condition matcher, stated over the
//! same specification functions the executable contracts use.

use vstd::prelude::*;

use crate::condition::{Action, Condition, KnownCondition, MatchError, PushRule, RelatedEventMatchCondition};
use crate::evaluator::{
    filter_actions, spec_match_condition, spec_required_level, spec_rule_matches, spec_run,
    PushRuleEvaluator,
};
use crate::inequality::{digits_val, eval_ineq_op, ineq_verdict, ineq_well_formed, op_len};

verus! {

/// The selection returns either nothing or exactly one rule's
/// suppress-filtered actions: it never merges actions across rules.
pub proof fn lemma_run_single_rule(
    ev: PushRuleEvaluator,
    rules: Seq<(PushRule, bool)>,
    user_id: Option<Seq<char>>,
    display_name: Option<Seq<char>>,
)
    ensures
        spec_run(ev, rules, user_id, display_name) == Seq::<Action>::empty() || exists|k: int|
            0 <= k < rules.len() && (#[trigger] rules[k]).1 && spec_rule_matches(
                ev,
                rules[k].0,
                user_id,
                display_name,
            ) && spec_run(ev, rules, user_id, display_name) == filter_actions(rules[k].0.actions@),
    decreases rules.len(),
{
    if rules.len() == 0 {
        assert(spec_run(ev, rules, user_id, display_name) == Seq::<Action>::empty());
    } else if rules[0].1 && spec_rule_matches(ev, rules[0].0, user_id, display_name) {
        assert(spec_run(ev, rules, user_id, display_name) == filter_actions(rules[0].0.actions@));
    } else {
        lemma_run_single_rule(ev, rules.drop_first(), user_id, display_name);
        let tail = rules.drop_first();
        if spec_run(ev, tail, user_id, display_name) != Seq::<Action>::empty() {
            let k = choose|k: int|
                0 <= k < tail.len() && (#[trigger] tail[k]).1 && spec_rule_matches(
                    ev,
                    tail[k].0,
                    user_id,
                    display_name,
                ) && spec_run(ev, tail, user_id, display_name) == filter_actions(
                    tail[k].0.actions@,
                );
            assert(rules[k + 1] == tail[k]);
        }
    }
}

/// First-match-wins: where rule `k` is enabled and fully matches and no
/// earlier rule does, the selection returns rule `k`'s filtered actions.
/// In particular, of two independently matching enabled rules the earlier
/// one decides.
pub proof fn lemma_run_first_match_wins(
    ev: PushRuleEvaluator,
    rules: Seq<(PushRule, bool)>,
    user_id: Option<Seq<char>>,
    display_name: Option<Seq<char>>,
    k: int,
)
    requires
        0 <= k < rules.len(),
        rules[k].1,
        spec_rule_matches(ev, rules[k].0, user_id, display_name),
        forall|j: int|
            0 <= j < k ==> !((#[trigger] rules[j]).1 && spec_rule_matches(
                ev,
                rules[j].0,
                user_id,
                display_name,
            )),
    ensures
        spec_run(ev, rules, user_id, display_name) == filter_actions(rules[k].0.actions@),
    decreases k,
{
    if k == 0 {
    } else {
        let tail = rules.drop_first();
        assert(forall|j: int| 0 <= j < k - 1 ==> tail[j] == rules[j + 1]);
        assert(tail[k - 1] == rules[k]);
        lemma_run_first_match_wins(ev, tail, user_id, display_name, k - 1);
    }
}

/// Disabled rules never influence the result, regardless of their
/// conditions: dropping a disabled rule from the list leaves the
/// selection unchanged.
pub proof fn lemma_run_ignores_disabled(
    ev: PushRuleEvaluator,
    rules: Seq<(PushRule, bool)>,
    user_id: Option<Seq<char>>,
    display_name: Option<Seq<char>>,
    i: int,
)
    requires
        0 <= i < rules.len(),
        !rules[i].1,
    ensures
        spec_run(ev, rules.remove(i), user_id, display_name) == spec_run(
            ev,
            rules,
            user_id,
            display_name,
        ),
    decreases rules.len(),
{
    if i == 0 {
        assert(rules.remove(0) =~= rules.drop_first());
    } else {
        assert(rules.remove(i).drop_first() =~= rules.drop_first().remove(i - 1));
        assert(rules.remove(i)[0] == rules[0]);
        lemma_run_ignores_disabled(ev, rules.drop_first(), user_id, display_name, i - 1);
    }
}

/// A `ContainsDisplayName` condition with an empty display name never
/// matches, whatever the snapshot — even where the body is empty too.
pub proof fn lemma_empty_display_name_never_matches(
    ev: PushRuleEvaluator,
    user_id: Option<Seq<char>>,
    display_name: Option<Seq<char>>,
)
    requires
        display_name matches Some(dn) && dn.len() == 0,
    ensures
        spec_match_condition(
            ev,
            Condition::Known(KnownCondition::ContainsDisplayName),
            user_id,
            display_name,
        ) == Ok::<bool, MatchError>(false),
{
}

/// An `is` clause that fits the grammar and whose number fits the counter
/// but whose operator prefix is not one of the six recognized ones is
/// treated as non-matching, not as an error.
pub proof fn lemma_unrecognized_operator_is_false(s: Seq<char>, count: u64)
    requires
        ineq_well_formed(s),
        digits_val(s.skip(op_len(s))) <= u64::MAX,
        ({
            let op = s.take(op_len(s));
            &&& op.len() != 0
            &&& op != seq!['=', '=']
            &&& op != seq!['<']
            &&& op != seq!['>']
            &&& op != seq!['>', '=']
            &&& op != seq!['<', '=']
        }),
    ensures
        ineq_verdict(s, count) == Some(false),
{
    let op = s.take(op_len(s));
    let rhs = digits_val(s.skip(op_len(s))) as u64;
    assert(!eval_ineq_op(op, count, rhs));
}

/// A `SenderNotificationPermission` condition whose key has no entry in
/// the notification power levels compares the sender's level against the
/// default threshold of 50.
pub proof fn lemma_permission_default_threshold(
    ev: PushRuleEvaluator,
    key: String,
    user_id: Option<Seq<char>>,
    display_name: Option<Seq<char>>,
)
    requires
        ev.notification_power_levels.spec_get(key@) is None,
    ensures
        spec_match_condition(
            ev,
            Condition::Known(KnownCondition::SenderNotificationPermission { key }),
            user_id,
            display_name,
        ) == (match ev.sender_power_level {
            None => Ok::<bool, MatchError>(false),
            Some(sender_level) => Ok::<bool, MatchError>(sender_level >= 50),
        }),
{
    assert(spec_required_level(ev, key@) == 50);
}

/// A `RelatedEventMatch` condition whose relation type is absent from the
/// snapshot's related events never matches, regardless of its other
/// fields.
pub proof fn lemma_absent_relation_never_matches(
    ev: PushRuleEvaluator,
    c: RelatedEventMatchCondition,
    user_id: Option<Seq<char>>,
    display_name: Option<Seq<char>>,
)
    requires
        ev.related_events_flattened.spec_get(c.rel_type@) is None,
    ensures
        spec_match_condition(
            ev,
            Condition::Known(KnownCondition::RelatedEventMatch(c)),
            user_id,
            display_name,
        ) == Ok::<bool, MatchError>(false),
{
}

} // verus!
