//! The typed condition model: the conditions a push rule may carry, the
//! actions a rule prescribes, rules themselves, and the error kinds a
//! single condition evaluation can produce.

use vstd::prelude::*;

verus! {

/// A condition whose kind the evaluator recognizes.
pub enum KnownCondition {
    EventMatch(EventMatchCondition),
    RelatedEventMatch(RelatedEventMatchCondition),
    ContainsDisplayName,
    RoomMemberCount { is: Option<String> },
    SenderNotificationPermission { key: String },
}

/// A condition of a push rule: either one of the recognized kinds, or an
/// unrecognized kind carried verbatim, which never matches and never errors.
pub enum Condition {
    Known(KnownCondition),
    Unknown(String),
}

/// Matches a value of the event against a glob pattern.
pub struct EventMatchCondition {
    /// Dotted path of the event field to look up.
    pub key: String,
    /// Literal glob pattern; if absent, `pattern_type` decides the pattern.
    pub pattern: Option<String>,
    /// `"user_id"` or `"user_localpart"`: derive the pattern from the
    /// recipient's user id. Any other value never matches.
    pub pattern_type: Option<String>,
}

/// Matches a value of a related event against a glob pattern.
pub struct RelatedEventMatchCondition {
    /// Relation type under which the related event is indexed.
    pub rel_type: String,
    /// Dotted path to look up in the related event; if absent, the mere
    /// existence of the relation satisfies the condition.
    pub key: Option<String>,
    pub pattern: Option<String>,
    pub pattern_type: Option<String>,
    /// Unless this is explicitly `true`, a fallback relation never matches.
    pub include_fallbacks: Option<bool>,
}

/// What a matching rule prescribes. The evaluator never interprets the
/// content of an action; it only filters out `DontNotify`, the reserved
/// suppress-notification variant, before returning.
#[derive(Debug, PartialEq, Eq)]
pub enum Action {
    Notify,
    DontNotify,
    Coalesce,
    SetTweak(String),
}

impl Action {
    /// Whether this is the reserved suppress-notification variant.
    pub fn is_dont_notify(&self) -> (r: bool)
        ensures
            r == (*self is DontNotify),
    {
        match self {
            Action::DontNotify => true,
            _ => false,
        }
    }
}

impl Clone for Action {
    fn clone(&self) -> (r: Self)
        ensures
            r == *self,
    {
        match self {
            Action::Notify => Action::Notify,
            Action::DontNotify => Action::DontNotify,
            Action::Coalesce => Action::Coalesce,
            Action::SetTweak(s) => Action::SetTweak(s.clone()),
        }
    }
}

/// One notification policy entry: an ordered AND-group of conditions paired
/// with the actions to return when every condition matches.
pub struct PushRule {
    pub conditions: Vec<Condition>,
    pub actions: Vec<Action>,
}

/// An ordered rule list, each rule paired with its enabled flag; disabled
/// rules are skipped without evaluating their conditions.
pub struct FilteredPushRules {
    pub rules: Vec<(PushRule, bool)>,
}

/// Why a single condition evaluation failed. All three are recoverable and
/// local: the rule selector treats a failed condition exactly like a
/// non-matching one.
#[derive(Clone, Copy, Debug, PartialEq, Eq)]
pub enum MatchError {
    /// A localpart was requested of a user id that lacks the
    /// `@localpart:domain` shape.
    MalformedUserId,
    /// A member-count `is` clause fails the inequality grammar or its
    /// number does not fit the counter's type.
    BadInequalityExpression,
    /// The glob pattern did not compile into a matcher.
    PatternCompileError,
}

} // verus!
