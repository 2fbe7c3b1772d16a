//! Decides, for one chat event and one recipient, which of the recipient's
//! ordered notification rules first fully matches, and returns that rule's
//! actions with notification-suppressing actions filtered out.
//!
//! The snapshot of event-derived facts lives in [`evaluator`], together
//! with the per-condition matching semantics and the first-match-wins
//! selection loop; [`condition`] holds the typed condition model,
//! [`inequality`] the member-count expression grammar, [`glob`] the glob
//! pattern matching, and [`laws`] the proved properties of the selector.

pub mod assoc;
pub mod condition;
pub mod evaluator;
pub mod glob;
pub mod inequality;
pub mod laws;
pub mod strutil;
