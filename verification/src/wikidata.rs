//! Knowledge-base reconciliation: resolved facts about a record, and the
//! rendering of the edit-command batch.
pub mod checker;
pub mod writer;
