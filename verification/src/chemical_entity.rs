//! Chemical entity handling.
pub mod structure;
