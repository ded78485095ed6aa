//! An in-memory account store with a TOTP-based second factor: registration
//! with case-insensitively unique emails, and an MFA record per account that
//! is driven through its generate / verify / enable / disable lifecycle.

pub mod command;
pub mod domain;
pub mod store;
pub mod trusted;
