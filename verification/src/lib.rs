//! Error classification and remediation advice for a command-line tool.
//!
//! Given a failure captured as a [`failure::Failure`] value, the classifier
//! in [`metadata`] determines a stable diagnostic code (if any) and a
//! structured, context-aware suggestion (if any) to show the user. The
//! crate only classifies and attaches structured advice; rendering the
//! advice as text is left to the caller.

pub mod code;
pub mod env;
pub mod failure;
pub mod metadata;
pub mod suggestion;
