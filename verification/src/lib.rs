//! Verified core of an Android application auditor: severity levels,
//! error values with their exit codes, and extraction of the source lines
//! around a finding.

pub mod text;
pub mod error;
pub mod criticity;
pub mod report;
pub mod snippet;

pub use criticity::Criticity;
pub use error::{Error, JSONError, JsonFailure, Result};
pub use report::{vulnerability_heading, vulnerability_tone, Tone};
pub use snippet::get_code;
