//! Helpers for uploads, bearer tokens, passwords and validation reports.

pub mod file;
pub mod jwt;
pub mod password;
pub mod validation;
