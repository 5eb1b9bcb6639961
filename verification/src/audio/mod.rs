//! Audio containers, sample payloads and duration limits.

pub mod constraints;
pub mod container;
pub mod layout;
pub mod samples;
