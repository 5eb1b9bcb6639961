//! The stages between an upload and its transcript.

pub mod failure;
pub mod normalizer;
pub mod recognition;
pub mod scratch;
pub mod stages;
pub mod transcript;
