//! Verified core of an audio transcription service: container decoding, sample
//! conversion, duration limits, converter invocation, scratch-file naming,
//! recognition parameters, transcript assembly and the per-request stage machine.

pub mod audio;
pub mod config;
pub mod controllers;
pub mod errors;
pub mod middlewares;
pub mod models;
pub mod numbers;
pub mod pipeline;
pub mod services;
pub mod text;
pub mod utils;
