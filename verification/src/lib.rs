//! Verified core of a small Discord REST/voice client: route normalisation,
//! rate-limit bookkeeping, request retry decisions, JSON model decoding and
//! the voice/audio state machines.

pub mod method;
pub mod text;
pub mod route;
pub mod numeric;
pub mod bucket;
pub mod tables;
pub mod limiter;
pub mod cache;
pub mod errors;
pub mod request;
pub mod json;
pub mod format;
pub mod models;
pub mod voice;
pub mod client;
pub mod laws;
pub mod route_laws;
