//! Verified core of the AudD music-recognition client: response decoding,
//! error classification, retry decisions, callback parsing and result helpers.

pub mod client;
pub mod decode;
pub mod errors;
pub mod helpers;
pub mod http;
pub mod json;
pub mod longpoll;
pub mod models;
pub mod retry;
pub mod source;
pub mod streams;
pub mod text;
pub mod urls;
pub mod user_agent;
