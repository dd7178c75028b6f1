//! Typed access to the Reddit API: request construction, retry and
//! rate-limit decisions, and decoding of the "thing" envelopes.

pub mod api;
pub mod auth;
pub mod client;
pub mod config;
pub mod decode;
pub mod endpoint;
pub mod error;
pub mod executor;
pub mod form;
pub mod fullname;
pub mod json;
pub mod models;
pub mod options;
pub mod ratelimit;
pub mod requests;
pub mod submit;
pub mod text;
