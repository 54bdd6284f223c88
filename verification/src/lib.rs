//! Orchestration core for bounded token-generation sessions.
//!
//! A [`master::Master`] owns one backend handle (any implementation of
//! [`generator::Generator`]) together with an immutable [`config::Context`].
//! It can run one bounded generation at a time, streaming each produced
//! token to a caller-supplied [`sink::Sink`] and reporting throughput and
//! memory telemetry around the loop.

pub mod chat;
pub mod config;
pub mod errors;
pub mod generator;
pub mod master;
pub mod output;
pub mod scripted;
pub mod sink;
pub mod telemetry;
pub mod token;
