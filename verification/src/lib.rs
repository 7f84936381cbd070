//! Installation logic of a desktop installer: choosing the release asset,
//! following a download and an extraction step by step, and the state machine
//! that turns a worker's reports into messages for the presentation layer.

pub mod alert;
pub mod error;
pub mod progress;
pub mod flags;
pub mod orchestrator;
pub mod download;
pub mod resolver;
pub mod extract;
pub mod config;
