//! Verified core of an OpenAI-compatible audio proxy in front of OpenRouter.
//!
//! The library holds the decisions of the proxy: which audio formats exist and
//! how their names parse, how requests are validated, how upstream calls are
//! framed and how their failures are answered, and how FFmpeg is driven.
//! The program around it performs the outside work: the HTTP server and
//! client, FFmpeg processes and temporary files, and loading the settings.

pub mod config;
pub mod domain;
pub mod features;
pub mod infrastructure;

pub use crate::domain::error::{AppError, AppResult};
