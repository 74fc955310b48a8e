//! The text-to-speech endpoint: request validation and the synthesis plan.
pub mod dto;
pub mod service;
