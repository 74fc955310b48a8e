pub mod openrouter;
pub mod transcoder;
