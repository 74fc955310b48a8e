pub mod dto;
pub mod extractor;
pub mod service;
