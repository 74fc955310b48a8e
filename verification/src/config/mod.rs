pub mod builder;
pub mod settings;

pub use builder::{ConfigBuilder, ConfigLayer, MergedData};
pub use settings::{AudioConfig, LoggingConfig, OpenRouterConfig, ServerConfig, Settings};
