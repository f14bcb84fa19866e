//! Settings store for a local dictation daemon: schema and defaults,
//! shortcut normalization, migration of the flat legacy layout, reload
//! decisions and model path resolution.

pub mod config;
pub mod defaults;
pub mod document;
pub mod error;
pub mod manager;
pub mod number;
pub mod overrides;
pub mod paths;
pub mod resolver;
pub mod schema;
pub mod text;

pub use config::Config;
pub use error::ConfigError;
pub use manager::{ConfigManager, FileState, LoadPlan, ReloadOutcome, Subscription, Watcher};
pub use number::Real32;
pub use overrides::WordOverrides;
pub use paths::PathSet;
pub use schema::{
    FastVadConfig, FastVadProfileConfig, GeminiConfig, GroqConfig, ParakeetConfig,
    PasteHintsConfig, ShortcutsConfig, TranscriptionConfig, TranscriptionProvider, VadConfig,
    WhisperCppConfig,
};
