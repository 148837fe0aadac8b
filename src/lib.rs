pub mod config;
pub mod declared;
pub mod engine;
pub mod laws;
pub mod plugin;
pub mod raw;
pub mod values;

pub use config::{Configuration, Diagnostic, ResolveConfigurationResult};
pub use engine::EngineSettings;
pub use plugin::{detect_line_endings, FormatError, StyluaPluginHandler};
pub use raw::{RawConfigMap, RawValue};
