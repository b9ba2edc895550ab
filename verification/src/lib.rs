//! Loads a declarative configuration that pairs log files with regular
//! expressions extracting named fields, and derives per-capture-group metric
//! aliases of the form `<alias>.<capture_name>`, plus one flattened list of
//! every alias across all configured items.

pub mod config;
pub mod error;
pub mod pattern;

pub use config::Config;
pub use config::ConfigDeser;
pub use config::LogItem;
pub use config::LogItemDeser;
pub use error::Error;
