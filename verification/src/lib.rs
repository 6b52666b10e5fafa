//! Persisted state of a desktop image viewer.
//!
//! Two documents are kept on disk. The *cache* is written by the program
//! itself and records session state such as the window geometry. The
//! *config* is edited by the user and is only ever read.

pub mod cache;
pub mod cache_format;
pub mod clock;
pub mod config;
pub mod config_format;
pub mod document;
pub mod error;
pub mod fields;
pub mod paths;
pub mod text;
pub mod theme;
pub mod title;

pub use cache::{Cache, CacheImageSection, CacheUpdateSection, CacheWindowSection, IncompleteCache};
pub use config::{
    Bindings, Command, ConfigImageSection, ConfigUpdateSection, ConfigWindowSection,
    Configuration, EnvVar,
};
pub use error::{LoadError, SaveError};
pub use theme::{Antialias, Theme};
pub use title::TitleSection;
