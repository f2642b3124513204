//! Conversion of identifiers between naming conventions.
//!
//! An input is split into words at boundaries, each word is recased by a
//! pattern, and the words are joined by a delimiter.
pub mod text;
pub mod boundary;
pub mod user_pattern;
pub mod user_case;
pub mod converter;
pub mod options;
pub mod help;

pub use boundary::Boundary;
pub use converter::Converter;
pub use help::{list_cases, list_patterns};
pub use options::{CaseOption, ConfigError, Options};
pub use text::UnknownName;
pub use user_case::UserCase;
pub use user_pattern::UserPattern;
