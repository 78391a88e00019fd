//! The settings of an interactive fuzzy finder: what a user can set, how the settings file is
//! read and held to that, and how a setting is chosen where several layers have one.
//!
//! - [`schema`] lists the settings and their defaults.
//! - [`syntax`] reads TOML text into a [`document`]; [`decode`] reads a document into settings
//!   and [`encode`] writes settings as a document.
//! - [`loader`] makes settings that can always be used out of whatever is found where the
//!   settings file should be, and [`holder`] keeps them for the life of the process.
//! - [`resolve`] picks the ignore settings and the delay that hold for one request, and
//!   [`criteria`] reads the list of rank criteria.
//! - [`laws`] states what holds of loading whatever the document.

pub mod criteria;
pub mod decode;
pub mod document;
pub mod encode;
pub mod fields;
pub mod holder;
pub mod laws;
pub mod loader;
pub mod maps;
pub mod paths;
pub mod resolve;
pub mod schema;
pub mod syntax;
pub mod text;
