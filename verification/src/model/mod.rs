//! Data model: tags, the tag store, and the persisted preferences.

pub mod document;
pub mod matcher;
pub mod settings;
pub mod tag;
