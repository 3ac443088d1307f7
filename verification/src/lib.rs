//! A small project store: it lays out a project's metadata file as
//! pretty-printed JSON, computes where that file lives, and builds the
//! error messages that the store's operations report.

pub mod json;
pub mod store;
