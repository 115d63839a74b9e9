//! A Tauri auto-update server: the version model, the rules that pick the
//! update served to a client, and the rules that turn GitHub releases into
//! version mappings.

pub mod text;
pub mod semver_calls;
pub mod models;
pub mod regex_calls;
pub mod crud;
pub mod tauri;
pub mod github;
pub mod laws;
