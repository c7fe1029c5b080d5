//! The repository update view.

pub mod diff;
pub mod direct_download;
pub mod graph;
pub mod laws;
pub mod manifest;
pub mod view;
pub mod view_laws;
