//! Verified view logic of the Foxy mod manager.
//!
//! The crate holds what the views decide and compute: which text a row shows,
//! which button is live, how a click changes the state, how a foreign
//! configuration is merged into the repository list. Drawing, files, the
//! clipboard and the network stay with the caller.

pub mod double;
pub mod figures;
pub mod figures_laws;
pub mod foxy;
pub mod text;
pub mod text_laws;
pub mod text_map;
pub mod message;
pub mod repository;
pub mod swifty;
pub mod workshop;
pub mod update;
pub mod settings;
