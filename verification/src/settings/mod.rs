//! The settings views.

pub mod application;
pub mod backup;
pub mod backup_laws;
pub mod benchmarks;
pub mod diagnostics;
pub mod diagnostics_laws;
pub mod folder_laws;
pub mod game_space;
pub mod general;
pub mod general_laws;
pub mod label_laws;
pub mod paths;
pub mod profile_laws;
pub mod profile_manager;
pub mod scheduling;
pub mod schedule_laws;
pub mod schedule_texts;
pub mod switches;
pub mod theme_laws;
pub mod themes;
pub mod tools;
pub mod ts3_laws;
pub mod ts3_plugins;
