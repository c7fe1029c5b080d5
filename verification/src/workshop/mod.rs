//! The Steam Workshop tab.

pub mod comparison;
pub mod laws;
pub mod run;
pub mod run_laws;
pub mod steps;
pub mod tasks;
pub mod view;
pub mod view_laws;
