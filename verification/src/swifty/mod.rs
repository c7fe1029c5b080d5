//! Taking over the repositories of an existing Swifty installation.

pub mod finish;
pub mod import;
pub mod import_laws;
pub mod laws;
pub mod page;
pub mod page_laws;
pub mod places;
pub mod scan_laws;
pub mod scanner;
pub mod types;
