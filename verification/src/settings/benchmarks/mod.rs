//! The benchmarks tab: saved runs, their figures and charts, and the
//! comparison of two of them.

pub mod compare;
pub mod detail;
pub mod export;
pub mod filters;
pub mod laws;
pub mod list;
pub mod reading;
pub mod record;
pub mod series;
pub mod view_laws;
