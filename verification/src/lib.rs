//! Verified core of a Cairo tool chain that works on projects held in memory.

pub mod beginning_laws;
pub mod compile;
pub mod config;
pub mod database;
pub mod directory;
pub mod edition;
pub mod embedded;
pub mod entries;
pub mod error;
pub mod laws;
pub mod log_laws;
pub mod number;
pub mod path;
pub mod path_laws;
pub mod project;
pub mod project_laws;
pub mod run;
pub mod session_laws;
pub mod starknet;
pub mod test_runner;
pub mod text;
pub mod text_laws;
pub mod traces;
pub mod view_laws;
