//! A launcher for scripts that are grouped into categories.
//!
//! The library holds what the launcher decides: the catalog and how it is
//! loaded, the navigation between the screens with its search, the colour
//! themes, the order of the steps by which a script is run and the display
//! given up and taken back, and the texts that are shown and logged. The
//! terminal, the files and the network are the caller's.

pub mod catalog;
pub mod config;
pub mod laws;
pub mod menu;
pub mod pointer;
pub mod progress;
pub mod quotes;
pub mod report;
pub mod run_laws;
pub mod runner;
pub mod search;
pub mod text;
pub mod theme;
pub mod update;
