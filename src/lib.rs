//! Indexes storage volumes into a catalog of files and directories, with an
//! append-only history of change events, and searches that catalog by name.

pub mod filter;
pub mod util;
pub mod file;
pub mod event;
pub mod catalog;
pub mod find;
pub mod scan;
pub mod settings;
pub mod cli;
