//! Hyrax: a git-based dependency manager that pulls repositories, or folders
//! of them, into a project as described by a `hyrax.toml` file.
//!
//! This crate holds the verified core: the configuration model, the rules
//! that add, check and sync dependencies, and the decisions of the command
//! line front end.
pub mod global;

pub mod cli;
pub mod config;
pub mod installer;
pub mod command;
pub mod file_helper;
