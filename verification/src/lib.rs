//! Verified core of `jav`, a command-line companion for Java projects.
pub mod cli;
pub mod commands;
pub mod process;
pub mod project;
pub mod text;
pub mod upgrade;
pub mod templates;
