//! Setting up a project: its name, its template, its configuration.

pub mod generate;
pub mod init;
pub mod package;
