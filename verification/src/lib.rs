//! The watch, build and package pipeline of a command-line tool that
//! deploys scripts.
//!
//! The library holds what is decided: when a burst of file changes has come
//! to rest ([`watch::debounce`]), what the watch loop does next
//! ([`watch`]), what the exit of a build command means ([`build`]), which
//! files a bundle is made of ([`upload::filter`]) and what a bundle holds
//! ([`upload::form`], [`upload::bundle`]), and how a new project is named
//! and configured ([`commands`]). It neither reads nor writes files, runs
//! no process and waits for nothing: its callers do, and hand it what they
//! found.

pub mod build;
pub mod commands;
pub mod error;
pub mod json;
pub mod settings;
pub mod text;
pub mod upload;
pub mod watch;
