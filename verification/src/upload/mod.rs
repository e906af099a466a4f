//! From the files of a project to the bundle that is uploaded.

pub mod bundle;
pub mod filter;
pub mod form;
pub mod names;
