//! The failures of one build cycle.
//!
//! None of them ends the watch loop: each is reported, and the pipeline goes
//! back to watching.

use vstd::prelude::*;
use vstd::string::*;

verus! {

/// The project's configuration cannot be turned into a bundle.
#[derive(Debug, PartialEq, Eq)]
pub enum ConfigurationError {
    /// No entry script or entry module could be resolved.
    EntryRequired,
    /// A path that has to name a file has no file name.
    FilenameRequired { path: String },
    /// An include or exclude pattern is no valid glob.
    InvalidPattern { pattern: String },
    /// Two bindings share a name; `name` is the first name seen twice.
    DuplicateBindingName { name: String },
    /// Two modules share a name; `name` is the first name seen twice.
    DuplicateModuleName { name: String },
    /// The entry module is not among the modules of the bundle.
    EntryNotBundled { entry: String },
    /// The pattern matcher could not be built from valid patterns.
    MatcherFailed,
}

pub enum ConfigurationErrorView {
    EntryRequired,
    FilenameRequired { path: Seq<char> },
    InvalidPattern { pattern: Seq<char> },
    DuplicateBindingName { name: Seq<char> },
    DuplicateModuleName { name: Seq<char> },
    EntryNotBundled { entry: Seq<char> },
    MatcherFailed,
}

impl View for ConfigurationError {
    type V = ConfigurationErrorView;

    open spec fn view(&self) -> ConfigurationErrorView {
        match self {
            ConfigurationError::EntryRequired => ConfigurationErrorView::EntryRequired,
            ConfigurationError::FilenameRequired { path } => ConfigurationErrorView::FilenameRequired {
                path: path@,
            },
            ConfigurationError::InvalidPattern { pattern } => ConfigurationErrorView::InvalidPattern {
                pattern: pattern@,
            },
            ConfigurationError::DuplicateBindingName { name } => {
                ConfigurationErrorView::DuplicateBindingName { name: name@ }
            },
            ConfigurationError::DuplicateModuleName { name } => {
                ConfigurationErrorView::DuplicateModuleName { name: name@ }
            },
            ConfigurationError::EntryNotBundled { entry } => ConfigurationErrorView::EntryNotBundled {
                entry: entry@,
            },
            ConfigurationError::MatcherFailed => ConfigurationErrorView::MatcherFailed,
        }
    }
}

impl ConfigurationErrorView {
    /// The text that reports this error to the user.
    pub open spec fn message(self) -> Seq<char> {
        match self {
            ConfigurationErrorView::EntryRequired => "entry required"@,
            ConfigurationErrorView::FilenameRequired { path } => "filename required for "@ + path,
            ConfigurationErrorView::InvalidPattern { pattern } => "invalid pattern "@ + pattern,
            ConfigurationErrorView::DuplicateBindingName { name } => "duplicate binding name "@
                + name,
            ConfigurationErrorView::DuplicateModuleName { name } => "duplicate module name "@
                + name,
            ConfigurationErrorView::EntryNotBundled { entry } => "entry module not bundled "@
                + entry,
            ConfigurationErrorView::MatcherFailed => "pattern matcher could not be built"@,
        }
    }
}

fn join(head: &str, tail: &String) -> (s: String)
    ensures
        s@ == head@ + tail@,
{
    let mut s = String::from_str(head);
    s.append(tail.as_str());
    s
}

impl ConfigurationError {
    /// The text that reports this error to the user.
    pub fn message(&self) -> (text: String)
        ensures
            text@ == self@.message(),
    {
        match self {
            ConfigurationError::EntryRequired => String::from_str("entry required"),
            ConfigurationError::FilenameRequired { path } => join("filename required for ", path),
            ConfigurationError::InvalidPattern { pattern } => join("invalid pattern ", pattern),
            ConfigurationError::DuplicateBindingName { name } => join(
                "duplicate binding name ",
                name,
            ),
            ConfigurationError::DuplicateModuleName { name } => join(
                "duplicate module name ",
                name,
            ),
            ConfigurationError::EntryNotBundled { entry } => join(
                "entry module not bundled ",
                entry,
            ),
            ConfigurationError::MatcherFailed => String::from_str(
                "pattern matcher could not be built",
            ),
        }
    }
}

/// A file that the cycle needs could not be read.
#[derive(Debug, PartialEq, Eq)]
pub struct IoError {
    pub path: String,
}

pub struct IoErrorView {
    pub path: Seq<char>,
}

impl View for IoError {
    type V = IoErrorView;

    open spec fn view(&self) -> IoErrorView {
        IoErrorView { path: self.path@ }
    }
}

impl IoError {
    /// The text that reports this error to the user.
    pub fn message(&self) -> (text: String)
        ensures
            text@ == "unreadable file "@ + self.path@,
    {
        join("unreadable file ", &self.path)
    }
}

/// Why no bundle was assembled. No partial bundle is ever returned.
#[derive(Debug, PartialEq, Eq)]
pub enum AssemblyError {
    Configuration(ConfigurationError),
    Io(IoError),
    /// The static-asset manifest could not be put into text.
    Manifest,
}

pub enum AssemblyErrorView {
    Configuration(ConfigurationErrorView),
    Io(IoErrorView),
    Manifest,
}

impl View for AssemblyError {
    type V = AssemblyErrorView;

    open spec fn view(&self) -> AssemblyErrorView {
        match self {
            AssemblyError::Configuration(e) => AssemblyErrorView::Configuration(e@),
            AssemblyError::Io(e) => AssemblyErrorView::Io(e@),
            AssemblyError::Manifest => AssemblyErrorView::Manifest,
        }
    }
}

impl AssemblyError {
    /// The text that reports this error to the user.
    pub fn message(&self) -> (text: String)
        ensures
            text@ == match self@ {
                AssemblyErrorView::Configuration(e) => e.message(),
                AssemblyErrorView::Io(e) => "unreadable file "@ + e.path,
                AssemblyErrorView::Manifest => "asset manifest could not be encoded"@,
            },
    {
        match self {
            AssemblyError::Configuration(e) => e.message(),
            AssemblyError::Io(e) => e.message(),
            AssemblyError::Manifest => String::from_str("asset manifest could not be encoded"),
        }
    }
}

} // verus!
