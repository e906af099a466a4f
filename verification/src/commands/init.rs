//! Planning the configuration of a project in the current directory.

use vstd::prelude::*;
use vstd::string::*;
use crate::commands::generate::is_worker_name;
use crate::commands::generate::validate_worker_name;
use crate::upload::names::file_name_of;
use crate::upload::names::filename_from_path;

verus! {

/// Why no configuration was planned.
#[derive(Debug, PartialEq, Eq)]
pub enum InitError {
    /// The directory has a configuration file already. `site` says whether
    /// a site was asked for, which decides what the user is told.
    ConfigExists { site: bool },
    /// The name is no project name.
    InvalidName { name: String },
}

/// What the user is told where a configuration file exists and a site was
/// asked for.
pub open spec fn site_exists_message() -> Seq<char> {
    "A wrangler.toml file already exists!\n\nTo add Workers Sites to your existing wrangler.toml, please add this section:\n\n[site]\nbucket = \"\" # this should point to the directory with static assets\nentry-point = \"workers-site\"\n\n"@
}

/// What the user is told where a configuration file exists.
pub open spec fn config_exists_message() -> Seq<char> {
    "A wrangler.toml file already exists! Please remove it before running this command again."@
}

impl InitError {
    /// The text that reports this error to the user.
    pub fn message(&self) -> (text: String)
        ensures
            match self {
                InitError::ConfigExists { site } => text@ == if *site {
                    site_exists_message()
                } else {
                    config_exists_message()
                },
                InitError::InvalidName { name } => text@ == "Worker name `"@ + name@
                    + "` is invalid. Ensure that you only use lowercase letters, dashes, underscores, and numbers."@,
            },
    {
        match self {
            InitError::ConfigExists { site } => {
                if *site {
                    String::from_str(
                        "A wrangler.toml file already exists!\n\nTo add Workers Sites to your existing wrangler.toml, please add this section:\n\n[site]\nbucket = \"\" # this should point to the directory with static assets\nentry-point = \"workers-site\"\n\n",
                    )
                } else {
                    String::from_str(
                        "A wrangler.toml file already exists! Please remove it before running this command again.",
                    )
                }
            },
            InitError::InvalidName { name } => {
                let mut text = String::from_str("Worker name `");
                text.append(name.as_str());
                text.append(
                    "` is invalid. Ensure that you only use lowercase letters, dashes, underscores, and numbers.",
                );
                text
            },
        }
    }
}

/// What is to be done to configure a project.
#[derive(Debug, PartialEq, Eq)]
pub struct InitPlan {
    /// The name of the project.
    pub name: String,
    /// The directory that gets the configuration.
    pub config_dir: String,
    /// Whether a site is set up beside the configuration.
    pub site: bool,
}

/// The name that a project has where none is given: that of the directory
/// it lies in, and `worker` where the directory has no name.
pub open spec fn default_name(current_path: Seq<char>) -> Seq<char> {
    match file_name_of(current_path) {
        Some(name) => name,
        None => "worker"@,
    }
}

/// The name of the current directory, for a project without a name of its
/// own.
pub fn current_dirname(current_path: &str) -> (dirname: String)
    ensures
        dirname@ == default_name(current_path@),
{
    match filename_from_path(current_path) {
        Some(name) => name,
        None => String::from_str("worker"),
    }
}

/// The name that the project gets: the one given, and the directory's
/// where none is given.
pub open spec fn project_name(name: Option<&str>, dirname: Seq<char>) -> Seq<char> {
    match name {
        Some(given) => given@,
        None => dirname,
    }
}

/// Plans the configuration of a project in the current directory.
///
/// Fails where the directory has a configuration file already, and then
/// where the project's name is no project name. Else the plan holds the
/// name, the current directory as the place of the configuration, and
/// whether a site is set up.
pub fn init(name: Option<&str>, site_flag: bool, config_exists: bool, dirname: &str) -> (res:
    Result<InitPlan, InitError>)
    ensures
        config_exists ==> (res matches Err(InitError::ConfigExists { site }) && site == site_flag),
        !config_exists && !is_worker_name(project_name(name, dirname@)) ==> (res matches Err(
            InitError::InvalidName { name: n },
        ) && n@ == project_name(name, dirname@)),
        !config_exists && is_worker_name(project_name(name, dirname@)) ==> (res matches Ok(plan)
            && plan.name@ == project_name(name, dirname@) && plan.config_dir@ == "./"@ && plan.site
            == site_flag),
{
    if config_exists {
        return Err(InitError::ConfigExists { site: site_flag });
    }
    let name = match name {
        Some(given) => given,
        None => dirname,
    };
    match validate_worker_name(name) {
        Err(_) => Err(InitError::InvalidName { name: String::from_str(name) }),
        Ok(()) => Ok(
            InitPlan {
                name: String::from_str(name),
                config_dir: String::from_str("./"),
                site: site_flag,
            },
        ),
    }
}

} // verus!
