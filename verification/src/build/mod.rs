//! The build step: whether there is a command to run, and what its exit
//! means.
//!
//! Running the command is the caller's part. It asks [`build_command`] for
//! the command line, runs it with the environment and working directory it
//! has itself, and hands what it saw to [`build_target`].

use vstd::prelude::*;
use vstd::string::*;
use crate::settings::Target;
use crate::text::decimal;
use crate::text::push_decimal;

verus! {

/// How a build ended.
#[derive(Debug, PartialEq, Eq)]
pub enum BuildOutcome {
    Success(String),
    /// The message, and the exit code where the command gave one.
    Failure(String, Option<i32>),
}

pub enum BuildOutcomeView {
    Success(Seq<char>),
    Failure(Seq<char>, Option<i32>),
}

impl View for BuildOutcome {
    type V = BuildOutcomeView;

    open spec fn view(&self) -> BuildOutcomeView {
        match self {
            BuildOutcome::Success(m) => BuildOutcomeView::Success(m@),
            BuildOutcome::Failure(m, code) => BuildOutcomeView::Failure(m@, *code),
        }
    }
}

/// What the caller saw of the build command.
#[derive(Clone, Copy, Debug, PartialEq, Eq, Structural)]
pub enum ProcessExit {
    /// The command ran and exited with this code.
    Code(i32),
    /// The command ran and ended without a code, as after a signal.
    NoCode,
    /// The command could not be started or waited for.
    NotRun,
}

/// The command line of the project's build step, if it has one.
pub open spec fn configured_command(target: Target) -> Option<Seq<char>> {
    match target.build {
        Some(config) => match config.command {
            Some(command) => Some(command@),
            None => None,
        },
        None => None,
    }
}

/// The command line that the caller is to run, if the project has a build
/// step with a command.
pub fn build_command(target: &Target) -> (command: Option<String>)
    ensures
        command is Some <==> configured_command(*target) is Some,
        command matches Some(c) ==> Some(c@) == configured_command(*target),
{
    match &target.build {
        Some(config) => match &config.command {
            Some(command) => Some(command.clone()),
            None => None,
        },
        None => None,
    }
}

/// The outcome of the build step of a project, given how its command ended.
/// Without a command the build succeeds, whatever `exit` says. With one,
/// exit code 0 is success; another code is a failure that carries the code
/// and names it; no code, or a command that did not run, is a failure
/// without a code.
pub open spec fn outcome_of(target: Target, exit: ProcessExit) -> BuildOutcomeView {
    if configured_command(target) is None {
        BuildOutcomeView::Success("no build step"@)
    } else {
        match exit {
            ProcessExit::Code(code) => if code == 0 {
                BuildOutcomeView::Success("build completed"@)
            } else {
                BuildOutcomeView::Failure(
                    "build failed, status code "@ + decimal(code as int),
                    Some(code),
                )
            },
            ProcessExit::NoCode => BuildOutcomeView::Failure("build failed"@, None),
            ProcessExit::NotRun => BuildOutcomeView::Failure("build failed"@, None),
        }
    }
}

/// Tells how the build of `target` ended. `exit` is what the caller saw of
/// the command; it is not looked at where the project has no command.
pub fn build_target(target: &Target, exit: ProcessExit) -> (outcome: BuildOutcome)
    ensures
        outcome@ == outcome_of(*target, exit),
{
    if build_command(target).is_none() {
        return BuildOutcome::Success(String::from_str("no build step"));
    }
    match exit {
        ProcessExit::Code(code) => {
            if code == 0 {
                BuildOutcome::Success(String::from_str("build completed"))
            } else {
                let mut message = String::from_str("build failed, status code ");
                push_decimal(&mut message, code);
                BuildOutcome::Failure(message, Some(code))
            }
        },
        ProcessExit::NoCode => BuildOutcome::Failure(String::from_str("build failed"), None),
        ProcessExit::NotRun => BuildOutcome::Failure(String::from_str("build failed"), None),
    }
}

/// A project without a build command always builds with success.
pub proof fn lemma_no_command_succeeds(target: Target, exit: ProcessExit)
    requires
        configured_command(target) is None,
    ensures
        outcome_of(target, exit) is Success,
{
}

/// With a build command, the build succeeds exactly on exit code 0, and a
/// failure carries the exit code exactly where there was one.
pub proof fn lemma_outcome_follows_exit(target: Target, exit: ProcessExit)
    requires
        configured_command(target) is Some,
    ensures
        outcome_of(target, exit) is Success <==> exit == ProcessExit::Code(0),
        forall|code: i32|
            exit == ProcessExit::Code(code) && code != 0 ==> outcome_of(target, exit)
                == BuildOutcomeView::Failure(
                "build failed, status code "@ + decimal(code as int),
                Some(code),
            ),
        exit != ProcessExit::Code(0) && !(exit is Code) ==> outcome_of(target, exit)
            == BuildOutcomeView::Failure("build failed"@, None),
{
}

} // verus!
