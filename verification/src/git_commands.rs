//! What is run as git, and what a run of git comes to.
//!
//! Starting the process is the caller's part. The functions here say with
//! which arguments git is run, and turn what the caller saw of the run into
//! the text to explain or the failure to report.

use vstd::prelude::*;
use crate::ai_explainer::{command_line, git_command_line};
use crate::cli::{copy_from, or_help, push_string};
use crate::errors::{AppError, AppErrorView, GitError, GitErrorView};
use crate::model::result_view;
use crate::types::{CommandOutput, CommandOutputView};

verus! {

/// The heading under which what a failed command wrote to standard error is
/// put behind what it wrote to standard output.
pub const STDERR_HEADING: &'static str = "\n--- Stderr ---\n";

/// The arguments that git is run with for `args`: `--help` for none, so that
/// git is never run without an argument.
pub fn effective_args(args: &[String]) -> (effective: Vec<String>)
    ensures
        effective.deep_view() == or_help(args.deep_view()),
        effective@.len() > 0,
{
    let mut effective = copy_from(args, 0);
    assert(args.deep_view().skip(0) =~= args.deep_view());
    if effective.len() == 0 {
        push_string(&mut effective, "--help".to_owned());
        assert(effective.deep_view() =~= seq!["--help"@]);
    }
    assert(effective.deep_view().len() == effective@.len());
    effective
}

/// What a run of git on the user's terminal comes to: nothing to report
/// where it succeeded, and else a failure with the command line that was run
/// and the exit code, where the process had one.
pub open spec fn passthrough_result(args: Seq<Seq<char>>, success: bool, status_code: Option<i32>)
    -> Result<(), GitErrorView> {
    if success {
        Ok(())
    } else {
        Err(
            GitErrorView::PassthroughFailed {
                command: git_command_line(or_help(args)),
                status_code,
            },
        )
    }
}

/// Says what a run of git on the user's terminal comes to.
pub fn passthrough_outcome(args: &[String], success: bool, status_code: Option<i32>) -> (outcome:
    Result<(), GitError>)
    ensures
        result_view(outcome) == passthrough_result(args.deep_view(), success, status_code),
{
    if success {
        Ok(())
    } else {
        let effective = effective_args(args);
        Err(
            GitError::PassthroughFailed {
                command: command_line(effective.as_slice()),
                status_code,
            },
        )
    }
}

/// The text of a captured run that is put to the model: what was written to
/// standard output and, where the run failed and wrote to standard error,
/// that under a heading of its own.
pub open spec fn captured_text(output: CommandOutputView) -> Seq<char> {
    if !output.success && output.stderr.len() > 0 {
        output.stdout + STDERR_HEADING@ + output.stderr
    } else {
        output.stdout
    }
}

/// The text of a captured run that is put to the model.
pub fn text_to_explain(output: &CommandOutput) -> (text: String)
    ensures
        text@ == captured_text(output@),
{
    let mut text = output.stdout.clone();
    if !output.success && !output.stderr.as_str().is_empty() {
        text.append(STDERR_HEADING);
        text.append(output.stderr.as_str());
    }
    text
}

/// Whether the run can go on: git must be there, and the current directory
/// must lie in a repository.
pub open spec fn preflight_result(git_available: bool, in_repository: bool) -> Result<
    (),
    AppErrorView,
> {
    if !git_available {
        Err(AppErrorView::Io("Git command not found or not executable"@, "Git not available"@))
    } else if !in_repository {
        Err(AppErrorView::Git(GitErrorView::NotARepository))
    } else {
        Ok(())
    }
}

/// Says whether the run can go on.
pub fn preflight(git_available: bool, in_repository: bool) -> (outcome: Result<(), AppError>)
    ensures
        result_view(outcome) == preflight_result(git_available, in_repository),
{
    if !git_available {
        Err(
            AppError::Io(
                "Git command not found or not executable".to_owned(),
                "Git not available".to_owned(),
            ),
        )
    } else if !in_repository {
        Err(AppError::Git(GitError::NotARepository))
    } else {
        Ok(())
    }
}

} // verus!
