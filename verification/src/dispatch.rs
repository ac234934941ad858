//! The course of one run, as a chain of decisions.
//!
//! A run alternates between work that only the caller can do (running git,
//! asking the model, printing) and decisions about what to do next. Each
//! decision is a function here: it takes what the last piece of work gave and
//! says which piece of work is next, as a [`Step`]. The caller does what the
//! step says, hands the result to the function named in the step, and goes
//! on until a step ends the run.

use vstd::prelude::*;
use crate::ai_commands::{commit_prompt, commit_user_prompt};
use crate::ai_explainer::{
    build_chat_request, chat_request, command_explanation, explain_git_command,
    explain_git_command_output, output_explanation, Explanation, ExplanationView,
};
use crate::ai_utils::{OpenAIChatRequest, OpenAIChatRequestView};
use crate::cli::{
    Classification, ClassificationView, CommitArgs, CommitArgsView, EnhancerSubCommand,
    EnhancerSubCommandView,
};
use crate::commit_commands::{
    ai_commit_args, ai_commit_command, allows_empty, args_allow_empty, diff_args, diff_command,
    plain_commit_args, plain_commit_command, staging_args, staging_command,
};
use crate::config::{AppConfig, AppConfigView};
use crate::errors::{
    map_command_error, AIError, AIErrorView, AppError, AppErrorView, GitError, GitErrorView,
};
use crate::git_commands::{
    captured_text, passthrough_outcome, passthrough_result, text_to_explain,
};
use crate::ai_explainer::{command_line, git_command_line};
use crate::model::result_view;
use crate::text::{is_blank, str_is_blank};
use crate::types::{CommandOutput, CommandOutputView};

verus! {

/// What is done with what a captured run of git printed.
#[derive(Debug, Clone, PartialEq, Eq)]
pub enum AfterCapture {
    /// It is help text, to be explained.
    ExplainOutput,
    /// The changes of this commit were staged: the diff is next.
    Staged(CommitArgs),
    /// It is the diff of the staged changes of this commit.
    Diff(CommitArgs),
}

/// What is done with what the model replied.
#[derive(Debug, Clone, PartialEq, Eq)]
pub enum AfterReply {
    /// It is an explanation, to be shown.
    Show,
    /// It is the message of this commit.
    Commit(CommitArgs),
}

/// The next piece of work of a run.
#[derive(Debug, Clone, PartialEq, Eq)]
pub enum Step {
    /// Run git with these arguments on the user's terminal. The run ends
    /// with what [`after_passthrough`] makes of git's exit.
    Passthrough(Vec<String>),
    /// Run git with these arguments and capture what it prints, then go on
    /// with [`after_capture`].
    Capture(Vec<String>, AfterCapture),
    /// Put this request to the model, then go on with [`after_reply`].
    Complete(OpenAIChatRequest, AfterReply),
    /// Print this text. The run ends in success.
    Print(String),
    /// The run ends with this failure.
    Fail(AppError),
}

/// The model of an [`AfterCapture`].
pub enum AfterCaptureView {
    ExplainOutput,
    Staged(CommitArgsView),
    Diff(CommitArgsView),
}

/// The model of an [`AfterReply`].
pub enum AfterReplyView {
    Show,
    Commit(CommitArgsView),
}

/// The model of a [`Step`].
pub enum StepView {
    Passthrough(Seq<Seq<char>>),
    Capture(Seq<Seq<char>>, AfterCaptureView),
    Complete(OpenAIChatRequestView, AfterReplyView),
    Print(Seq<char>),
    Fail(AppErrorView),
}

impl View for AfterCapture {
    type V = AfterCaptureView;

    open spec fn view(&self) -> AfterCaptureView {
        match self {
            AfterCapture::ExplainOutput => AfterCaptureView::ExplainOutput,
            AfterCapture::Staged(commit) => AfterCaptureView::Staged(commit@),
            AfterCapture::Diff(commit) => AfterCaptureView::Diff(commit@),
        }
    }
}

impl View for AfterReply {
    type V = AfterReplyView;

    open spec fn view(&self) -> AfterReplyView {
        match self {
            AfterReply::Show => AfterReplyView::Show,
            AfterReply::Commit(commit) => AfterReplyView::Commit(commit@),
        }
    }
}

impl View for Step {
    type V = StepView;

    open spec fn view(&self) -> StepView {
        match self {
            Step::Passthrough(args) => StepView::Passthrough(args.deep_view()),
            Step::Capture(args, then) => StepView::Capture(args.deep_view(), then@),
            Step::Complete(request, then) => StepView::Complete(request@, then@),
            Step::Print(text) => StepView::Print(text@),
            Step::Fail(error) => StepView::Fail(error@),
        }
    }
}

/// The step that an explanation comes to: the text is printed where it is
/// ready, and else the model is asked and its reply shown.
pub open spec fn explanation_step(plan: ExplanationView) -> StepView {
    match plan {
        ExplanationView::Ready(text) => StepView::Print(text),
        ExplanationView::Ask(request) => StepView::Complete(request, AfterReplyView::Show),
    }
}

/// The first step of a `commit`. Without the model, git makes the commit
/// with what the user gave. With it, the changes are staged first where that
/// is asked for, and else the diff of the staged changes is taken.
pub open spec fn commit_first_step(commit: CommitArgsView) -> StepView {
    if !commit.ai {
        StepView::Passthrough(plain_commit_command(commit))
    } else if commit.auto_stage {
        StepView::Capture(staging_command(), AfterCaptureView::Staged(commit))
    } else {
        StepView::Capture(diff_command(), AfterCaptureView::Diff(commit))
    }
}

/// The first step of a run, by what the invocation asks for.
pub open spec fn first_step(class: ClassificationView, config: AppConfigView) -> StepView {
    match class {
        ClassificationView::HelpPassthrough(args) => StepView::Passthrough(args),
        ClassificationView::HelpWithExplain(args) => StepView::Capture(
            args,
            AfterCaptureView::ExplainOutput,
        ),
        ClassificationView::KnownSubcommand(EnhancerSubCommandView::Commit(commit)) => {
            commit_first_step(commit)
        },
        ClassificationView::GlobalExplain(args) => explanation_step(
            command_explanation(config, args),
        ),
        ClassificationView::Passthrough(args) => StepView::Passthrough(args),
    }
}

/// The failure of the captured command `args`, with what it left.
pub open spec fn capture_failure(args: Seq<Seq<char>>, output: CommandOutputView) -> StepView {
    StepView::Fail(
        AppErrorView::Git(
            GitErrorView::CommandFailed(
                git_command_line(args),
                output.status_code,
                output.stdout,
                output.stderr,
            ),
        ),
    )
}

/// The step after the diff of the staged changes was taken. Where taking it
/// failed, the run fails with that. Where nothing is staged, the model is not
/// asked: git makes the commit with what the user gave where that allows a
/// commit without changes, and else the run fails. Otherwise the model is
/// asked for a message, under the configured prompt.
pub open spec fn diff_step(commit: CommitArgsView, output: CommandOutputView, config: AppConfigView)
    -> StepView {
    if !output.success {
        capture_failure(diff_command(), output)
    } else if is_blank(output.stdout) {
        if allows_empty(commit.passthrough_args) {
            StepView::Passthrough(plain_commit_command(commit))
        } else {
            StepView::Fail(AppErrorView::Git(GitErrorView::NoStagedChanges))
        }
    } else {
        StepView::Complete(
            chat_request(config, config.system_prompt, commit_prompt(output.stdout)),
            AfterReplyView::Commit(commit),
        )
    }
}

/// The step after a captured run of git.
pub open spec fn step_after_capture(
    then: AfterCaptureView,
    output: CommandOutputView,
    config: AppConfigView,
) -> StepView {
    match then {
        AfterCaptureView::ExplainOutput => explanation_step(
            output_explanation(config, captured_text(output)),
        ),
        AfterCaptureView::Staged(commit) => if output.success {
            StepView::Capture(diff_command(), AfterCaptureView::Diff(commit))
        } else {
            capture_failure(staging_command(), output)
        },
        AfterCaptureView::Diff(commit) => diff_step(commit, output, config),
    }
}

/// The step after the model replied, or failed to: a failure ends the run,
/// an explanation is printed, and a commit message goes into the commit.
pub open spec fn step_after_reply(then: AfterReplyView, reply: Result<Seq<char>, AIErrorView>)
    -> StepView {
    match reply {
        Err(e) => StepView::Fail(AppErrorView::AI(e)),
        Ok(text) => match then {
            AfterReplyView::Show => StepView::Print(text),
            AfterReplyView::Commit(commit) => StepView::Passthrough(
                ai_commit_command(commit, text),
            ),
        },
    }
}

/// How a run ends after git ran on the user's terminal.
pub open spec fn end_after_passthrough(
    args: Seq<Seq<char>>,
    success: bool,
    status_code: Option<i32>,
) -> Result<(), AppErrorView> {
    match passthrough_result(args, success, status_code) {
        Ok(_) => Ok(()),
        Err(e) => Err(AppErrorView::Git(e)),
    }
}

fn step_of(plan: Explanation) -> (step: Step)
    ensures
        step@ == explanation_step(plan@),
{
    match plan {
        Explanation::Ready(text) => Step::Print(text),
        Explanation::Ask(request) => Step::Complete(request, AfterReply::Show),
    }
}

fn fail_capture(args: &Vec<String>, output: &CommandOutput) -> (step: Step)
    ensures
        step@ == capture_failure(args.deep_view(), output@),
{
    let line = command_line(args.as_slice());
    Step::Fail(AppError::Git(map_command_error(line.as_str(), output)))
}

/// Says how a run begins.
pub fn begin(class: Classification, config: &AppConfig) -> (step: Step)
    ensures
        step@ == first_step(class@, config@),
{
    match class {
        Classification::HelpPassthrough(args) => Step::Passthrough(args),
        Classification::HelpWithExplain(args) => Step::Capture(args, AfterCapture::ExplainOutput),
        Classification::KnownSubcommand(EnhancerSubCommand::Commit(commit)) => {
            if !commit.ai {
                Step::Passthrough(plain_commit_args(&commit))
            } else if commit.auto_stage {
                Step::Capture(staging_args(), AfterCapture::Staged(commit))
            } else {
                Step::Capture(diff_args(), AfterCapture::Diff(commit))
            }
        },
        Classification::GlobalExplain(args) => step_of(
            explain_git_command(config, args.as_slice()),
        ),
        Classification::Passthrough(args) => Step::Passthrough(args),
    }
}

/// Says how a run goes on after a captured run of git.
pub fn after_capture(then: AfterCapture, output: &CommandOutput, config: &AppConfig) -> (step: Step)
    ensures
        step@ == step_after_capture(then@, output@, config@),
{
    match then {
        AfterCapture::ExplainOutput => {
            let text = text_to_explain(output);
            step_of(explain_git_command_output(config, text.as_str()))
        },
        AfterCapture::Staged(commit) => {
            if output.success {
                Step::Capture(diff_args(), AfterCapture::Diff(commit))
            } else {
                fail_capture(&staging_args(), output)
            }
        },
        AfterCapture::Diff(commit) => {
            if !output.success {
                fail_capture(&diff_args(), output)
            } else if str_is_blank(output.stdout.as_str()) {
                if args_allow_empty(&commit.passthrough_args) {
                    Step::Passthrough(plain_commit_args(&commit))
                } else {
                    Step::Fail(AppError::Git(GitError::NoStagedChanges))
                }
            } else {
                let prompt = commit_user_prompt(output.stdout.as_str());
                let request = build_chat_request(
                    config,
                    config.system_prompt.as_str(),
                    prompt.as_str(),
                );
                Step::Complete(request, AfterReply::Commit(commit))
            }
        },
    }
}

/// Says how a run goes on after the model replied, or failed to.
pub fn after_reply(then: AfterReply, reply: Result<String, AIError>) -> (step: Step)
    ensures
        step@ == step_after_reply(then@, result_view(reply)),
{
    match reply {
        Err(e) => Step::Fail(AppError::AI(e)),
        Ok(text) => match then {
            AfterReply::Show => Step::Print(text),
            AfterReply::Commit(commit) => Step::Passthrough(
                ai_commit_args(&commit, text.as_str()),
            ),
        },
    }
}

/// Says how a run ends after git ran on the user's terminal with `args`.
pub fn after_passthrough(args: &[String], success: bool, status_code: Option<i32>) -> (end: Result<
    (),
    AppError,
>)
    ensures
        result_view(end) == end_after_passthrough(args.deep_view(), success, status_code),
{
    match passthrough_outcome(args, success, status_code) {
        Ok(_) => Ok(()),
        Err(e) => Err(AppError::Git(e)),
    }
}

/// A commit with the model for which nothing is staged never reaches the
/// model: it fails for want of staged changes, or, where the user allowed a
/// commit without changes, is made by git with what the user gave.
pub proof fn lemma_nothing_staged(
    commit: CommitArgsView,
    output: CommandOutputView,
    config: AppConfigView,
)
    requires
        output.success,
        is_blank(output.stdout),
    ensures
        step_after_capture(AfterCaptureView::Diff(commit), output, config) == if allows_empty(
            commit.passthrough_args,
        ) {
            StepView::Passthrough(plain_commit_command(commit))
        } else {
            StepView::Fail(AppErrorView::Git(GitErrorView::NoStagedChanges))
        },
        !(step_after_capture(AfterCaptureView::Diff(commit), output, config) is Complete),
{
}

/// In a commit with the model the work is done in a fixed order: staging,
/// where it is asked for, comes before the diff is taken, and the diff before
/// the model is asked. The model is asked only once a diff is there, and
/// about that diff.
pub proof fn lemma_commit_order(
    commit: CommitArgsView,
    output: CommandOutputView,
    config: AppConfigView,
)
    ensures
        !(commit_first_step(commit) is Complete),
        commit.ai && commit.auto_stage ==> commit_first_step(commit) == StepView::Capture(
            staging_command(),
            AfterCaptureView::Staged(commit),
        ),
        step_after_capture(AfterCaptureView::Staged(commit), output, config) is Capture
            || step_after_capture(AfterCaptureView::Staged(commit), output, config) is Fail,
        step_after_capture(AfterCaptureView::Staged(commit), output, config) matches StepView::Capture(
            args,
            then,
        ) ==> args == diff_command() && then == AfterCaptureView::Diff(commit),
        step_after_capture(AfterCaptureView::Diff(commit), output, config) matches StepView::Complete(
            request,
            then,
        ) ==> output.success && !is_blank(output.stdout) && request.messages[1].content
            == commit_prompt(output.stdout) && then == AfterReplyView::Commit(commit),
{
}

/// A failure of the model ends the run as it is: nothing is tried again and
/// nothing is committed.
pub proof fn lemma_model_failure_ends_run(then: AfterReplyView, error: AIErrorView)
    ensures
        step_after_reply(then, Err(error)) == StepView::Fail(AppErrorView::AI(error)),
{
}

} // verus!
