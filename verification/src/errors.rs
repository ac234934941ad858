//! The failures this crate reports, and the text shown for each.

use vstd::prelude::*;
use crate::text::{decimal, push_decimal, string_of};
use crate::types::CommandOutput;

verus! {

/// A failure while finding or reading the configuration.
#[derive(Debug, Clone, PartialEq, Eq)]
pub enum ConfigError {
    /// A source exists but could not be read: its path, and the cause.
    FileRead(String, String),
    /// A source does not hold a TOML document of the expected shape: its
    /// path, and the cause.
    TomlParse(String, String),
    /// A source does not hold the expected JSON: its path, and the cause.
    JsonParse(String, String),
    /// A required field is empty: its name.
    FieldMissing(String),
    /// No prompt document exists at any level: the last path tried.
    PromptFileMissing(String),
    /// No configuration document exists at any level: the last path tried.
    ConfigFileMissing(String),
    /// A document could not be copied to the user's directory: the target
    /// path, and the cause.
    FileWrite(String, String),
    /// Git's own configuration could not be read: what was asked for, and
    /// the cause.
    GitConfigRead(String, String),
}

/// The model of a [`ConfigError`].
pub enum ConfigErrorView {
    FileRead(Seq<char>, Seq<char>),
    TomlParse(Seq<char>, Seq<char>),
    JsonParse(Seq<char>, Seq<char>),
    FieldMissing(Seq<char>),
    PromptFileMissing(Seq<char>),
    ConfigFileMissing(Seq<char>),
    FileWrite(Seq<char>, Seq<char>),
    GitConfigRead(Seq<char>, Seq<char>),
}

impl View for ConfigError {
    type V = ConfigErrorView;

    open spec fn view(&self) -> ConfigErrorView {
        match self {
            ConfigError::FileRead(file, cause) => ConfigErrorView::FileRead(file@, cause@),
            ConfigError::TomlParse(file, cause) => ConfigErrorView::TomlParse(file@, cause@),
            ConfigError::JsonParse(file, cause) => ConfigErrorView::JsonParse(file@, cause@),
            ConfigError::FieldMissing(field) => ConfigErrorView::FieldMissing(field@),
            ConfigError::PromptFileMissing(file) => ConfigErrorView::PromptFileMissing(file@),
            ConfigError::ConfigFileMissing(file) => ConfigErrorView::ConfigFileMissing(file@),
            ConfigError::FileWrite(file, cause) => ConfigErrorView::FileWrite(file@, cause@),
            ConfigError::GitConfigRead(what, cause) => ConfigErrorView::GitConfigRead(
                what@,
                cause@,
            ),
        }
    }
}

impl ConfigErrorView {
    /// The text shown for this failure.
    pub open spec fn message(self) -> Seq<char> {
        match self {
            ConfigErrorView::FileRead(file, cause) => "Failed to read file '"@ + file + "': "@
                + cause,
            ConfigErrorView::TomlParse(file, cause) => "Failed to parse TOML from file '"@ + file
                + "': "@ + cause,
            ConfigErrorView::JsonParse(file, cause) => "Failed to parse JSON from file '"@ + file
                + "': "@ + cause,
            ConfigErrorView::FieldMissing(field) => "Required configuration field '"@ + field
                + "' is missing."@,
            ConfigErrorView::PromptFileMissing(file) => "Critical prompt file '"@ + file
                + "' is missing."@,
            ConfigErrorView::ConfigFileMissing(file) => "Configuration file '"@ + file
                + "' is missing."@,
            ConfigErrorView::FileWrite(file, cause) => "Failed to write file '"@ + file + "': "@
                + cause,
            ConfigErrorView::GitConfigRead(what, cause) => "Failed to read Git configuration for "@
                + what + ": "@ + cause,
        }
    }
}

/// `head`, `a`, `mid` and `b` in one string.
fn join4(head: &str, a: &str, mid: &str, b: &str) -> (text: String)
    ensures
        text@ == head@ + a@ + mid@ + b@,
{
    let mut text = head.to_owned();
    text.append(a);
    text.append(mid);
    text.append(b);
    text
}

impl ConfigError {
    /// The text shown for this failure.
    pub fn message(&self) -> (text: String)
        ensures
            text@ == self@.message(),
    {
        match self {
            ConfigError::FileRead(file, cause) => join4(
                "Failed to read file '",
                file.as_str(),
                "': ",
                cause.as_str(),
            ),
            ConfigError::TomlParse(file, cause) => join4(
                "Failed to parse TOML from file '",
                file.as_str(),
                "': ",
                cause.as_str(),
            ),
            ConfigError::JsonParse(file, cause) => join4(
                "Failed to parse JSON from file '",
                file.as_str(),
                "': ",
                cause.as_str(),
            ),
            ConfigError::FieldMissing(field) => {
                let text = join4("Required configuration field '", field.as_str(), "' is missing.", "");
                proof {
                    reveal_strlit("");
                    assert(text@ == "Required configuration field '"@ + field@ + "' is missing."@);
                }
                text
            },
            ConfigError::PromptFileMissing(file) => {
                let text = join4("Critical prompt file '", file.as_str(), "' is missing.", "");
                proof {
                    reveal_strlit("");
                    assert(text@ == "Critical prompt file '"@ + file@ + "' is missing."@);
                }
                text
            },
            ConfigError::ConfigFileMissing(file) => {
                let text = join4("Configuration file '", file.as_str(), "' is missing.", "");
                proof {
                    reveal_strlit("");
                    assert(text@ == "Configuration file '"@ + file@ + "' is missing."@);
                }
                text
            },
            ConfigError::FileWrite(file, cause) => join4(
                "Failed to write file '",
                file.as_str(),
                "': ",
                cause.as_str(),
            ),
            ConfigError::GitConfigRead(what, cause) => join4(
                "Failed to read Git configuration for ",
                what.as_str(),
                ": ",
                cause.as_str(),
            ),
        }
    }
}

/// A failure of the version-control tool.
#[derive(Debug, Clone, PartialEq, Eq)]
pub enum GitError {
    /// A captured command failed: the command line, its exit code, what it
    /// wrote to standard output and what it wrote to standard error.
    CommandFailed(String, Option<i32>, String, String),
    /// A command run on the user's terminal failed.
    PassthroughFailed { command: String, status_code: Option<i32> },
    /// The staged changes could not be obtained: the cause.
    DiffError(String),
    NotARepository,
    NoStagedChanges,
}

/// The model of a [`GitError`].
pub enum GitErrorView {
    CommandFailed(Seq<char>, Option<i32>, Seq<char>, Seq<char>),
    PassthroughFailed { command: Seq<char>, status_code: Option<i32> },
    DiffError(Seq<char>),
    NotARepository,
    NoStagedChanges,
}

impl View for GitError {
    type V = GitErrorView;

    open spec fn view(&self) -> GitErrorView {
        match self {
            GitError::CommandFailed(command, code, stdout, stderr) => GitErrorView::CommandFailed(
                command@,
                *code,
                stdout@,
                stderr@,
            ),
            GitError::PassthroughFailed { command, status_code } => {
                GitErrorView::PassthroughFailed { command: command@, status_code: *status_code }
            },
            GitError::DiffError(cause) => GitErrorView::DiffError(cause@),
            GitError::NotARepository => GitErrorView::NotARepository,
            GitError::NoStagedChanges => GitErrorView::NoStagedChanges,
        }
    }
}

/// The words " with exit code " and the code, where there is one.
pub open spec fn exit_code_clause(code: Option<i32>) -> Seq<char> {
    match code {
        Some(c) => " with exit code "@ + decimal(c as int),
        None => Seq::empty(),
    }
}

/// `text` under the heading `label`, where there is any text.
pub open spec fn labelled(label: Seq<char>, text: Seq<char>) -> Seq<char> {
    if text.len() == 0 {
        Seq::empty()
    } else {
        label + text
    }
}

impl GitErrorView {
    /// The text shown for this failure.
    pub open spec fn message(self) -> Seq<char> {
        match self {
            GitErrorView::CommandFailed(command, code, stdout, stderr) => "Git command '"@
                + command + "' failed"@ + exit_code_clause(code) + labelled("\nStdout:\n"@, stdout)
                + labelled("\nStderr:\n"@, stderr),
            GitErrorView::PassthroughFailed { command, status_code } => "Git passthrough command '"@
                + command + "' failed"@ + exit_code_clause(status_code),
            GitErrorView::DiffError(cause) => "Failed to get git diff: "@ + cause,
            GitErrorView::NotARepository => "Not a git repository (or any of the parent directories)."@,
            GitErrorView::NoStagedChanges => "No changes staged for commit."@,
        }
    }

    /// The exit code that the process ends with after this failure: the
    /// command's own where it is known, 128 where it is not, and 1 for a
    /// failure that is not a command's.
    pub open spec fn exit_code(self) -> i32 {
        match self {
            GitErrorView::CommandFailed(_, code, _, _) => match code {
                Some(c) => c,
                None => 128,
            },
            GitErrorView::PassthroughFailed { status_code, .. } => match status_code {
                Some(c) => c,
                None => 128,
            },
            _ => 1,
        }
    }
}

fn push_exit_code(text: &mut String, code: &Option<i32>)
    ensures
        final(text)@ == old(text)@ + exit_code_clause(*code),
{
    match code {
        Some(c) => {
            text.append(" with exit code ");
            let mut number: Vec<char> = Vec::new();
            push_decimal(&mut number, *c as i64);
            let number = string_of(&number);
            text.append(number.as_str());
            assert(text@ == old(text)@ + (" with exit code "@ + decimal(*c as int)));
        },
        None => {
            assert(text@ == old(text)@ + Seq::<char>::empty());
        },
    }
}

fn push_labelled(text: &mut String, label: &str, body: &str)
    ensures
        final(text)@ == old(text)@ + labelled(label@, body@),
{
    if body.is_empty() {
        assert(text@ == old(text)@ + Seq::<char>::empty());
    } else {
        text.append(label);
        text.append(body);
        assert(text@ == old(text)@ + (label@ + body@));
    }
}

impl GitError {
    /// The text shown for this failure.
    pub fn message(&self) -> (text: String)
        ensures
            text@ == self@.message(),
    {
        match self {
            GitError::CommandFailed(command, code, stdout, stderr) => {
                let mut text = "Git command '".to_owned();
                text.append(command.as_str());
                text.append("' failed");
                push_exit_code(&mut text, code);
                push_labelled(&mut text, "\nStdout:\n", stdout.as_str());
                push_labelled(&mut text, "\nStderr:\n", stderr.as_str());
                text
            },
            GitError::PassthroughFailed { command, status_code } => {
                let mut text = "Git passthrough command '".to_owned();
                text.append(command.as_str());
                text.append("' failed");
                push_exit_code(&mut text, status_code);
                text
            },
            GitError::DiffError(cause) => {
                let mut text = "Failed to get git diff: ".to_owned();
                text.append(cause.as_str());
                text
            },
            GitError::NotARepository => {
                "Not a git repository (or any of the parent directories).".to_owned()
            },
            GitError::NoStagedChanges => "No changes staged for commit.".to_owned(),
        }
    }
}

/// The failure of a captured command, from its command line and what it left.
pub fn map_command_error(cmd_str: &str, output: &CommandOutput) -> (error: GitError)
    ensures
        error@ == GitErrorView::CommandFailed(
            cmd_str@,
            output.status_code,
            output.stdout@,
            output.stderr@,
        ),
{
    GitError::CommandFailed(
        cmd_str.to_owned(),
        output.status_code,
        output.stdout.clone(),
        output.stderr.clone(),
    )
}

/// The reason phrase that `reqwest::StatusCode::canonical_reason` gives for
/// the status `code`, where the code is one that a `StatusCode` can hold and
/// has a standard phrase.
pub uninterp spec fn canonical_reason(code: u16) -> Option<Seq<char>>;

/// Asks `reqwest::StatusCode` for the standard reason phrase of `code`:
/// `from_u16` refuses a code outside 100..=999, and `canonical_reason` looks
/// the code up in the table of registered statuses. Either may leave `None`.
#[verifier::external_body]
fn reason_phrase(code: u16) -> (phrase: Option<String>)
    ensures
        phrase.deep_view() == canonical_reason(code),
{
    match reqwest::StatusCode::from_u16(code) {
        Ok(status) => status.canonical_reason().map(|reason| reason.to_string()),
        Err(_) => None,
    }
}

/// A status as it is shown: the number, a space, and the reason phrase or a
/// note that there is none.
pub open spec fn status_line(code: u16) -> Seq<char> {
    decimal(code as int) + " "@ + match canonical_reason(code) {
        Some(reason) => reason,
        None => "<unknown status code>"@,
    }
}

/// A failure while talking to the language model.
#[derive(Debug, Clone, PartialEq, Eq)]
pub enum AIError {
    /// The request did not get through: the cause.
    RequestFailed(String),
    /// The reply is not the expected JSON: the cause.
    ResponseParseFailed(String),
    /// The service answered with a status outside the success range: the
    /// status, and the body as it came.
    ApiResponseError(u16, String),
    NoChoiceInResponse,
    EmptyMessage,
}

/// The model of an [`AIError`].
pub enum AIErrorView {
    RequestFailed(Seq<char>),
    ResponseParseFailed(Seq<char>),
    ApiResponseError(u16, Seq<char>),
    NoChoiceInResponse,
    EmptyMessage,
}

impl View for AIError {
    type V = AIErrorView;

    open spec fn view(&self) -> AIErrorView {
        match self {
            AIError::RequestFailed(cause) => AIErrorView::RequestFailed(cause@),
            AIError::ResponseParseFailed(cause) => AIErrorView::ResponseParseFailed(cause@),
            AIError::ApiResponseError(status, body) => AIErrorView::ApiResponseError(
                *status,
                body@,
            ),
            AIError::NoChoiceInResponse => AIErrorView::NoChoiceInResponse,
            AIError::EmptyMessage => AIErrorView::EmptyMessage,
        }
    }
}

impl AIErrorView {
    /// The text shown for this failure.
    pub open spec fn message(self) -> Seq<char> {
        match self {
            AIErrorView::RequestFailed(cause) => "AI API request failed: "@ + cause,
            AIErrorView::ResponseParseFailed(cause) => "Failed to parse AI API JSON response: "@
                + cause,
            AIErrorView::ApiResponseError(status, body) => "AI API responded with error "@
                + status_line(status) + ": "@ + body,
            AIErrorView::NoChoiceInResponse => "AI API response contained no choices."@,
            AIErrorView::EmptyMessage => "AI returned an empty message."@,
        }
    }
}

impl AIError {
    /// The text shown for this failure.
    pub fn message(&self) -> (text: String)
        ensures
            text@ == self@.message(),
    {
        match self {
            AIError::RequestFailed(cause) => {
                let mut text = "AI API request failed: ".to_owned();
                text.append(cause.as_str());
                text
            },
            AIError::ResponseParseFailed(cause) => {
                let mut text = "Failed to parse AI API JSON response: ".to_owned();
                text.append(cause.as_str());
                text
            },
            AIError::ApiResponseError(status, body) => {
                let mut number: Vec<char> = Vec::new();
                push_decimal(&mut number, *status as i64);
                let mut line = string_of(&number);
                line.append(" ");
                match reason_phrase(*status) {
                    Some(reason) => {
                        line.append(reason.as_str());
                    },
                    None => {
                        line.append("<unknown status code>");
                    },
                }
                assert(line@ == status_line(*status));
                join4("AI API responded with error ", line.as_str(), ": ", body.as_str())
            },
            AIError::NoChoiceInResponse => "AI API response contained no choices.".to_owned(),
            AIError::EmptyMessage => "AI returned an empty message.".to_owned(),
        }
    }
}

/// Any failure that ends a run.
#[derive(Debug, Clone, PartialEq, Eq)]
pub enum AppError {
    Config(ConfigError),
    Git(GitError),
    AI(AIError),
    /// An input or output operation failed: what was being done, and the cause.
    Io(String, String),
}

/// The model of an [`AppError`].
pub enum AppErrorView {
    Config(ConfigErrorView),
    Git(GitErrorView),
    AI(AIErrorView),
    Io(Seq<char>, Seq<char>),
}

impl View for AppError {
    type V = AppErrorView;

    open spec fn view(&self) -> AppErrorView {
        match self {
            AppError::Config(e) => AppErrorView::Config(e@),
            AppError::Git(e) => AppErrorView::Git(e@),
            AppError::AI(e) => AppErrorView::AI(e@),
            AppError::Io(context, cause) => AppErrorView::Io(context@, cause@),
        }
    }
}

impl AppErrorView {
    /// The text shown for this failure.
    pub open spec fn message(self) -> Seq<char> {
        match self {
            AppErrorView::Config(e) => "Configuration error: "@ + e.message(),
            AppErrorView::Git(e) => "Git command error: "@ + e.message(),
            AppErrorView::AI(e) => "AI interaction error: "@ + e.message(),
            AppErrorView::Io(context, cause) => "I/O error while "@ + context + ": "@ + cause,
        }
    }

    /// The exit code that the process ends with after this failure: that of
    /// the failed git command where there was one, and 1 otherwise.
    pub open spec fn exit_code(self) -> i32 {
        match self {
            AppErrorView::Git(e) => e.exit_code(),
            _ => 1,
        }
    }
}

impl AppError {
    /// The text shown for this failure.
    pub fn message(&self) -> (text: String)
        ensures
            text@ == self@.message(),
    {
        match self {
            AppError::Config(e) => {
                let mut text = "Configuration error: ".to_owned();
                text.append(e.message().as_str());
                text
            },
            AppError::Git(e) => {
                let mut text = "Git command error: ".to_owned();
                text.append(e.message().as_str());
                text
            },
            AppError::AI(e) => {
                let mut text = "AI interaction error: ".to_owned();
                text.append(e.message().as_str());
                text
            },
            AppError::Io(context, cause) => join4(
                "I/O error while ",
                context.as_str(),
                ": ",
                cause.as_str(),
            ),
        }
    }

    /// The exit code that the process ends with after this failure.
    pub fn exit_code(&self) -> (code: i32)
        ensures
            code == self@.exit_code(),
    {
        match self {
            AppError::Git(GitError::CommandFailed(_, Some(c), _, _)) => *c,
            AppError::Git(GitError::CommandFailed(_, None, _, _)) => 128,
            AppError::Git(GitError::PassthroughFailed { status_code: Some(c), .. }) => *c,
            AppError::Git(GitError::PassthroughFailed { status_code: None, .. }) => 128,
            _ => 1,
        }
    }
}

/// The exit code of a run: 0 after success, and that of the failure otherwise.
pub fn exit_code_of(outcome: &Result<(), AppError>) -> (code: i32)
    ensures
        code == match outcome {
            Ok(_) => 0i32,
            Err(e) => e@.exit_code(),
        },
{
    match outcome {
        Ok(_) => 0,
        Err(e) => e.exit_code(),
    }
}

impl From<ConfigError> for AppError {
    fn from(err: ConfigError) -> (app: AppError) {
        AppError::Config(err)
    }
}

impl vstd::std_specs::convert::FromSpecImpl<ConfigError> for AppError {
    open spec fn obeys_from_spec() -> bool {
        true
    }

    open spec fn from_spec(err: ConfigError) -> AppError {
        AppError::Config(err)
    }
}

impl From<GitError> for AppError {
    fn from(err: GitError) -> (app: AppError) {
        AppError::Git(err)
    }
}

impl vstd::std_specs::convert::FromSpecImpl<GitError> for AppError {
    open spec fn obeys_from_spec() -> bool {
        true
    }

    open spec fn from_spec(err: GitError) -> AppError {
        AppError::Git(err)
    }
}

impl From<AIError> for AppError {
    fn from(err: AIError) -> (app: AppError) {
        AppError::AI(err)
    }
}

impl vstd::std_specs::convert::FromSpecImpl<AIError> for AppError {
    open spec fn obeys_from_spec() -> bool {
        true
    }

    open spec fn from_spec(err: AIError) -> AppError {
        AppError::AI(err)
    }
}

} // verus!
