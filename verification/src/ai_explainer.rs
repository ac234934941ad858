//! Asking the model to explain a git command or what a git command printed,
//! and reading what the service answered.
//!
//! Sending the request is the caller's part. The functions here say what is
//! sent, and what an answer, or the lack of one, comes to.

use vstd::prelude::*;
use crate::ai_utils::{
    clean_ai_output, cleaned, conversation, two_messages, OpenAIChatCompletionResponse,
    OpenAIChatRequest, OpenAIChatRequestView,
};
use crate::config::{AppConfig, AppConfigView};
use crate::errors::{AIError, AIErrorView};
use crate::model::result_view;
use crate::text::{is_blank, join, join_strings, str_is_blank};

verus! {

/// The instructions for explaining what a git command printed.
pub const EXPLAIN_OUTPUT_SYSTEM_PROMPT: &'static str =
    "You are a helpful assistant integrated into a Git command-line enhancer.\n\
The user has executed a Git command and received the following output.\n\
Please explain this output clearly and concisely.\n\
If the output indicates an error or a common misunderstanding, clarify it.\n\
Focus on what the output means and what the user might want to do next.\n\
Do not include any conversational pleasantries or self-references like \"As an AI...\".\n\
Just provide the explanation directly.";

/// The instructions for explaining a git command.
pub const EXPLAIN_COMMAND_SYSTEM_PROMPT: &'static str =
    "You are a helpful assistant integrated into a Git command-line enhancer.\n\
The user wants to understand a specific Git command.\n\
Please explain the Git command provided by the user clearly and concisely.\n\
Describe its purpose, common options (if any are apparent or highly relevant), and typical use cases.\n\
If the command seems incomplete or potentially problematic, you can briefly note that.\n\
Do not include any conversational pleasantries or self-references like \"As an AI...\".\n\
Just provide the explanation for the command directly.\n\
The user's command will follow.";

/// What is said where a command printed nothing to explain.
pub const NO_OUTPUT_NOTE: &'static str =
    "The command produced no output for the AI to explain. \
It might be a command that doesn't print to stdout/stderr on success, \
or it requires specific conditions to produce output.";

/// What is said where no command was given to explain.
pub const NO_COMMAND_NOTE: &'static str = "No command parts provided for the AI to explain.";

/// How many seconds a request may take before it counts as not having got
/// through.
pub const REQUEST_TIMEOUT_SECONDS: u64 = 120;

/// What stands for the body of an answer that could not be read.
pub const UNREADABLE_BODY: &'static str = "Failed to read error body from AI response";

/// The request that asks the configured model, at the configured
/// temperature, to follow `system_prompt` on `user_content`: two messages,
/// the instructions first, and no streaming.
pub open spec fn chat_request(
    config: AppConfigView,
    system_prompt: Seq<char>,
    user_content: Seq<char>,
) -> OpenAIChatRequestView {
    OpenAIChatRequestView {
        model: config.ai.model_name,
        messages: conversation(system_prompt, user_content),
        temperature: Some(config.ai.temperature),
        stream: false,
        max_tokens: None,
    }
}

/// Builds the request that asks the configured model to follow
/// `system_prompt` on `user_content`.
pub fn build_chat_request(config: &AppConfig, system_prompt: &str, user_content: &str) -> (request:
    OpenAIChatRequest)
    ensures
        request@ == chat_request(config@, system_prompt@, user_content@),
{
    OpenAIChatRequest {
        model: config.ai.model_name.clone(),
        messages: two_messages(system_prompt, user_content),
        temperature: Some(config.ai.temperature),
        stream: false,
        max_tokens: None,
    }
}

/// The value of the `Authorization` header: `Bearer` and the key, where a key
/// is configured; a request without a key carries no such header.
pub open spec fn authorization(config: AppConfigView) -> Option<Seq<char>> {
    match config.ai.api_key {
        Some(key) => if key.len() == 0 {
            None
        } else {
            Some("Bearer "@ + key)
        },
        None => None,
    }
}

/// The value of the `Authorization` header to send, if any.
pub fn authorization_header(config: &AppConfig) -> (header: Option<String>)
    ensures
        header.deep_view() == authorization(config@),
{
    match &config.ai.api_key {
        Some(key) => {
            if key.as_str().is_empty() {
                None
            } else {
                let mut header = "Bearer ".to_owned();
                header.append(key.as_str());
                Some(header)
            }
        },
        None => None,
    }
}

/// What a request for an explanation comes to before anything is sent.
#[derive(Debug, Clone, PartialEq, Eq)]
pub enum Explanation {
    /// There is nothing to ask the model: this text is the answer.
    Ready(String),
    /// The model is to be asked with this request.
    Ask(OpenAIChatRequest),
}

/// The model of an [`Explanation`].
pub enum ExplanationView {
    Ready(Seq<char>),
    Ask(OpenAIChatRequestView),
}

impl View for Explanation {
    type V = ExplanationView;

    open spec fn view(&self) -> ExplanationView {
        match self {
            Explanation::Ready(text) => ExplanationView::Ready(text@),
            Explanation::Ask(request) => ExplanationView::Ask(request@),
        }
    }
}

/// How what a command printed is explained: with a fixed note where it is
/// blank, and else by asking the model about the whole of it.
pub open spec fn output_explanation(config: AppConfigView, command_output: Seq<char>)
    -> ExplanationView {
    if is_blank(command_output) {
        ExplanationView::Ready(NO_OUTPUT_NOTE@)
    } else {
        ExplanationView::Ask(chat_request(config, EXPLAIN_OUTPUT_SYSTEM_PROMPT@, command_output))
    }
}

/// The command line of git with the arguments `args`.
pub open spec fn git_command_line(args: Seq<Seq<char>>) -> Seq<char> {
    "git "@ + join(args, ' ')
}

/// How a command is explained: with a fixed note where no part of it is
/// given, and else by asking the model about its command line.
pub open spec fn command_explanation(config: AppConfigView, command_parts: Seq<Seq<char>>)
    -> ExplanationView {
    if command_parts.len() == 0 {
        ExplanationView::Ready(NO_COMMAND_NOTE@)
    } else {
        ExplanationView::Ask(
            chat_request(config, EXPLAIN_COMMAND_SYSTEM_PROMPT@, git_command_line(command_parts)),
        )
    }
}

/// The command line of git with the arguments `args`.
pub fn command_line(args: &[String]) -> (line: String)
    ensures
        line@ == git_command_line(args.deep_view()),
{
    let mut line = "git ".to_owned();
    line.append(join_strings(args, ' ').as_str());
    line
}

/// Takes the raw output from a Git command (typically its help text) and
/// says how it is explained.
pub fn explain_git_command_output(config: &AppConfig, command_output: &str) -> (plan: Explanation)
    ensures
        plan@ == output_explanation(config@, command_output@),
{
    if str_is_blank(command_output) {
        Explanation::Ready(NO_OUTPUT_NOTE.to_owned())
    } else {
        Explanation::Ask(build_chat_request(config, EXPLAIN_OUTPUT_SYSTEM_PROMPT, command_output))
    }
}

/// Takes a Git command (as a sequence of its parts) and says how it is
/// explained.
pub fn explain_git_command(config: &AppConfig, command_parts: &[String]) -> (plan: Explanation)
    ensures
        plan@ == command_explanation(config@, command_parts.deep_view()),
{
    if command_parts.len() == 0 {
        Explanation::Ready(NO_COMMAND_NOTE.to_owned())
    } else {
        let line = command_line(command_parts);
        Explanation::Ask(build_chat_request(config, EXPLAIN_COMMAND_SYSTEM_PROMPT, line.as_str()))
    }
}

/// Whether `status` is in the range of success, 200 to 299.
pub open spec fn is_success(status: u16) -> bool {
    200 <= status < 300
}

/// Whether `status` is in the range of success.
pub fn status_is_success(status: u16) -> (success: bool)
    ensures
        success == is_success(status),
{
    200 <= status && status < 300
}

/// What a usable reply says: the content of its first choice, cleaned. A
/// reply without a choice, and one whose first choice is blank before
/// cleaning, are failures.
pub open spec fn reply_content(response: OpenAIChatCompletionResponse) -> Result<
    Seq<char>,
    AIErrorView,
> {
    if response.choices@.len() == 0 {
        Err(AIErrorView::NoChoiceInResponse)
    } else if is_blank(response.choices@[0].message.content@) {
        Err(AIErrorView::EmptyMessage)
    } else {
        Ok(cleaned(response.choices@[0].message.content@))
    }
}

/// How one request went.
#[derive(Debug, PartialEq, Eq)]
pub enum Exchange {
    /// The request did not get through: the cause.
    Failed(String),
    /// The service answered. `body` is the text of the answer, or nothing
    /// where it could not be read. `decoded` is what decoding the body as a
    /// chat completion gave, or the cause of its failure; it is read only
    /// where `status` is in the range of success.
    Answered { status: u16, body: Option<String>, decoded: Result<OpenAIChatCompletionResponse, String> },
}

/// The body of an answer as it is reported: as it came, or a note in its
/// place where it could not be read.
pub open spec fn reported_body(body: Option<Seq<char>>) -> Seq<char> {
    match body {
        Some(text) => text,
        None => UNREADABLE_BODY@,
    }
}

/// What one request comes to. A request that did not get through, an answer
/// with a status outside the range of success, a body that is no chat
/// completion, a completion without a choice and one with a blank first
/// choice are each a failure of their own; anything else gives the cleaned
/// content of the first choice.
pub open spec fn exchange_outcome(exchange: Exchange) -> Result<Seq<char>, AIErrorView> {
    match exchange {
        Exchange::Failed(cause) => Err(AIErrorView::RequestFailed(cause@)),
        Exchange::Answered { status, body, decoded } => if !is_success(status) {
            Err(AIErrorView::ApiResponseError(status, reported_body(body.deep_view())))
        } else {
            match decoded {
                Err(cause) => Err(AIErrorView::ResponseParseFailed(cause@)),
                Ok(response) => reply_content(response),
            }
        },
    }
}

/// Extracts the content from a reply.
pub fn extract_ai_response_content(response: &OpenAIChatCompletionResponse) -> (content: Result<
    String,
    AIError,
>)
    ensures
        result_view(content) == reply_content(*response),
{
    if response.choices.len() == 0 {
        return Err(AIError::NoChoiceInResponse);
    }
    let content = &response.choices[0].message.content;
    if str_is_blank(content.as_str()) {
        Err(AIError::EmptyMessage)
    } else {
        Ok(clean_ai_output(content.as_str()))
    }
}

/// Says what one request comes to.
pub fn interpret_exchange(exchange: &Exchange) -> (outcome: Result<String, AIError>)
    ensures
        result_view(outcome) == exchange_outcome(*exchange),
{
    match exchange {
        Exchange::Failed(cause) => Err(AIError::RequestFailed(cause.clone())),
        Exchange::Answered { status, body, decoded } => {
            if !status_is_success(*status) {
                let text = match body {
                    Some(text) => text.clone(),
                    None => UNREADABLE_BODY.to_owned(),
                };
                Err(AIError::ApiResponseError(*status, text))
            } else {
                match decoded {
                    Err(cause) => Err(AIError::ResponseParseFailed(cause.clone())),
                    Ok(response) => extract_ai_response_content(response),
                }
            }
        },
    }
}

} // verus!
