//! The requests that this program puts to the model about git commands,
//! their output and staged changes, and the code that a reply holds.

use vstd::prelude::*;
use crate::ai_explainer::{build_chat_request, chat_request};
use crate::ai_utils::{
    is_fence_line, line_is_fence, two_messages, conversation, OpenAIChatRequest,
    OpenAIChatRequestView,
};
use crate::config::{AppConfig, AppConfigView};
use crate::text::{
    chars_of, lines, push_all, slice_of, split_lines, string_of, trim, trimmed,
};
use crate::types::{CommandOutput, CommandOutputView};

verus! {

/// The most characters of a diff that are put to the model.
pub const MAX_DIFF_CHARS: usize = 8000;

/// What stands at the end of a diff that was cut.
pub const TRUNCATION_MARKER: &'static str = "... (truncated, too large)";

/// The instructions for writing a commit message without a prompt document.
pub const COMMIT_SYSTEM_PROMPT: &'static str =
    "You are a helpful assistant that generates concise, informative git commit messages based on code changes. Follow conventional commit format.";

/// The temperature for writing a commit message without a prompt document:
/// 0.5, as the bits of an IEEE 754 single.
pub const COMMIT_TEMPERATURE_BITS: u32 = 0x3f00_0000;

/// The most tokens of a commit message.
pub const COMMIT_MAX_TOKENS: u32 = 200;

/// The most tokens of the explanation of a command.
pub const COMMAND_MAX_TOKENS: u32 = 1000;

/// The most tokens of the explanation of a command's output.
pub const OUTPUT_MAX_TOKENS: u32 = 1500;

/// The diff as it is put to the model: as it is where it has no more than
/// [`MAX_DIFF_CHARS`] characters, and else cut so that, with the marker
/// behind it, it has exactly that many.
pub open spec fn truncated_diff(diff: Seq<char>) -> Seq<char> {
    if diff.len() > MAX_DIFF_CHARS {
        diff.take(MAX_DIFF_CHARS - TRUNCATION_MARKER@.len()) + TRUNCATION_MARKER@
    } else {
        diff
    }
}

/// The marker is shorter than the bound.
pub proof fn lemma_marker_length()
    ensures
        TRUNCATION_MARKER@.len() == 26,
{
    reveal_strlit("... (truncated, too large)");
}

/// A diff as it is put to the model never has more than [`MAX_DIFF_CHARS`]
/// characters; one that had more is cut to exactly that many, begins as the
/// diff began and ends with the marker; one that had no more is unchanged.
pub proof fn lemma_truncated_diff(diff: Seq<char>)
    ensures
        truncated_diff(diff).len() <= MAX_DIFF_CHARS,
        diff.len() <= MAX_DIFF_CHARS ==> truncated_diff(diff) == diff,
        diff.len() > MAX_DIFF_CHARS ==> {
            &&& truncated_diff(diff).len() == MAX_DIFF_CHARS
            &&& truncated_diff(diff).skip(MAX_DIFF_CHARS - TRUNCATION_MARKER@.len())
                == TRUNCATION_MARKER@
            &&& truncated_diff(diff).take(MAX_DIFF_CHARS - TRUNCATION_MARKER@.len()) == diff.take(
                MAX_DIFF_CHARS - TRUNCATION_MARKER@.len(),
            )
        },
{
    lemma_marker_length();
    if diff.len() > MAX_DIFF_CHARS {
        let kept = diff.take(MAX_DIFF_CHARS - TRUNCATION_MARKER@.len());
        assert((kept + TRUNCATION_MARKER@).skip(kept.len() as int) =~= TRUNCATION_MARKER@);
        assert((kept + TRUNCATION_MARKER@).take(kept.len() as int) =~= kept);
    }
}

/// Cuts a diff to what is put to the model.
pub fn truncate_diff(diff: &str) -> (cut: String)
    ensures
        cut@ == truncated_diff(diff@),
        cut@.len() <= MAX_DIFF_CHARS,
{
    proof {
        lemma_marker_length();
        lemma_truncated_diff(diff@);
    }
    let chars = chars_of(diff);
    if chars.len() > MAX_DIFF_CHARS {
        let marker = chars_of(TRUNCATION_MARKER);
        let mut kept = slice_of(&chars, 0, MAX_DIFF_CHARS - marker.len());
        push_all(&mut kept, &marker);
        assert(chars@.subrange(0, MAX_DIFF_CHARS - marker@.len()) =~= chars@.take(
            MAX_DIFF_CHARS - marker@.len(),
        ));
        string_of(&kept)
    } else {
        diff.to_owned()
    }
}

/// What the model is asked about staged changes: to write a commit message
/// for the diff, which is cut where it is too long.
pub open spec fn commit_prompt(diff: Seq<char>) -> Seq<char> {
    "Generate a commit message for these changes:\n\n"@ + truncated_diff(diff)
}

/// Builds what the model is asked about staged changes.
pub fn commit_user_prompt(diff: &str) -> (prompt: String)
    ensures
        prompt@ == commit_prompt(diff@),
{
    let mut prompt = "Generate a commit message for these changes:\n\n".to_owned();
    prompt.append(truncate_diff(diff).as_str());
    prompt
}

/// What the model is asked about a command.
pub open spec fn command_question(command: Seq<char>) -> Seq<char> {
    "Explain the following git command: "@ + command
}

/// What the model is asked about what a command printed.
pub open spec fn output_question(command: Seq<char>, output: CommandOutputView) -> Seq<char> {
    "Explain the following git command output:\n\nCommand: "@ + command + "\n\nOutput:\n"@
        + output.stdout + "\n\nError (if any):\n"@ + output.stderr
}

/// The request that asks the configured model to explain `command`, under
/// the configured system prompt.
pub open spec fn command_request(command: Seq<char>, config: AppConfigView)
    -> OpenAIChatRequestView {
    OpenAIChatRequestView {
        max_tokens: Some(COMMAND_MAX_TOKENS),
        ..chat_request(config, config.system_prompt, command_question(command))
    }
}

/// The request that asks the configured model to explain what `command`
/// printed, under the configured system prompt.
pub open spec fn output_request(command: Seq<char>, output: CommandOutputView, config: AppConfigView)
    -> OpenAIChatRequestView {
    OpenAIChatRequestView {
        max_tokens: Some(OUTPUT_MAX_TOKENS),
        ..chat_request(config, config.system_prompt, output_question(command, output))
    }
}

/// The request that asks the configured model for a commit message for
/// `diff`: under instructions of its own, at a lower temperature and with a
/// short reply.
pub open spec fn commit_message_request(diff: Seq<char>, config: AppConfigView)
    -> OpenAIChatRequestView {
    OpenAIChatRequestView {
        model: config.ai.model_name,
        messages: conversation(COMMIT_SYSTEM_PROMPT@, commit_prompt(diff)),
        temperature: Some(COMMIT_TEMPERATURE_BITS),
        stream: false,
        max_tokens: Some(COMMIT_MAX_TOKENS),
    }
}

/// Builds the request that asks the model to explain a git command.
pub fn process_git_command_with_ai(command: &str, config: &AppConfig) -> (request: OpenAIChatRequest)
    ensures
        request@ == command_request(command@, config@),
{
    let mut question = "Explain the following git command: ".to_owned();
    question.append(command);
    let mut request = build_chat_request(config, config.system_prompt.as_str(), question.as_str());
    request.max_tokens = Some(COMMAND_MAX_TOKENS);
    request
}

/// Builds the request that asks the model to explain what a git command
/// printed.
pub fn process_git_output_with_ai(command: &str, output: &CommandOutput, config: &AppConfig) -> (request:
    OpenAIChatRequest)
    ensures
        request@ == output_request(command@, output@, config@),
{
    let mut question = "Explain the following git command output:\n\nCommand: ".to_owned();
    question.append(command);
    question.append("\n\nOutput:\n");
    question.append(output.stdout.as_str());
    question.append("\n\nError (if any):\n");
    question.append(output.stderr.as_str());
    let mut request = build_chat_request(config, config.system_prompt.as_str(), question.as_str());
    request.max_tokens = Some(OUTPUT_MAX_TOKENS);
    request
}

/// Builds the request that asks the model for a commit message for a diff.
pub fn generate_commit_message(diff: &str, config: &AppConfig) -> (request: OpenAIChatRequest)
    ensures
        request@ == commit_message_request(diff@, config@),
{
    let prompt = commit_user_prompt(diff);
    OpenAIChatRequest {
        model: config.ai.model_name.clone(),
        messages: two_messages(COMMIT_SYSTEM_PROMPT, prompt.as_str()),
        temperature: Some(COMMIT_TEMPERATURE_BITS),
        stream: false,
        max_tokens: Some(COMMIT_MAX_TOKENS),
    }
}

/// The block that ends where a closing fence is met after the lines
/// gathered in `body`: the lines, set apart from the whitespace around them,
/// or nothing where no line was gathered.
pub open spec fn closed_block(body: Seq<char>) -> Seq<Seq<char>> {
    if body.len() > 0 {
        seq![trim(body)]
    } else {
        Seq::empty()
    }
}

/// The blocks of code that the lines `ls` hold, read from a point where a
/// block is open, with the lines gathered in `body`, or where none is. A
/// fence line opens a block or closes the open one; the lines between the
/// two, each with a line feed behind it, are the block. A block that is not
/// closed is not given.
pub open spec fn blocks_from(ls: Seq<Seq<char>>, open: bool, body: Seq<char>) -> Seq<Seq<char>>
    decreases ls.len(),
{
    if ls.len() == 0 {
        Seq::empty()
    } else if is_fence_line(ls[0]) {
        if open {
            closed_block(body) + blocks_from(ls.drop_first(), false, Seq::empty())
        } else {
            blocks_from(ls.drop_first(), true, Seq::empty())
        }
    } else if open {
        blocks_from(ls.drop_first(), true, body + ls[0] + seq!['\n'])
    } else {
        blocks_from(ls.drop_first(), false, body)
    }
}

/// The blocks of code in `content`.
pub open spec fn code_blocks(content: Seq<char>) -> Seq<Seq<char>> {
    blocks_from(lines(content), false, Seq::empty())
}

/// Extracts the blocks of code from a reply.
pub fn extract_code_blocks(content: &str) -> (blocks: Vec<String>)
    ensures
        blocks.deep_view() == code_blocks(content@),
{
    let chars = chars_of(content);
    let ls = split_lines(&chars);
    let ghost all = ls.deep_view();
    let mut blocks: Vec<String> = Vec::new();
    let mut open: bool = false;
    let mut body: Vec<char> = Vec::new();
    let n: usize = ls.len();
    let mut i: usize = 0;
    assert(all.skip(0) =~= all);
    assert(blocks.deep_view() + blocks_from(all.skip(0), false, Seq::empty()) =~= code_blocks(
        content@,
    ));
    while i < n
        invariant
            n == ls@.len(),
            i <= n,
            all == ls.deep_view(),
            all == lines(content@),
            blocks.deep_view() + blocks_from(all.skip(i as int), open, body@) == code_blocks(
                content@,
            ),
        decreases n - i,
    {
        let ghost rest = all.skip(i as int);
        let ghost before = blocks.deep_view();
        proof {
            assert(ls@[i as int].deep_view() =~= ls@[i as int]@);
            assert(rest[0] == ls@[i as int]@);
            assert(rest.drop_first() =~= all.skip(i + 1));
        }
        if line_is_fence(&ls[i]) {
            if open {
                open = false;
                if body.len() > 0 {
                    let block = string_of(&trimmed(&body));
                    crate::cli::push_string(&mut blocks, block);
                    body = Vec::new();
                    assert(before.push(block@) + blocks_from(all.skip(i + 1), false, Seq::empty())
                        =~= before + (seq![block@] + blocks_from(
                        all.skip(i + 1),
                        false,
                        Seq::empty(),
                    )));
                } else {
                    assert(body@ =~= Seq::<char>::empty());
                    assert(before + (Seq::<Seq<char>>::empty() + blocks_from(
                        all.skip(i + 1),
                        false,
                        Seq::empty(),
                    )) =~= before + blocks_from(all.skip(i + 1), false, Seq::empty()));
                }
            } else {
                open = true;
                body = Vec::new();
            }
        } else if open {
            let ghost gathered = body@;
            push_all(&mut body, &ls[i]);
            body.push('\n');
            assert(body@ =~= gathered + rest[0] + seq!['\n']);
        }
        i = i + 1;
    }
    proof {
        assert(all.skip(n as int) =~= Seq::<Seq<char>>::empty());
        assert(blocks.deep_view() + Seq::<Seq<char>>::empty() =~= blocks.deep_view());
    }
    blocks
}

} // verus!
