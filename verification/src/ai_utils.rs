//! What is sent to a chat-completion service and what comes back, and the
//! cleaning of the text that a model returns.

use vstd::prelude::*;
use crate::text::{
    begins_with, chars_of, find, find_in, join, lemma_find_bounds, lemma_find_skip, lines, push_all,
    slice_of, split_lines, starts_with, string_of, trim, trimmed,
};

verus! {

/// One message of a conversation.
#[derive(Debug, Clone, PartialEq, Eq)]
pub struct ChatMessage {
    pub role: String,
    pub content: String,
}

/// The model of a [`ChatMessage`].
pub struct ChatMessageView {
    pub role: Seq<char>,
    pub content: Seq<char>,
}

impl View for ChatMessage {
    type V = ChatMessageView;

    open spec fn view(&self) -> ChatMessageView {
        ChatMessageView { role: self.role@, content: self.content@ }
    }
}

/// The body of a request to a chat-completion service.
#[derive(Debug, Clone, PartialEq, Eq)]
pub struct OpenAIChatRequest {
    pub model: String,
    pub messages: Vec<ChatMessage>,
    /// The temperature as the bits of an IEEE 754 single.
    pub temperature: Option<u32>,
    pub stream: bool,
    /// The most tokens the reply may have, where the request sets a limit.
    pub max_tokens: Option<u32>,
}

/// The model of an [`OpenAIChatRequest`].
pub struct OpenAIChatRequestView {
    pub model: Seq<char>,
    pub messages: Seq<ChatMessageView>,
    pub temperature: Option<u32>,
    pub stream: bool,
    pub max_tokens: Option<u32>,
}

impl View for OpenAIChatRequest {
    type V = OpenAIChatRequestView;

    open spec fn view(&self) -> OpenAIChatRequestView {
        OpenAIChatRequestView {
            model: self.model@,
            messages: self.messages@.map_values(|m: ChatMessage| m@),
            temperature: self.temperature,
            stream: self.stream,
            max_tokens: self.max_tokens,
        }
    }
}

/// A message of a reply.
#[derive(Debug, Clone, PartialEq, Eq)]
pub struct OpenAIMessage {
    pub role: String,
    pub content: String,
}

/// One of the answers that a reply offers.
#[derive(Debug, Clone, PartialEq, Eq)]
pub struct OpenAIChoice {
    pub index: u32,
    pub message: OpenAIMessage,
    pub finish_reason: String,
}

/// What a reply cost.
#[derive(Debug, Clone, Copy, PartialEq, Eq)]
pub struct OpenAIUsage {
    pub prompt_tokens: u32,
    pub completion_tokens: u32,
    pub total_tokens: u32,
}

/// The body of a reply of a chat-completion service.
#[derive(Debug, Clone, PartialEq, Eq)]
pub struct OpenAIChatCompletionResponse {
    pub id: String,
    pub object: String,
    /// When the reply was made, in seconds since the Unix epoch.
    pub created: i64,
    pub model: String,
    pub system_fingerprint: Option<String>,
    pub choices: Vec<OpenAIChoice>,
    pub usage: OpenAIUsage,
}

/// The role of the message that instructs the model.
pub const ROLE_SYSTEM: &'static str = "system";

/// The role of the message that carries the user's request.
pub const ROLE_USER: &'static str = "user";

/// The conversation that a request opens: the instructions, then the request.
pub open spec fn conversation(system_prompt: Seq<char>, user_content: Seq<char>) -> Seq<
    ChatMessageView,
> {
    seq![
        ChatMessageView { role: ROLE_SYSTEM@, content: system_prompt },
        ChatMessageView { role: ROLE_USER@, content: user_content },
    ]
}

/// The two messages of a request: the instructions, then the user's part.
pub fn two_messages(system_prompt: &str, user_content: &str) -> (messages: Vec<ChatMessage>)
    ensures
        messages@.map_values(|m: ChatMessage| m@) == conversation(system_prompt@, user_content@),
{
    let mut messages: Vec<ChatMessage> = Vec::new();
    messages.push(ChatMessage { role: ROLE_SYSTEM.to_owned(), content: system_prompt.to_owned() });
    messages.push(ChatMessage { role: ROLE_USER.to_owned(), content: user_content.to_owned() });
    assert(messages@.map_values(|m: ChatMessage| m@) =~= conversation(
        system_prompt@,
        user_content@,
    ));
    messages
}

/// The tag that opens a passage of reasoning in a model's reply.
pub const REASONING_OPEN: &'static str = "<think>";

/// The tag that closes a passage of reasoning in a model's reply.
pub const REASONING_CLOSE: &'static str = "</think>";

/// The characters that open and close a block of code.
pub const FENCE: &'static str = "```";

/// `s` without its passages from `open` to the next `close`, tags included.
/// A passage that is not closed runs to the end of the text.
pub open spec fn without_passages(s: Seq<char>, open: Seq<char>, close: Seq<char>) -> Seq<char>
    decreases s.len(),
{
    if open.len() == 0 {
        s
    } else {
        match find(s, open, 0) {
            None => s,
            Some(start) => s.take(start) + match find(s, close, start + open.len()) {
                None => Seq::empty(),
                Some(end) => {
                    proof {
                        lemma_find_bounds(s, open, 0);
                        lemma_find_bounds(s, close, start + open.len());
                    }
                    without_passages(s.skip(end + close.len()), open, close)
                },
            },
        }
    }
}

/// Whether `line` opens or closes a block of code: whether, set apart from
/// the whitespace around it, it begins with three backticks.
pub open spec fn is_fence_line(line: Seq<char>) -> bool {
    starts_with(trim(line), FENCE@)
}

/// The lines among `ls` that are no fence lines.
pub open spec fn without_fence_lines(ls: Seq<Seq<char>>) -> Seq<Seq<char>>
    decreases ls.len(),
{
    if ls.len() == 0 {
        ls
    } else if is_fence_line(ls.last()) {
        without_fence_lines(ls.drop_last())
    } else {
        without_fence_lines(ls.drop_last()).push(ls.last())
    }
}

/// The lines `ls` as one text, with a line feed between each two.
pub open spec fn join_lines(ls: Seq<Seq<char>>) -> Seq<char> {
    join(ls, '\n')
}

/// What is left of a model's reply once its scaffolding is taken out: the
/// passages of reasoning between `<think>` and `</think>`, the lines that
/// open or close a block of code, and the whitespace around the whole.
pub open spec fn cleaned(reply: Seq<char>) -> Seq<char> {
    trim(join_lines(without_fence_lines(lines(without_passages(reply, REASONING_OPEN@, REASONING_CLOSE@)))))
}

/// Whether `line` opens or closes a block of code.
pub fn line_is_fence(line: &Vec<char>) -> (fence: bool)
    ensures
        fence == is_fence_line(line@),
{
    let kept = trimmed(line);
    let fence = chars_of(FENCE);
    begins_with(&kept, &fence)
}

/// `chars` without its passages from `open` to the next `close`.
pub fn strip_passages(chars: &Vec<char>, open: &Vec<char>, close: &Vec<char>) -> (kept: Vec<char>)
    ensures
        kept@ == without_passages(chars@, open@, close@),
{
    if open.len() == 0 {
        return slice_of(chars, 0, chars.len());
    }
    let n: usize = chars.len();
    let mut kept: Vec<char> = Vec::new();
    let mut pos: usize = 0;
    assert(chars@.skip(0) =~= chars@);
    assert(kept@ + without_passages(chars@.skip(0), open@, close@) =~= without_passages(
        chars@,
        open@,
        close@,
    ));
    loop
        invariant
            n == chars@.len(),
            pos <= n,
            open@.len() > 0,
            kept@ + without_passages(chars@.skip(pos as int), open@, close@) == without_passages(
                chars@,
                open@,
                close@,
            ),
        decreases n - pos,
    {
        let ghost rest = chars@.skip(pos as int);
        proof {
            lemma_find_skip(chars@, open@, pos as int);
            lemma_find_bounds(chars@, open@, pos as int);
        }
        match find_in(chars, open, pos) {
            None => {
                let tail = slice_of(chars, pos, n);
                assert(tail@ =~= rest);
                push_all(&mut kept, &tail);
                return kept;
            },
            Some(start) => {
                let before = slice_of(chars, pos, start);
                assert(before@ =~= rest.take(start - pos));
                let ghost earlier = kept@;
                push_all(&mut kept, &before);
                let after_open: usize = start + open.len();
                proof {
                    lemma_find_skip(rest, close@, start - pos + open@.len());
                    lemma_find_skip(chars@, close@, after_open as int);
                    lemma_find_bounds(chars@, close@, after_open as int);
                    assert(rest.skip(start - pos + open@.len()) =~= chars@.skip(after_open as int));
                }
                match find_in(chars, close, after_open) {
                    None => {
                        assert(earlier + (rest.take(start - pos) + Seq::<char>::empty()) =~= kept@);
                        return kept;
                    },
                    Some(end) => {
                        proof {
                            assert(rest.skip(end - pos + close@.len()) =~= chars@.skip(
                                end + close@.len(),
                            ));
                            assert(earlier + (rest.take(start - pos) + without_passages(
                                chars@.skip(end + close@.len()),
                                open@,
                                close@,
                            )) =~= kept@ + without_passages(
                                chars@.skip(end + close@.len()),
                                open@,
                                close@,
                            ));
                        }
                        pos = end + close.len();
                    },
                }
            },
        }
    }
}

/// The lines among `ls` that are no fence lines, as one text.
pub fn join_unfenced(ls: &Vec<Vec<char>>) -> (text: Vec<char>)
    ensures
        text@ == join_lines(without_fence_lines(ls.deep_view())),
{
    let ghost all = ls.deep_view();
    let mut text: Vec<char> = Vec::new();
    let mut first: bool = true;
    let n: usize = ls.len();
    let mut i: usize = 0;
    assert(all.take(0) =~= Seq::<Seq<char>>::empty());
    while i < n
        invariant
            n == ls@.len(),
            i <= n,
            all == ls.deep_view(),
            text@ == join_lines(without_fence_lines(all.take(i as int))),
            first == (without_fence_lines(all.take(i as int)).len() == 0),
        decreases n - i,
    {
        let ghost before = without_fence_lines(all.take(i as int));
        proof {
            assert(all.take(i + 1).drop_last() =~= all.take(i as int));
            assert(all.take(i + 1).last() == all[i as int]);
            assert(ls@[i as int].deep_view() =~= ls@[i as int]@);
            assert(all[i as int] == ls@[i as int]@);
        }
        if !line_is_fence(&ls[i]) {
            proof {
                assert(before.push(all[i as int]).drop_last() =~= before);
            }
            if first {
                first = false;
            } else {
                text.push('\n');
            }
            push_all(&mut text, &ls[i]);
            assert(text@ =~= join_lines(before.push(all[i as int])));
        }
        i = i + 1;
    }
    assert(all.take(n as int) =~= all);
    text
}

/// Takes the scaffolding out of a model's reply.
pub fn clean_ai_output(reply: &str) -> (text: String)
    ensures
        text@ == cleaned(reply@),
{
    let chars = chars_of(reply);
    let open = chars_of(REASONING_OPEN);
    let close = chars_of(REASONING_CLOSE);
    let spoken = strip_passages(&chars, &open, &close);
    let split = split_lines(&spoken);
    let joined = join_unfenced(&split);
    let kept = trimmed(&joined);
    string_of(&kept)
}

} // verus!
