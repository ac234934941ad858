//! Recognising what an invocation asks for.
//!
//! The arguments the user gave are looked at once, in a fixed order of
//! questions, and the answer is one [`Classification`]: help to hand through,
//! help to explain, a subcommand of this program, a command to explain, or a
//! command to hand through to git as it is.

use vstd::prelude::*;
use crate::model::option_view;

verus! {

/// Whether `arg` is one of the two spellings of the help flag.
pub open spec fn is_help_flag(arg: Seq<char>) -> bool {
    arg == "-h"@ || arg == "--help"@
}

/// Whether some argument is a help flag.
pub open spec fn contains_help(args: Seq<Seq<char>>) -> bool {
    exists|i: int| 0 <= i < args.len() && is_help_flag(#[trigger] args[i])
}

/// Whether some argument is `--ai`.
pub open spec fn contains_ai(args: Seq<Seq<char>>) -> bool {
    exists|i: int| 0 <= i < args.len() && #[trigger] args[i] == "--ai"@
}

/// `args` without the `--ai` flags. An argument `--` ends the options of a
/// command line: it and what follows it are values, and are kept as they are.
pub open spec fn without_ai_flag(args: Seq<Seq<char>>) -> Seq<Seq<char>>
    decreases args.len(),
{
    if args.len() == 0 || args[0] == "--"@ {
        args
    } else if args[0] == "--ai"@ {
        without_ai_flag(args.drop_first())
    } else {
        seq![args[0]] + without_ai_flag(args.drop_first())
    }
}

/// Appends `s` to `v`.
pub(crate) fn push_string(v: &mut Vec<String>, s: String)
    ensures
        final(v).deep_view() == old(v).deep_view().push(s@),
{
    v.push(s);
    assert(v.deep_view() =~= old(v).deep_view().push(s@));
}

/// A copy of the arguments from index `from` on.
pub(crate) fn copy_from(args: &[String], from: usize) -> (copy: Vec<String>)
    requires
        from <= args@.len(),
    ensures
        copy.deep_view() == args.deep_view().skip(from as int),
{
    let mut copy: Vec<String> = Vec::new();
    let n: usize = args.len();
    let mut i: usize = from;
    assert(copy.deep_view() =~= args.deep_view().subrange(from as int, i as int));
    while i < n
        invariant
            n == args@.len(),
            from <= i <= n,
            copy.deep_view() == args.deep_view().subrange(from as int, i as int),
        decreases n - i,
    {
        push_string(&mut copy, args[i].clone());
        assert(args.deep_view().subrange(from as int, i as int).push(args[i as int]@)
            =~= args.deep_view().subrange(from as int, i + 1));
        i = i + 1;
    }
    assert(args.deep_view().subrange(from as int, n as int) =~= args.deep_view().skip(from as int));
    copy
}

/// Checks if a slice of string arguments contains "-h" or "--help".
pub fn args_contain_help(args: &[String]) -> (found: bool)
    ensures
        found == contains_help(args.deep_view()),
{
    let short: String = "-h".to_owned();
    let long: String = "--help".to_owned();
    let n: usize = args.len();
    let mut i: usize = 0;
    while i < n
        invariant
            n == args@.len(),
            i <= n,
            short@ == "-h"@,
            long@ == "--help"@,
            forall|j: int| 0 <= j < i ==> !is_help_flag(#[trigger] args.deep_view()[j]),
        decreases n - i,
    {
        if args[i] == short || args[i] == long {
            assert(is_help_flag(args.deep_view()[i as int]));
            return true;
        }
        i = i + 1;
    }
    false
}

/// Checks if the `--ai` flag is present in the provided arguments.
pub fn args_contain_ai(args: &[String]) -> (found: bool)
    ensures
        found == contains_ai(args.deep_view()),
{
    let flag: String = "--ai".to_owned();
    let n: usize = args.len();
    let mut i: usize = 0;
    while i < n
        invariant
            n == args@.len(),
            i <= n,
            flag@ == "--ai"@,
            forall|j: int| 0 <= j < i ==> #[trigger] args.deep_view()[j] != "--ai"@,
        decreases n - i,
    {
        if args[i] == flag {
            assert(args.deep_view()[i as int] == "--ai"@);
            return true;
        }
        i = i + 1;
    }
    false
}

/// The arguments without the `--ai` flags that stand before the first `--`.
pub fn strip_ai_flag(args: &[String]) -> (kept: Vec<String>)
    ensures
        kept.deep_view() == without_ai_flag(args.deep_view()),
{
    let flag: String = "--ai".to_owned();
    let separator: String = "--".to_owned();
    let ghost all = args.deep_view();
    let mut kept: Vec<String> = Vec::new();
    let n: usize = args.len();
    let mut i: usize = 0;
    assert(all.skip(0) =~= all);
    assert(kept.deep_view() + without_ai_flag(all.skip(0)) =~= without_ai_flag(all));
    while i < n
        invariant
            n == args@.len(),
            i <= n,
            all == args.deep_view(),
            flag@ == "--ai"@,
            separator@ == "--"@,
            kept.deep_view() + without_ai_flag(all.skip(i as int)) == without_ai_flag(all),
        decreases n - i,
    {
        let ghost rest = all.skip(i as int);
        assert(rest[0] == args[i as int]@);
        assert(rest.drop_first() =~= all.skip(i + 1));
        if args[i] == separator {
            let mut tail = copy_from(args, i);
            let ghost before = kept.deep_view();
            kept.append(&mut tail);
            assert(kept.deep_view() =~= before + rest);
            return kept;
        }
        if args[i] != flag {
            let ghost before = kept.deep_view();
            push_string(&mut kept, args[i].clone());
            assert(before.push(rest[0]) + without_ai_flag(rest.drop_first()) =~= before + (
            seq![rest[0]] + without_ai_flag(rest.drop_first())));
        }
        i = i + 1;
    }
    assert(all.skip(n as int) =~= Seq::<Seq<char>>::empty());
    assert(kept.deep_view() + Seq::<Seq<char>>::empty() =~= kept.deep_view());
    kept
}

/// Arguments for the `commit` subcommand.
#[derive(Debug, Clone, PartialEq, Eq, Default)]
pub struct CommitArgs {
    /// Use the language model to write the commit message.
    pub ai: bool,
    /// Stage all tracked, modified files before the commit (like `git commit -a`).
    pub auto_stage: bool,
    /// A message given with the command.
    pub message: Option<String>,
    /// What follows `--`: handed on to `git commit` as it is.
    pub passthrough_args: Vec<String>,
}

/// The subcommands that this program itself understands.
#[derive(Debug, Clone, PartialEq, Eq)]
pub enum EnhancerSubCommand {
    /// A commit, where wanted with a message written by the language model.
    Commit(CommitArgs),
}

/// A command line that names one of this program's own subcommands.
#[derive(Debug, Clone, PartialEq, Eq)]
pub struct GitEnhancerArgs {
    pub command: EnhancerSubCommand,
}

/// The model of a [`CommitArgs`].
pub struct CommitArgsView {
    pub ai: bool,
    pub auto_stage: bool,
    pub message: Option<Seq<char>>,
    pub passthrough_args: Seq<Seq<char>>,
}

/// The model of an [`EnhancerSubCommand`].
pub enum EnhancerSubCommandView {
    Commit(CommitArgsView),
}

/// The model of a [`GitEnhancerArgs`].
pub struct GitEnhancerArgsView {
    pub command: EnhancerSubCommandView,
}

impl View for CommitArgs {
    type V = CommitArgsView;

    open spec fn view(&self) -> CommitArgsView {
        CommitArgsView {
            ai: self.ai,
            auto_stage: self.auto_stage,
            message: self.message.deep_view(),
            passthrough_args: self.passthrough_args.deep_view(),
        }
    }
}

impl View for EnhancerSubCommand {
    type V = EnhancerSubCommandView;

    open spec fn view(&self) -> EnhancerSubCommandView {
        match self {
            EnhancerSubCommand::Commit(commit) => EnhancerSubCommandView::Commit(commit@),
        }
    }
}

impl View for GitEnhancerArgs {
    type V = GitEnhancerArgsView;

    open spec fn view(&self) -> GitEnhancerArgsView {
        GitEnhancerArgsView { command: self.command@ }
    }
}

/// Whether `arg` names the `commit` subcommand, in full or by its short form.
pub open spec fn is_commit_word(arg: Seq<char>) -> bool {
    arg == "commit"@ || arg == "cm"@
}

/// A `commit` subcommand with no option given.
pub open spec fn plain_commit() -> CommitArgsView {
    CommitArgsView { ai: false, auto_stage: false, message: None, passthrough_args: Seq::empty() }
}

/// The options of a `commit` subcommand, read from index `i` of `args` on,
/// where `seen` holds what was read before. Each of `--ai`, `-a` or `--all`,
/// and `-m` or `--message` may stand once; `-m` and `--message` take the
/// next argument as their value, whatever it holds; `--` ends the options, and
/// what follows it is handed on. Anything else is no `commit` of this program.
pub open spec fn commit_options(args: Seq<Seq<char>>, i: int, seen: CommitArgsView) -> Option<
    CommitArgsView,
>
    decreases args.len() - i,
{
    if i < 0 || i >= args.len() {
        Some(seen)
    } else if args[i] == "--"@ {
        Some(CommitArgsView { passthrough_args: args.skip(i + 1), ..seen })
    } else if args[i] == "--ai"@ {
        if seen.ai {
            None
        } else {
            commit_options(args, i + 1, CommitArgsView { ai: true, ..seen })
        }
    } else if args[i] == "-a"@ || args[i] == "--all"@ {
        if seen.auto_stage {
            None
        } else {
            commit_options(args, i + 1, CommitArgsView { auto_stage: true, ..seen })
        }
    } else if args[i] == "-m"@ || args[i] == "--message"@ {
        if seen.message is Some || i + 1 >= args.len() {
            None
        } else {
            commit_options(args, i + 2, CommitArgsView { message: Some(args[i + 1]), ..seen })
        }
    } else {
        None
    }
}

/// The subcommand of this program that `args` spell, if they spell one:
/// `commit` or `cm`, followed by its options.
pub open spec fn parsed_subcommand(args: Seq<Seq<char>>) -> Option<EnhancerSubCommandView> {
    if args.len() > 0 && is_commit_word(args[0]) {
        match commit_options(args, 1, plain_commit()) {
            Some(commit) => Some(EnhancerSubCommandView::Commit(commit)),
            None => None,
        }
    } else {
        None
    }
}

/// Reads `args` as a subcommand of this program.
pub fn parse_subcommand(args: &[String]) -> (parsed: Option<EnhancerSubCommand>)
    ensures
        option_view(parsed) == parsed_subcommand(args.deep_view()),
{
    let n: usize = args.len();
    if n == 0 {
        return None;
    }
    let commit_word: String = "commit".to_owned();
    let commit_short: String = "cm".to_owned();
    if !(args[0] == commit_word || args[0] == commit_short) {
        return None;
    }
    let separator: String = "--".to_owned();
    let ai_flag: String = "--ai".to_owned();
    let all_short: String = "-a".to_owned();
    let all_long: String = "--all".to_owned();
    let message_short: String = "-m".to_owned();
    let message_long: String = "--message".to_owned();
    let ghost all = args.deep_view();
    let mut ai: bool = false;
    let mut auto_stage: bool = false;
    let mut message: Option<String> = None;
    let mut i: usize = 1;
    while i < n
        invariant
            n == args@.len(),
            1 <= i <= n,
            all == args.deep_view(),
            separator@ == "--"@,
            ai_flag@ == "--ai"@,
            all_short@ == "-a"@,
            all_long@ == "--all"@,
            message_short@ == "-m"@,
            message_long@ == "--message"@,
            is_commit_word(all[0]),
            commit_options(all, 1, plain_commit()) == commit_options(
                all,
                i as int,
                CommitArgsView {
                    ai,
                    auto_stage,
                    message: message.deep_view(),
                    passthrough_args: Seq::empty(),
                },
            ),
        decreases n - i,
    {
        assert(all[i as int] == args[i as int]@);
        if args[i] == separator {
            let passthrough_args = copy_from(args, i + 1);
            let commit = CommitArgs { ai, auto_stage, message, passthrough_args };
            return Some(EnhancerSubCommand::Commit(commit));
        } else if args[i] == ai_flag {
            if ai {
                return None;
            }
            ai = true;
            i = i + 1;
        } else if args[i] == all_short || args[i] == all_long {
            if auto_stage {
                return None;
            }
            auto_stage = true;
            i = i + 1;
        } else if args[i] == message_short || args[i] == message_long {
            if message.is_some() || i + 1 >= n {
                return None;
            }
            assert(all[i + 1] == args[i + 1]@);
            message = Some(args[i + 1].clone());
            i = i + 2;
        } else {
            return None;
        }
    }
    let commit = CommitArgs { ai, auto_stage, message, passthrough_args: Vec::new() };
    assert(commit.passthrough_args.deep_view() =~= Seq::<Seq<char>>::empty());
    Some(EnhancerSubCommand::Commit(commit))
}

impl GitEnhancerArgs {
    /// Reads a command line whose first item is the program's name, which is
    /// not looked at, as one that names a subcommand of this program.
    pub fn try_parse_from(argv: &[String]) -> (parsed: Option<GitEnhancerArgs>)
        ensures
            option_view(parsed) == if argv@.len() == 0 {
                None
            } else {
                match parsed_subcommand(argv.deep_view().skip(1)) {
                    Some(command) => Some(GitEnhancerArgsView { command }),
                    None => None,
                }
            },
    {
        if argv.len() == 0 {
            return None;
        }
        let args = copy_from(argv, 1);
        match parse_subcommand(args.as_slice()) {
            Some(command) => Some(GitEnhancerArgs { command }),
            None => None,
        }
    }
}

/// What an invocation asks for.
#[derive(Debug, Clone, PartialEq, Eq)]
pub enum Classification {
    /// Help was asked for: the arguments, as they came, go to git.
    HelpPassthrough(Vec<String>),
    /// Help was asked for, to be explained: the arguments to run git with.
    HelpWithExplain(Vec<String>),
    /// A subcommand of this program.
    KnownSubcommand(EnhancerSubCommand),
    /// A git command to be explained: its arguments, never empty.
    GlobalExplain(Vec<String>),
    /// Anything else: the arguments, as they came, go to git.
    Passthrough(Vec<String>),
}

/// The model of a [`Classification`].
pub enum ClassificationView {
    HelpPassthrough(Seq<Seq<char>>),
    HelpWithExplain(Seq<Seq<char>>),
    KnownSubcommand(EnhancerSubCommandView),
    GlobalExplain(Seq<Seq<char>>),
    Passthrough(Seq<Seq<char>>),
}

impl View for Classification {
    type V = ClassificationView;

    open spec fn view(&self) -> ClassificationView {
        match self {
            Classification::HelpPassthrough(args) => ClassificationView::HelpPassthrough(
                args.deep_view(),
            ),
            Classification::HelpWithExplain(args) => ClassificationView::HelpWithExplain(
                args.deep_view(),
            ),
            Classification::KnownSubcommand(command) => ClassificationView::KnownSubcommand(
                command@,
            ),
            Classification::GlobalExplain(args) => ClassificationView::GlobalExplain(
                args.deep_view(),
            ),
            Classification::Passthrough(args) => ClassificationView::Passthrough(args.deep_view()),
        }
    }
}

/// The command that is explained where `--ai` stood alone: git's own help.
pub open spec fn or_help(args: Seq<Seq<char>>) -> Seq<Seq<char>> {
    if args.len() == 0 {
        seq!["--help"@]
    } else {
        args
    }
}

/// What the arguments ask for. The questions, in order: is help asked for
/// (and then, with `--ai` or without)? Do the arguments spell a subcommand of
/// this program? Is `--ai` among them? The first that is answered with yes
/// decides, and arguments for which none is go to git as they are.
pub open spec fn classification(args: Seq<Seq<char>>) -> ClassificationView {
    if contains_help(args) {
        if contains_ai(args) {
            ClassificationView::HelpWithExplain(without_ai_flag(args))
        } else {
            ClassificationView::HelpPassthrough(args)
        }
    } else if parsed_subcommand(args) is Some {
        ClassificationView::KnownSubcommand(parsed_subcommand(args)->0)
    } else if contains_ai(args) {
        ClassificationView::GlobalExplain(or_help(without_ai_flag(args)))
    } else {
        ClassificationView::Passthrough(args)
    }
}

/// Says what the arguments ask for.
pub fn classify(args: &[String]) -> (class: Classification)
    ensures
        class@ == classification(args.deep_view()),
{
    assert(args.deep_view().skip(0) =~= args.deep_view());
    if args_contain_help(args) {
        if args_contain_ai(args) {
            Classification::HelpWithExplain(strip_ai_flag(args))
        } else {
            Classification::HelpPassthrough(copy_from(args, 0))
        }
    } else {
        match parse_subcommand(args) {
            Some(command) => Classification::KnownSubcommand(command),
            None => {
                if args_contain_ai(args) {
                    let mut rest = strip_ai_flag(args);
                    if rest.len() == 0 {
                        push_string(&mut rest, "--help".to_owned());
                        assert(rest.deep_view() =~= seq!["--help"@]);
                    }
                    Classification::GlobalExplain(rest)
                } else {
                    Classification::Passthrough(copy_from(args, 0))
                }
            },
        }
    }
}

/// Every command line falls under exactly one of the five cases, and which
/// one is decided by three questions: whether help is asked for, whether the
/// arguments spell a subcommand, and whether `--ai` is among them. A command
/// to explain is never empty.
pub proof fn lemma_classification_cases(args: Seq<Seq<char>>)
    ensures
        classification(args) is HelpPassthrough <==> contains_help(args) && !contains_ai(args),
        classification(args) is HelpWithExplain <==> contains_help(args) && contains_ai(args),
        classification(args) is KnownSubcommand <==> !contains_help(args) && parsed_subcommand(
            args,
        ) is Some,
        classification(args) is GlobalExplain <==> !contains_help(args) && parsed_subcommand(
            args,
        ) is None && contains_ai(args),
        classification(args) is Passthrough <==> !contains_help(args) && parsed_subcommand(
            args,
        ) is None && !contains_ai(args),
        classification(args) matches ClassificationView::GlobalExplain(command) ==> command.len()
            > 0,
{
}

/// Taking the `--ai` flags out a second time changes nothing.
pub proof fn lemma_strip_idempotent(args: Seq<Seq<char>>)
    ensures
        without_ai_flag(without_ai_flag(args)) == without_ai_flag(args),
    decreases args.len(),
{
    if args.len() == 0 || args[0] == "--"@ {
    } else if args[0] == "--ai"@ {
        lemma_strip_idempotent(args.drop_first());
    } else {
        let rest = without_ai_flag(args.drop_first());
        let kept = seq![args[0]] + rest;
        lemma_strip_idempotent(args.drop_first());
        assert(kept[0] == args[0]);
        assert(kept.drop_first() =~= rest);
    }
}

/// One more `--ai` in front changes nothing in what is left without the flags.
pub proof fn lemma_strip_repeated_flag(args: Seq<Seq<char>>)
    ensures
        without_ai_flag(seq!["--ai"@] + args) == without_ai_flag(args),
{
    let longer = seq!["--ai"@] + args;
    reveal_strlit("--ai");
    reveal_strlit("--");
    assert(longer[0] == "--ai"@);
    assert("--ai"@.len() != "--"@.len());
    assert(longer.drop_first() =~= args);
}

/// An argument that is not `--ai` is still there when the flags are taken out.
pub proof fn lemma_strip_keeps(args: Seq<Seq<char>>, i: int)
    requires
        0 <= i < args.len(),
        args[i] != "--ai"@,
    ensures
        exists|j: int|
            0 <= j < without_ai_flag(args).len() && #[trigger] without_ai_flag(args)[j] == args[i],
    decreases args.len(),
{
    let kept = without_ai_flag(args);
    if args[0] == "--"@ {
        assert(kept[i] == args[i]);
    } else if i == 0 {
        assert(kept[0] == args[0]);
    } else {
        let rest = args.drop_first();
        assert(rest[i - 1] == args[i]);
        lemma_strip_keeps(rest, i - 1);
        let j = choose|j: int|
            0 <= j < without_ai_flag(rest).len() && #[trigger] without_ai_flag(rest)[j] == args[i];
        if args[0] == "--ai"@ {
            assert(kept[j] == args[i]);
        } else {
            assert(kept[j + 1] == args[i]);
        }
    }
}

/// Help that is asked for together with `--ai` is explained, never handed
/// through: the command that is run for it is the one the user gave, without
/// the `--ai` flags, and the help flag is still in it.
pub proof fn lemma_help_with_ai_is_explained(args: Seq<Seq<char>>)
    requires
        contains_help(args),
        contains_ai(args),
    ensures
        classification(args) == ClassificationView::HelpWithExplain(without_ai_flag(args)),
        contains_help(without_ai_flag(args)),
        without_ai_flag(args).len() > 0,
{
    let i = choose|i: int| 0 <= i < args.len() && is_help_flag(#[trigger] args[i]);
    reveal_strlit("--ai");
    reveal_strlit("-h");
    reveal_strlit("--help");
    assert("--ai"@.len() != "-h"@.len());
    assert("--ai"@.len() != "--help"@.len());
    lemma_strip_keeps(args, i);
    let j = choose|j: int|
        0 <= j < without_ai_flag(args).len() && #[trigger] without_ai_flag(args)[j] == args[i];
    assert(is_help_flag(without_ai_flag(args)[j]));
}

/// Where the arguments spell no subcommand and hold `--ai`, one more `--ai`
/// in front asks for the same thing.
pub proof fn lemma_repeated_flag_same_request(args: Seq<Seq<char>>)
    requires
        contains_ai(args),
        parsed_subcommand(args) is None,
    ensures
        classification(seq!["--ai"@] + args) == classification(args),
{
    let longer = seq!["--ai"@] + args;
    reveal_strlit("--ai");
    reveal_strlit("-h");
    reveal_strlit("--help");
    reveal_strlit("commit");
    reveal_strlit("cm");
    assert("--ai"@.len() != "-h"@.len());
    assert("--ai"@.len() != "--help"@.len());
    assert("--ai"@.len() != "commit"@.len());
    assert("--ai"@.len() != "cm"@.len());
    assert(longer[0] == "--ai"@);
    assert(parsed_subcommand(longer) is None);
    assert(contains_ai(longer));
    lemma_strip_repeated_flag(args);
    if contains_help(args) {
        let i = choose|i: int| 0 <= i < args.len() && is_help_flag(#[trigger] args[i]);
        assert(longer[i + 1] == args[i]);
        assert(contains_help(longer));
    } else {
        if contains_help(longer) {
            let i = choose|i: int| 0 <= i < longer.len() && is_help_flag(#[trigger] longer[i]);
            assert(i > 0);
            assert(args[i - 1] == longer[i]);
            assert(false);
        }
    }
}

} // verus!
