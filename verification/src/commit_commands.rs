//! The git commands of the `commit` subcommand.

use vstd::prelude::*;
use crate::cli::{push_string, CommitArgs, CommitArgsView};

verus! {

/// Whether `arg` asks git to stage all tracked files before the commit.
pub open spec fn is_staging_flag(arg: Seq<char>) -> bool {
    arg == "-a"@ || arg == "--all"@
}

/// `args` without the staging flags.
pub open spec fn without_staging_flags(args: Seq<Seq<char>>) -> Seq<Seq<char>>
    decreases args.len(),
{
    if args.len() == 0 {
        args
    } else if is_staging_flag(args.last()) {
        without_staging_flags(args.drop_last())
    } else {
        without_staging_flags(args.drop_last()).push(args.last())
    }
}

/// Whether `args` allow a commit without changes.
pub open spec fn allows_empty(args: Seq<Seq<char>>) -> bool {
    exists|i: int| 0 <= i < args.len() && #[trigger] args[i] == "--allow-empty"@
}

/// The arguments that stage the changes of all tracked files.
pub open spec fn staging_command() -> Seq<Seq<char>> {
    seq!["add"@, "-u"@]
}

/// The arguments that print the staged changes.
pub open spec fn diff_command() -> Seq<Seq<char>> {
    seq!["diff"@, "--staged"@]
}

/// The message option of a commit, where there is a message.
pub open spec fn message_option(message: Option<Seq<char>>) -> Seq<Seq<char>> {
    match message {
        Some(text) => seq!["-m"@, text],
        None => Seq::empty(),
    }
}

/// The arguments of the commit that git makes without the model: `commit`,
/// the staging flag where staging is asked for, the message where one is
/// given, and what the user handed on. Where the staging flag is put in, the
/// staging flags among what the user handed on are left out, so that it
/// stands once.
pub open spec fn plain_commit_command(commit: CommitArgsView) -> Seq<Seq<char>> {
    if commit.auto_stage {
        seq!["commit"@, "-a"@] + message_option(commit.message) + without_staging_flags(
            commit.passthrough_args,
        )
    } else {
        seq!["commit"@] + message_option(commit.message) + commit.passthrough_args
    }
}

/// The arguments of the commit that git makes with the model's `message`:
/// `commit`, the message, and what the user handed on without the staging
/// flags. What was to be staged is staged by then.
pub open spec fn ai_commit_command(commit: CommitArgsView, message: Seq<char>) -> Seq<Seq<char>> {
    seq!["commit"@, "-m"@, message] + without_staging_flags(commit.passthrough_args)
}

/// Appends to `out` the arguments `args` without the staging flags.
fn push_without_staging_flags(out: &mut Vec<String>, args: &Vec<String>)
    ensures
        final(out).deep_view() == old(out).deep_view() + without_staging_flags(args.deep_view()),
{
    let short: String = "-a".to_owned();
    let long: String = "--all".to_owned();
    let ghost all = args.deep_view();
    let n: usize = args.len();
    let mut i: usize = 0;
    assert(all.take(0) =~= Seq::<Seq<char>>::empty());
    assert(out.deep_view() =~= old(out).deep_view() + without_staging_flags(all.take(0)));
    while i < n
        invariant
            n == args@.len(),
            i <= n,
            all == args.deep_view(),
            short@ == "-a"@,
            long@ == "--all"@,
            out.deep_view() == old(out).deep_view() + without_staging_flags(all.take(i as int)),
        decreases n - i,
    {
        proof {
            assert(all.take(i + 1).drop_last() =~= all.take(i as int));
            assert(all.take(i + 1).last() == args@[i as int]@);
        }
        if !(args[i] == short || args[i] == long) {
            let ghost before = out.deep_view();
            push_string(out, args[i].clone());
            assert(out.deep_view() =~= old(out).deep_view() + without_staging_flags(
                all.take(i + 1),
            ));
        }
        i = i + 1;
    }
    assert(all.take(n as int) =~= all);
}

/// Appends to `out` the arguments `args`.
fn push_strings(out: &mut Vec<String>, args: &Vec<String>)
    ensures
        final(out).deep_view() == old(out).deep_view() + args.deep_view(),
{
    let ghost all = args.deep_view();
    let n: usize = args.len();
    let mut i: usize = 0;
    assert(out.deep_view() =~= old(out).deep_view() + all.take(0));
    while i < n
        invariant
            n == args@.len(),
            i <= n,
            all == args.deep_view(),
            out.deep_view() == old(out).deep_view() + all.take(i as int),
        decreases n - i,
    {
        push_string(out, args[i].clone());
        assert(out.deep_view() =~= old(out).deep_view() + all.take(i + 1));
        i = i + 1;
    }
    assert(all.take(n as int) =~= all);
}

/// Whether the arguments allow a commit without changes.
pub fn args_allow_empty(args: &Vec<String>) -> (allowed: bool)
    ensures
        allowed == allows_empty(args.deep_view()),
{
    let flag: String = "--allow-empty".to_owned();
    let n: usize = args.len();
    let mut i: usize = 0;
    while i < n
        invariant
            n == args@.len(),
            i <= n,
            flag@ == "--allow-empty"@,
            forall|j: int| 0 <= j < i ==> #[trigger] args.deep_view()[j] != "--allow-empty"@,
        decreases n - i,
    {
        if args[i] == flag {
            assert(args.deep_view()[i as int] == "--allow-empty"@);
            return true;
        }
        i = i + 1;
    }
    false
}

/// The arguments that stage the changes of all tracked files.
pub fn staging_args() -> (args: Vec<String>)
    ensures
        args.deep_view() == staging_command(),
{
    let mut args: Vec<String> = Vec::new();
    push_string(&mut args, "add".to_owned());
    push_string(&mut args, "-u".to_owned());
    assert(args.deep_view() =~= staging_command());
    args
}

/// The arguments that print the staged changes.
pub fn diff_args() -> (args: Vec<String>)
    ensures
        args.deep_view() == diff_command(),
{
    let mut args: Vec<String> = Vec::new();
    push_string(&mut args, "diff".to_owned());
    push_string(&mut args, "--staged".to_owned());
    assert(args.deep_view() =~= diff_command());
    args
}

/// The arguments of the commit that git makes without the model.
pub fn plain_commit_args(commit: &CommitArgs) -> (args: Vec<String>)
    ensures
        args.deep_view() == plain_commit_command(commit@),
{
    let mut args: Vec<String> = Vec::new();
    push_string(&mut args, "commit".to_owned());
    if commit.auto_stage {
        push_string(&mut args, "-a".to_owned());
    }
    match &commit.message {
        Some(text) => {
            push_string(&mut args, "-m".to_owned());
            push_string(&mut args, text.clone());
        },
        None => {},
    }
    let ghost head = args.deep_view();
    assert(head =~= (if commit.auto_stage {
        seq!["commit"@, "-a"@]
    } else {
        seq!["commit"@]
    }) + message_option(commit@.message));
    if commit.auto_stage {
        push_without_staging_flags(&mut args, &commit.passthrough_args);
    } else {
        push_strings(&mut args, &commit.passthrough_args);
    }
    args
}

/// The arguments of the commit that git makes with the model's message.
pub fn ai_commit_args(commit: &CommitArgs, message: &str) -> (args: Vec<String>)
    ensures
        args.deep_view() == ai_commit_command(commit@, message@),
{
    let mut args: Vec<String> = Vec::new();
    push_string(&mut args, "commit".to_owned());
    push_string(&mut args, "-m".to_owned());
    push_string(&mut args, message.to_owned());
    assert(args.deep_view() =~= seq!["commit"@, "-m"@, message@]);
    push_without_staging_flags(&mut args, &commit.passthrough_args);
    args
}

} // verus!
