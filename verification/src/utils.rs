//! Small helpers for text that is shown and for names of files.

use vstd::prelude::*;
use vstd::string::StringSliceAdditionalSpecFns;
use crate::errors::{AppError, AppErrorView};
use crate::text::{chars_of, hexadecimal, push_all, push_digits, slice_of, string_of};

verus! {

/// The text as it is shown on a terminal: in red where it reports an error.
pub open spec fn formatted_output(text: Seq<char>, is_error: bool) -> Seq<char> {
    if is_error {
        "\x1b[31m"@ + text + "\x1b[0m"@
    } else {
        text
    }
}

/// Formats a string for console output, in red where it is an error message.
pub fn format_output(text: &str, is_error: bool) -> (shown: String)
    ensures
        shown@ == formatted_output(text@, is_error),
{
    if is_error {
        let mut shown = "\x1b[31m".to_owned();
        shown.append(text);
        shown.append("\x1b[0m");
        shown
    } else {
        text.to_owned()
    }
}

/// The lesser of two numbers.
pub open spec fn min(a: int, b: int) -> int {
    if a <= b {
        a
    } else {
        b
    }
}

/// A text cut for display. `size` is its length in bytes as UTF-8: a text of
/// no more than `max_length` bytes is kept, and of a longer one the first
/// `max_length - 3` characters are, with an ellipsis behind them.
pub open spec fn truncated_string(s: Seq<char>, size: nat, max_length: nat) -> Seq<char> {
    if size <= max_length {
        s
    } else {
        s.take(min(max_length - 3, s.len() as int)) + "..."@
    }
}

/// Truncates a string to a maximum length, adding an ellipsis if truncated.
/// A string that is longer than `max_length` can be cut only where
/// `max_length` leaves room for the ellipsis.
pub fn truncate_string(s: &str, max_length: usize) -> (cut: String)
    requires
        s.spec_bytes().len() > max_length ==> max_length >= 3,
    ensures
        cut@ == truncated_string(s@, s.spec_bytes().len(), max_length as nat),
{
    if s.as_bytes().len() <= max_length {
        s.to_owned()
    } else {
        let chars = chars_of(s);
        let wanted: usize = max_length - 3;
        let kept: usize = if wanted <= chars.len() {
            wanted
        } else {
            chars.len()
        };
        let mut cut = slice_of(&chars, 0, kept);
        assert(cut@ =~= s@.take(kept as int));
        let ellipsis = chars_of("...");
        push_all(&mut cut, &ellipsis);
        string_of(&cut)
    }
}

/// `base` with `component` put behind it as paths are joined where `/`
/// separates their parts: a component that begins with `/` stands for itself,
/// and else it follows the base, after a `/` where the base is not empty and
/// does not end with one.
pub open spec fn joined_path(base: Seq<char>, component: Seq<char>) -> Seq<char> {
    if component.len() > 0 && component[0] == '/' {
        component
    } else if base.len() > 0 && base.last() != '/' {
        base + seq!['/'] + component
    } else {
        base + component
    }
}

/// `base` with each of `components` put behind it in turn.
pub open spec fn joined_paths(base: Seq<char>, components: Seq<Seq<char>>) -> Seq<char>
    decreases components.len(),
{
    if components.len() == 0 {
        base
    } else {
        joined_path(joined_paths(base, components.drop_last()), components.last())
    }
}

/// Joins path components to a base, one after the other, with `/` between.
pub fn safe_path_join(base: &str, components: &[String]) -> (path: String)
    ensures
        path@ == joined_paths(base@, components.deep_view()),
{
    let ghost all = components.deep_view();
    let mut path: Vec<char> = chars_of(base);
    let n: usize = components.len();
    let mut i: usize = 0;
    assert(all.take(0) =~= Seq::<Seq<char>>::empty());
    while i < n
        invariant
            n == components@.len(),
            i <= n,
            all == components.deep_view(),
            path@ == joined_paths(base@, all.take(i as int)),
        decreases n - i,
    {
        proof {
            assert(all.take(i + 1).drop_last() =~= all.take(i as int));
            assert(all.take(i + 1).last() == components@[i as int]@);
        }
        let component = chars_of(components[i].as_str());
        let ghost before = path@;
        if component.len() > 0 && component[0] == '/' {
            path = component;
        } else {
            if path.len() > 0 && path[path.len() - 1] != '/' {
                path.push('/');
            }
            push_all(&mut path, &component);
        }
        assert(path@ =~= joined_path(before, components@[i as int]@));
        i = i + 1;
    }
    assert(all.take(n as int) =~= all);
    string_of(&path)
}

/// The name of a temporary file: the prefix, the time in seconds and a
/// further number, the two numbers in hexadecimal, with `_` between the
/// three.
pub open spec fn temp_name(prefix: Seq<char>, timestamp: u64, suffix: u16) -> Seq<char> {
    prefix + seq!['_'] + hexadecimal(timestamp as nat) + seq!['_'] + hexadecimal(suffix as nat)
}

/// The name of a temporary file for a prefix, a time and a further number.
pub fn temp_file_name(prefix: &str, timestamp: u64, suffix: u16) -> (name: String)
    ensures
        name@ == temp_name(prefix@, timestamp, suffix),
{
    let mut name: Vec<char> = chars_of(prefix);
    name.push('_');
    push_digits(&mut name, timestamp, 16);
    name.push('_');
    push_digits(&mut name, suffix as u64, 16);
    string_of(&name)
}

/// What is said of a failure to read the clock.
pub const CLOCK_CONTEXT: &'static str = "getting the system time";

/// Reads the clock with `SystemTime::now` and gives the seconds since the
/// Unix epoch, as `SystemTime::duration_since` measures them, or the text of
/// its error where the clock stands before the epoch. Nothing is known of
/// the number.
#[verifier::external_body]
fn seconds_since_epoch() -> (seconds: Result<u64, String>) {
    match std::time::SystemTime::now().duration_since(std::time::UNIX_EPOCH) {
        Ok(elapsed) => Ok(elapsed.as_secs()),
        Err(e) => Err(e.to_string()),
    }
}

/// Gets the current time in seconds since the Unix epoch. Where the clock
/// cannot be read as such, the failure says so and carries the cause.
pub fn get_unix_timestamp() -> (seconds: Result<u64, AppError>)
    ensures
        seconds matches Err(e) ==> e@ matches AppErrorView::Io(context, _) && context
            == CLOCK_CONTEXT@,
{
    timestamp_from_reading(seconds_since_epoch())
}

/// What a reading of the clock comes to: the seconds where it gave them, and
/// else a failure that names what was being done and carries the cause.
pub open spec fn clock_outcome(reading: Result<u64, Seq<char>>) -> Result<u64, AppErrorView> {
    match reading {
        Ok(seconds) => Ok(seconds),
        Err(cause) => Err(AppErrorView::Io(CLOCK_CONTEXT@, cause)),
    }
}

/// Says what a reading of the clock comes to: `reading` holds the seconds
/// since the Unix epoch, or the cause for which they could not be had.
pub fn timestamp_from_reading(reading: Result<u64, String>) -> (seconds: Result<u64, AppError>)
    ensures
        crate::model::result_view(seconds) == clock_outcome(crate::model::result_view(reading)),
{
    match reading {
        Ok(seconds) => Ok(seconds),
        Err(cause) => Err(AppError::Io(CLOCK_CONTEXT.to_owned(), cause)),
    }
}

/// A number drawn by `rand::random` from the generator of the current
/// thread. Nothing is known of it.
#[verifier::external_body]
fn random_suffix() -> (suffix: u16) {
    rand::random::<u16>()
}

/// The name of a new temporary file: one that [`temp_file_name`] gives for
/// the prefix, the current time and a number drawn at random. Fails where
/// the time cannot be had.
pub fn new_temp_file_name(prefix: &str) -> (name: Result<String, AppError>)
    ensures
        name matches Ok(text) ==> exists|timestamp: u64, suffix: u16|
            text@ == #[trigger] temp_name(prefix@, timestamp, suffix),
        name matches Err(e) ==> e@ matches AppErrorView::Io(context, _) && context
            == CLOCK_CONTEXT@,
{
    match get_unix_timestamp() {
        Ok(timestamp) => {
            let suffix = random_suffix();
            Ok(temp_file_name(prefix, timestamp, suffix))
        },
        Err(e) => Err(e),
    }
}

} // verus!
