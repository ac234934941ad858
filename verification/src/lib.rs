//! Decision logic of a command-line front end for git that can ask a language
//! model to explain commands and to write commit messages.
//!
//! The program around this library reads the invocation, the files and the
//! environment, runs git and talks to the model. What it finds it hands to
//! the functions here, as plain values, and they say what follows: what an
//! invocation asks for ([`cli`]), which settings hold ([`config`]), what is
//! sent to the model and what its answer comes to ([`ai_explainer`],
//! [`ai_commands`], [`ai_utils`]), with which arguments git is run
//! ([`git_commands`], [`commit_commands`]), in which order the pieces of a run
//! follow each other ([`dispatch`]), and what is reported when something
//! fails ([`errors`]).
//!
//! Every function states what it returns over a model of its arguments: a
//! `String` is modelled by its characters, a `Vec<String>` by the sequence of
//! their characters, and each type of this crate by a type of the same shape
//! with `View` at the end of its name.

pub mod ai_commands;
pub mod ai_explainer;
pub mod ai_utils;
pub mod cli;
pub mod commit_commands;
pub mod config;
pub mod dispatch;
pub mod errors;
pub mod git_commands;
pub mod model;
pub mod text;
pub mod types;
pub mod utils;
