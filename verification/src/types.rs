//! Plain values that cross the boundary to the version-control tool.

use vstd::prelude::*;

verus! {

/// What one captured run of git left behind.
#[derive(Debug, Clone, PartialEq, Eq)]
pub struct CommandOutput {
    pub stdout: String,
    pub stderr: String,
    /// The exit code, where the process ended with one.
    pub status_code: Option<i32>,
    /// Whether the process reported success.
    pub success: bool,
}

/// The model of a [`CommandOutput`].
pub struct CommandOutputView {
    pub stdout: Seq<char>,
    pub stderr: Seq<char>,
    pub status_code: Option<i32>,
    pub success: bool,
}

impl View for CommandOutput {
    type V = CommandOutputView;

    open spec fn view(&self) -> CommandOutputView {
        CommandOutputView {
            stdout: self.stdout@,
            stderr: self.stderr@,
            status_code: self.status_code,
            success: self.success,
        }
    }
}

} // verus!
