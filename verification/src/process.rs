//! What a finished child process leaves behind.

use vstd::prelude::*;

verus! {

/// The outcome of a command that was run to its end: whether it exited with
/// success, and what it wrote to its two output streams.
#[derive(Debug, Clone, PartialEq, Eq)]
pub struct CommandOutput {
    pub success: bool,
    pub stdout: Vec<u8>,
    pub stderr: Vec<u8>,
}

/// A [`CommandOutput`] with its streams as sequences of bytes.
pub struct CommandOutputView {
    pub success: bool,
    pub stdout: Seq<u8>,
    pub stderr: Seq<u8>,
}

impl View for CommandOutput {
    type V = CommandOutputView;

    open spec fn view(&self) -> CommandOutputView {
        CommandOutputView { success: self.success, stdout: self.stdout@, stderr: self.stderr@ }
    }
}

/// The view of an output that may not be there yet.
pub open spec fn output_view(output: Option<&CommandOutput>) -> Option<CommandOutputView> {
    match output {
        Some(output) => Some(output@),
        None => None,
    }
}

} // verus!
