//! Keeping the last command and its output.
//!
//! A shell that wants to show the output of the last command again keeps an
//! [`OutputCaptureState`] in its state store and calls
//! [`after_command_hook`] each time a command has run.

use vstd::prelude::*;
use crate::output::CmdOutput;

verus! {

/// The command that ran last and its output.
pub struct OutputCaptureState {
    pub last_command: String,
    pub last_output: CmdOutput,
}

impl OutputCaptureState {
    /// The state before any command has run: no command, and the output of a
    /// command that succeeded and printed nothing.
    pub fn new() -> (state: Self)
        ensures
            state.last_command@.len() == 0,
            state.last_output.is_success(),
            state.last_output.is_silent(),
    {
        OutputCaptureState { last_command: String::new(), last_output: CmdOutput::success() }
    }
}

/// What the shell reports once a command has run.
pub struct AfterCommandCtx {
    pub command: String,
    pub cmd_output: CmdOutput,
}

/// Records the command that has just run and its output. `state` is the
/// capture state as the state store has it: where the store has none, nothing
/// is recorded.
pub fn after_command_hook(state: Option<&mut OutputCaptureState>, ctx: &AfterCommandCtx)
    ensures
        match state {
            Some(captured) => {
                &&& final(captured).last_command == ctx.command
                &&& final(captured).last_output == ctx.cmd_output
            },
            None => true,
        },
{
    if let Some(captured) = state {
        captured.last_command = ctx.command.clone();
        captured.last_output = ctx.cmd_output.clone();
    }
}

} // verus!
