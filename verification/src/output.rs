//! What a handler hands back to the shell.

use vstd::prelude::*;

verus! {

/// `anyhow::Error`, the error of a handler that failed.
///
/// The type is declared so that it can stand in signatures. Nothing is
/// claimed of its values and nothing here looks inside one: an error travels
/// from the handler to the caller as it is.
#[verifier::external_type_specification]
#[verifier::external_body]
pub struct ExError(anyhow::Error);

/// The output of a command that ran: its exit status and what it printed.
#[derive(Debug)]
pub struct CmdOutput {
    pub status: i32,
    pub stdout: String,
    pub stderr: String,
}

impl CmdOutput {
    /// Whether the status reports success.
    pub open spec fn is_success(&self) -> bool {
        self.status == 0
    }

    /// Whether nothing was printed.
    pub open spec fn is_silent(&self) -> bool {
        self.stdout@.len() == 0 && self.stderr@.len() == 0
    }

    /// The output of a command that succeeded and printed nothing.
    pub fn success() -> (out: Self)
        ensures
            out.is_success(),
            out.is_silent(),
    {
        CmdOutput { status: 0, stdout: String::new(), stderr: String::new() }
    }
}

impl Clone for CmdOutput {
    fn clone(&self) -> (copy: Self)
        ensures
            copy == *self,
    {
        CmdOutput {
            status: self.status,
            stdout: self.stdout.clone(),
            stderr: self.stderr.clone(),
        }
    }
}

} // verus!
