//! Built-in commands.
//!
//! A built-in command runs inside the shell: it is handed the shell context,
//! the state store and the argument list, and hands back the command's
//! output or an error. The registry in [`registry`] binds names to commands;
//! [`function`] turns plain functions into commands.

use vstd::prelude::*;
use crate::output::CmdOutput;

pub mod baseline;
pub mod function;
pub mod registry;

verus! {

/// A command that runs inside the shell.
///
/// Implement it directly for a handler that keeps state of its own between
/// invocations. A plain function becomes a command through [`IntoBuiltin`].
pub trait Builtin<Sh, St> {
    /// Which results a run may give on the shell, the state store and the
    /// arguments. An implementation that says nothing allows every result.
    open spec fn runs(
        &self,
        sh: &Sh,
        states: &St,
        args: &Vec<String>,
        out: anyhow::Result<CmdOutput>,
    ) -> bool {
        true
    }

    /// Runs the command on the shell, the state store and the arguments.
    fn run(&self, sh: &Sh, states: &St, args: &Vec<String>) -> (out: anyhow::Result<CmdOutput>)
        ensures
            self.runs(sh, states, args, out),
    ;
}

/// A value that can be turned into a [`Builtin`]: a handler, which is taken
/// as it is, or a plain function of up to four typed parameters, the shell
/// and the arguments. `Input` tells the shapes apart.
pub trait IntoBuiltin<Sh, St, Input>: Sized {
    /// The command that the value turns into.
    type Builtin: Builtin<Sh, St>;

    /// Whether the value can be lifted. A handler always can; a plain
    /// function can if it can be called on every input of its type.
    open spec fn liftable(&self) -> bool {
        true
    }

    /// Which results a run of the lifted value may give: for a handler those
    /// of its own runs, for a plain function those that it gives on the views
    /// that its parameters extract from the store.
    spec fn lifted_runs(
        &self,
        sh: &Sh,
        states: &St,
        args: &Vec<String>,
        out: anyhow::Result<CmdOutput>,
    ) -> bool;

    /// Turns the value into a command.
    fn into_builtin(self) -> (builtin: Self::Builtin)
        requires
            self.liftable(),
        ensures
            forall|sh: &Sh, states: &St, args: &Vec<String>, out: anyhow::Result<CmdOutput>|
                #[trigger] builtin.runs(sh, states, args, out) == self.lifted_runs(
                    sh,
                    states,
                    args,
                    out,
                ),
    ;
}

/// A handler lifts to itself.
impl<Sh, St, B: Builtin<Sh, St>> IntoBuiltin<Sh, St, B> for B {
    type Builtin = B;

    open spec fn lifted_runs(
        &self,
        sh: &Sh,
        states: &St,
        args: &Vec<String>,
        out: anyhow::Result<CmdOutput>,
    ) -> bool {
        self.runs(sh, states, args, out)
    }

    fn into_builtin(self) -> (builtin: B)
        ensures
            builtin == self,
    {
        self
    }
}

/// Every handler can be lifted, and lifted it runs as it runs.
pub proof fn lemma_handler_liftable<Sh, St, B: Builtin<Sh, St>>(builtin: B)
    ensures
        IntoBuiltin::<Sh, St, B>::liftable(&builtin),
        forall|sh: &Sh, states: &St, args: &Vec<String>, out: anyhow::Result<CmdOutput>|
            #[trigger] IntoBuiltin::<Sh, St, B>::lifted_runs(&builtin, sh, states, args, out)
                == builtin.runs(sh, states, args, out),
{
}

} // verus!
