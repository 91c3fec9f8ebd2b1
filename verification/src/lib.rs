//! The extensibility core of an interactive shell.
//!
//! Built-in commands are ordinary functions whose leading parameters are
//! extracted from a shared state store at call time; a registry keeps them by
//! name. Code that holds only shared access to the shell schedules a mutation
//! on a queue, which is drained and applied later with exclusive access.
//!
//! The shell context `Sh` and the state store `St` are type parameters: the
//! core hands both on and never looks inside either.

pub mod builtin;
pub mod capture;
pub mod commands;
pub mod output;
pub mod state;

pub use builtin::baseline::{Baseline, BaselineHandlers};
pub use builtin::function::{FunctionBuiltin, PlainFn};
pub use builtin::registry::{Builtins, Entry, Handler};
pub use builtin::{Builtin, IntoBuiltin};
pub use capture::{after_command_hook, AfterCommandCtx, OutputCaptureState};
pub use commands::{Command, Commands, Deferred, FnCommand};
pub use output::CmdOutput;
pub use state::Param;
