//! The commands that every registry starts with.

use vstd::prelude::*;
use crate::builtin::registry::{Builtins, Handler};
use crate::builtin::Builtin;
use crate::output::CmdOutput;

verus! {

/// One of the baseline commands, as a handler that reports success and prints
/// nothing.
///
/// What a baseline command does belongs to the shell that embeds the
/// registry: the shell hands its own handlers to
/// [`Builtins::with_baseline`]. These handlers stand in the registry of a
/// shell that has none.
#[derive(Clone, Copy, Debug)]
pub enum Baseline {
    Exit,
    Help,
    Alias,
    Cd,
    Type,
    Export,
    History,
    Jobs,
    Source,
    Debug,
}

impl<Sh, St> Builtin<Sh, St> for Baseline {
    /// A run succeeds and prints nothing.
    open spec fn runs(
        &self,
        sh: &Sh,
        states: &St,
        args: &Vec<String>,
        out: anyhow::Result<CmdOutput>,
    ) -> bool {
        out matches Ok(output) && output.is_success() && output.is_silent()
    }

    fn run(&self, sh: &Sh, states: &St, args: &Vec<String>) -> (out: anyhow::Result<CmdOutput>) {
        Ok(CmdOutput::success())
    }
}

/// One handler for each baseline command.
#[verifier::reject_recursive_types(Sh)]
#[verifier::reject_recursive_types(St)]
pub struct BaselineHandlers<Sh, St> {
    pub exit: Handler<Sh, St>,
    pub help: Handler<Sh, St>,
    pub alias: Handler<Sh, St>,
    pub cd: Handler<Sh, St>,
    pub type_: Handler<Sh, St>,
    pub export: Handler<Sh, St>,
    pub history: Handler<Sh, St>,
    pub jobs: Handler<Sh, St>,
    pub source: Handler<Sh, St>,
    pub debug: Handler<Sh, St>,
}

/// The names of the baseline commands.
pub open spec fn baseline_names() -> Set<Seq<char>> {
    set![
        "exit"@,
        "help"@,
        "alias"@,
        "cd"@,
        "type"@,
        "export"@,
        "history"@,
        "jobs"@,
        "source"@,
        "debug"@,
    ]
}

/// There are ten baseline names.
pub proof fn lemma_baseline_names_count()
    ensures
        baseline_names().finite(),
        baseline_names().len() == 10,
{
    reveal_strlit("exit");
    reveal_strlit("help");
    reveal_strlit("alias");
    reveal_strlit("cd");
    reveal_strlit("type");
    reveal_strlit("export");
    reveal_strlit("history");
    reveal_strlit("jobs");
    reveal_strlit("source");
    reveal_strlit("debug");
    assert("exit"@.len() == 4 && "exit"@[0] == 'e');
    assert("help"@.len() == 4 && "help"@[0] == 'h');
    assert("alias"@.len() == 5 && "alias"@[0] == 'a');
    assert("cd"@.len() == 2);
    assert("type"@.len() == 4 && "type"@[0] == 't');
    assert("export"@.len() == 6 && "export"@[0] == 'e');
    assert("history"@.len() == 7);
    assert("jobs"@.len() == 4 && "jobs"@[0] == 'j');
    assert("source"@.len() == 6 && "source"@[0] == 's');
    assert("debug"@.len() == 5 && "debug"@[0] == 'd');
    let few = set!["exit"@, "help"@, "alias"@, "cd"@, "type"@];
    assert(few.len() == 5);
    let more = few.insert("export"@).insert("history"@).insert("jobs"@);
    assert(more.len() == 8);
    assert(more.insert("source"@).insert("debug"@) =~= baseline_names());
}

/// The registry that binds each baseline name to its handler and holds
/// nothing else.
pub open spec fn baseline_registry<Sh, St>(handlers: BaselineHandlers<Sh, St>) -> Map<
    Seq<char>,
    Handler<Sh, St>,
> {
    map![
        "exit"@ => handlers.exit,
        "help"@ => handlers.help,
        "alias"@ => handlers.alias,
        "cd"@ => handlers.cd,
        "type"@ => handlers.type_,
        "export"@ => handlers.export,
        "history"@ => handlers.history,
        "jobs"@ => handlers.jobs,
        "source"@ => handlers.source,
        "debug"@ => handlers.debug,
    ]
}

/// Whether each handler is its baseline command, boxed.
pub open spec fn boxes_baseline<Sh, St>(handlers: BaselineHandlers<Sh, St>) -> bool {
    &&& Handler::boxes(Baseline::Exit, handlers.exit)
    &&& Handler::boxes(Baseline::Help, handlers.help)
    &&& Handler::boxes(Baseline::Alias, handlers.alias)
    &&& Handler::boxes(Baseline::Cd, handlers.cd)
    &&& Handler::boxes(Baseline::Type, handlers.type_)
    &&& Handler::boxes(Baseline::Export, handlers.export)
    &&& Handler::boxes(Baseline::History, handlers.history)
    &&& Handler::boxes(Baseline::Jobs, handlers.jobs)
    &&& Handler::boxes(Baseline::Source, handlers.source)
    &&& Handler::boxes(Baseline::Debug, handlers.debug)
}

/// The baseline registry holds the baseline names and no others.
pub proof fn lemma_baseline_registry_names<Sh, St>(handlers: BaselineHandlers<Sh, St>)
    ensures
        baseline_registry(handlers).dom() == baseline_names(),
{
    assert(baseline_registry(handlers).dom() =~= baseline_names());
}

impl<Sh, St> Builtins<Sh, St> {
    /// The registry of a shell: the baseline commands, each bound to the
    /// handler that the shell has for it.
    pub fn with_baseline(handlers: BaselineHandlers<Sh, St>) -> (registry: Self)
        ensures
            registry@ == baseline_registry(handlers),
            registry@.dom() == baseline_names(),
            registry@.dom().len() == 10,
    {
        let BaselineHandlers {
            exit,
            help,
            alias,
            cd,
            type_,
            export,
            history,
            jobs,
            source,
            debug,
        } = handlers;
        let mut builtins = Builtins::new();
        builtins.insert_handler("exit", exit);
        builtins.insert_handler("help", help);
        builtins.insert_handler("alias", alias);
        builtins.insert_handler("cd", cd);
        builtins.insert_handler("type", type_);
        builtins.insert_handler("export", export);
        builtins.insert_handler("history", history);
        builtins.insert_handler("jobs", jobs);
        builtins.insert_handler("source", source);
        builtins.insert_handler("debug", debug);
        proof {
            lemma_baseline_registry_names(handlers);
            lemma_baseline_names_count();
        }
        builtins
    }
}

impl<Sh, St> Default for Builtins<Sh, St> {
    /// The registry that holds the baseline commands and nothing else, each
    /// bound to a handler that reports success and prints nothing.
    fn default() -> (registry: Self)
        ensures
            exists|handlers: BaselineHandlers<Sh, St>|
                {
                    &&& boxes_baseline(handlers)
                    &&& registry@ == #[trigger] baseline_registry(handlers)
                },
            registry@.dom() == baseline_names(),
            registry@.dom().len() == 10,
    {
        let handlers = BaselineHandlers {
            exit: Handler::new(Baseline::Exit),
            help: Handler::new(Baseline::Help),
            alias: Handler::new(Baseline::Alias),
            cd: Handler::new(Baseline::Cd),
            type_: Handler::new(Baseline::Type),
            export: Handler::new(Baseline::Export),
            history: Handler::new(Baseline::History),
            jobs: Handler::new(Baseline::Jobs),
            source: Handler::new(Baseline::Source),
            debug: Handler::new(Baseline::Debug),
        };
        let ghost boxed = handlers;
        let registry = Builtins::with_baseline(handlers);
        assert(boxes_baseline(boxed));
        registry
    }
}

} // verus!
