use shrs_core::{Command, Commands, Deferred, FnCommand};
use std::collections::VecDeque;

struct Shell {
    last_status: i32,
}

struct Store {
    log: Vec<String>,
    total: i64,
    commands: Commands<Shell, Store>,
}

fn shell() -> Shell {
    Shell { last_status: 0 }
}

fn store() -> Store {
    Store { log: Vec::new(), total: 0, commands: Commands::new() }
}

struct Note(&'static str);

impl Command<Shell, Store> for Note {
    fn apply(&self, _sh: &mut Shell, states: &mut Store) {
        states.log.push(self.0.to_string());
    }
}

struct Add(i64);

impl Command<Shell, Store> for Add {
    fn apply(&self, _sh: &mut Shell, states: &mut Store) {
        states.total += self.0;
    }
}

struct Double;

impl Command<Shell, Store> for Double {
    fn apply(&self, _sh: &mut Shell, states: &mut Store) {
        states.total *= 2;
    }
}

struct SetStatus(i32);

impl Command<Shell, Store> for SetStatus {
    fn apply(&self, sh: &mut Shell, _states: &mut Store) {
        sh.last_status = self.0;
    }
}

/// Notes its own name, then schedules another note.
struct NoteThenSchedule(&'static str, &'static str);

impl Command<Shell, Store> for NoteThenSchedule {
    fn apply(&self, _sh: &mut Shell, states: &mut Store) {
        states.log.push(self.0.to_string());
        states.commands.run(Note(self.1));
    }
}

fn apply_each(batch: VecDeque<Deferred<Shell, Store>>, sh: &mut Shell, st: &mut Store) {
    for deferred in batch {
        deferred.command.apply(sh, st);
    }
}

#[test]
fn new_queue_is_empty() {
    let mut commands: Commands<Shell, Store> = Commands::new();
    assert_eq!(commands.drain().len(), 0);
    assert_eq!(commands.drain().len(), 0);
}

#[test]
fn drain_yields_commands_in_the_order_of_run() {
    let mut commands: Commands<Shell, Store> = Commands::new();
    commands.run(Note("A"));
    commands.run(Note("B"));
    let batch = commands.drain();
    assert_eq!(batch.len(), 2);
    let (mut sh, mut st) = (shell(), store());
    apply_each(batch, &mut sh, &mut st);
    assert_eq!(st.log, vec!["A".to_string(), "B".to_string()]);
}

#[test]
fn drain_leaves_the_queue_empty() {
    let mut commands: Commands<Shell, Store> = Commands::new();
    commands.run(Note("A"));
    commands.run(Note("B"));
    commands.run(Note("C"));
    assert_eq!(commands.drain().len(), 3);
    assert_eq!(commands.drain().len(), 0);
    commands.run(Note("D"));
    assert_eq!(commands.drain().len(), 1);
}

#[test]
fn applying_in_queue_order_equals_applying_directly() {
    let mut commands: Commands<Shell, Store> = Commands::new();
    commands.run(Add(5));
    commands.run(Double);
    let (mut sh, mut st) = (shell(), store());
    st.total = 1;
    apply_each(commands.drain(), &mut sh, &mut st);

    let (mut sh_direct, mut st_direct) = (shell(), store());
    st_direct.total = 1;
    Add(5).apply(&mut sh_direct, &mut st_direct);
    Double.apply(&mut sh_direct, &mut st_direct);

    assert_eq!(st.total, 12);
    assert_eq!(st.total, st_direct.total);
    assert_eq!(sh.last_status, sh_direct.last_status);
}

#[test]
fn order_matters() {
    let mut commands: Commands<Shell, Store> = Commands::new();
    commands.run(Double);
    commands.run(Add(5));
    let (mut sh, mut st) = (shell(), store());
    st.total = 1;
    apply_each(commands.drain(), &mut sh, &mut st);
    assert_eq!(st.total, 7);
}

#[test]
fn apply_all_applies_first_to_last() {
    let mut commands: Commands<Shell, Store> = Commands::new();
    commands.run(Add(5));
    commands.run(Double);
    commands.run(Note("x"));
    commands.run(SetStatus(3));
    commands.run(Add(-2));
    let (mut sh, mut st) = (shell(), store());
    st.total = 1;
    let batch = commands.drain();
    Commands::apply_all(batch, &mut sh, &mut st);
    assert_eq!(st.total, 10);
    assert_eq!(st.log, vec!["x".to_string()]);
    assert_eq!(sh.last_status, 3);
}

#[test]
fn apply_all_of_an_empty_batch_changes_nothing() {
    let (mut sh, mut st) = (shell(), store());
    st.total = 4;
    sh.last_status = 9;
    Commands::apply_all(VecDeque::new(), &mut sh, &mut st);
    assert_eq!(st.total, 4);
    assert_eq!(sh.last_status, 9);
    assert!(st.log.is_empty());
}

#[test]
fn command_scheduled_while_applying_waits_for_the_next_drain() {
    let (mut sh, mut st) = (shell(), store());
    st.commands.run(NoteThenSchedule("A", "C"));
    st.commands.run(Note("B"));

    let batch = st.commands.drain();
    assert_eq!(batch.len(), 2);
    Commands::apply_all(batch, &mut sh, &mut st);
    assert_eq!(st.log, vec!["A".to_string(), "B".to_string()]);

    let next = st.commands.drain();
    assert_eq!(next.len(), 1);
    Commands::apply_all(next, &mut sh, &mut st);
    assert_eq!(st.log, vec!["A".to_string(), "B".to_string(), "C".to_string()]);
    assert_eq!(st.commands.drain().len(), 0);
}

#[test]
fn end_to_end_last_status() {
    let mut commands: Commands<Shell, Store> = Commands::new();
    commands.run(FnCommand::new(|sh: &mut Shell, _st: &mut Store| {
        sh.last_status = 42;
    }));
    let (mut sh, mut st) = (shell(), store());
    assert_eq!(sh.last_status, 0);
    for deferred in commands.drain() {
        deferred.command.apply(&mut sh, &mut st);
    }
    assert_eq!(sh.last_status, 42);
}

#[test]
fn function_command_applies_the_function() {
    let add = FnCommand::new(|sh: &mut Shell, st: &mut Store| {
        st.total += 3;
        sh.last_status += 1;
    });
    let (mut sh, mut st) = (shell(), store());
    add.apply(&mut sh, &mut st);
    add.apply(&mut sh, &mut st);
    assert_eq!(st.total, 6);
    assert_eq!(sh.last_status, 2);
}

#[test]
fn push_schedules_the_given_box() {
    let mut commands: Commands<Shell, Store> = Commands::new();
    commands.push(Deferred { command: Box::new(Add(1)) });
    commands.push(Deferred::new(Double));
    commands.run(Add(10));
    let (mut sh, mut st) = (shell(), store());
    Commands::apply_all(commands.drain(), &mut sh, &mut st);
    assert_eq!(st.total, 12);
}
