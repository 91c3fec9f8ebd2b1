use shrs_core::{BaselineHandlers, Builtin, Builtins, CmdOutput, FunctionBuiltin, Handler};
use std::cell::Cell;

struct Shell {
    last_status: i32,
}

struct Store {
    counter: Cell<u64>,
}

fn shell() -> Shell {
    Shell { last_status: 0 }
}

fn store() -> Store {
    Store { counter: Cell::new(0) }
}

fn output(status: i32, stdout: &str) -> CmdOutput {
    CmdOutput { status, stdout: stdout.to_string(), stderr: String::new() }
}

fn first(_sh: &Shell, _args: &Vec<String>) -> anyhow::Result<CmdOutput> {
    Ok(output(1, "first"))
}

fn second(_sh: &Shell, _args: &Vec<String>) -> anyhow::Result<CmdOutput> {
    Ok(output(2, "second"))
}

struct Fixed(i32);

impl Builtin<Shell, Store> for Fixed {
    fn run(&self, _sh: &Shell, _states: &Store, _args: &Vec<String>) -> anyhow::Result<CmdOutput> {
        Ok(output(self.0, "fixed"))
    }
}

fn names(builtins: &Builtins<Shell, Store>) -> Vec<String> {
    let mut names: Vec<String> = builtins.iter().iter().map(|entry| entry.0.clone()).collect();
    names.sort();
    names
}

fn status_of(builtins: &Builtins<Shell, Store>, name: &str) -> i32 {
    let handler = builtins.get(name).expect("registered");
    handler.run(&shell(), &store(), &vec![]).expect("runs").status
}

#[test]
fn new_registry_is_empty() {
    let builtins: Builtins<Shell, Store> = Builtins::new();
    assert_eq!(builtins.iter().len(), 0);
    assert!(builtins.get("exit").is_none());
    assert!(builtins.get("x").is_none());
}

#[test]
fn default_registry_holds_the_baseline_names() {
    let builtins: Builtins<Shell, Store> = Builtins::default();
    let mut expected: Vec<String> = vec![
        "exit", "help", "alias", "cd", "type", "export", "history", "jobs", "source", "debug",
    ]
    .into_iter()
    .map(String::from)
    .collect();
    expected.sort();
    assert_eq!(names(&builtins), expected);
    assert_eq!(builtins.iter().len(), 10);
    for name in &expected {
        assert!(builtins.get(name).is_some());
    }
    assert!(builtins.get("again").is_none());
    assert!(builtins.get("unalias").is_none());
}

#[test]
fn with_baseline_binds_each_name_to_its_handler() {
    let builtins: Builtins<Shell, Store> = Builtins::with_baseline(BaselineHandlers {
        exit: Handler::new(Fixed(1)),
        help: Handler::new(Fixed(2)),
        alias: Handler::new(Fixed(3)),
        cd: Handler::new(Fixed(4)),
        type_: Handler::new(Fixed(5)),
        export: Handler::new(Fixed(6)),
        history: Handler::new(Fixed(7)),
        jobs: Handler::new(Fixed(8)),
        source: Handler::new(Fixed(9)),
        debug: Handler::new(Fixed(10)),
    });
    assert_eq!(status_of(&builtins, "exit"), 1);
    assert_eq!(status_of(&builtins, "help"), 2);
    assert_eq!(status_of(&builtins, "alias"), 3);
    assert_eq!(status_of(&builtins, "cd"), 4);
    assert_eq!(status_of(&builtins, "type"), 5);
    assert_eq!(status_of(&builtins, "export"), 6);
    assert_eq!(status_of(&builtins, "history"), 7);
    assert_eq!(status_of(&builtins, "jobs"), 8);
    assert_eq!(status_of(&builtins, "source"), 9);
    assert_eq!(status_of(&builtins, "debug"), 10);
    assert_eq!(builtins.iter().len(), 10);
    assert!(builtins.get("type_").is_none());
}

#[test]
fn baseline_handler_reports_success_without_output() {
    let builtins: Builtins<Shell, Store> = Builtins::default();
    let out = builtins.get("cd").unwrap().run(&shell(), &store(), &vec!["/tmp".to_string()]).unwrap();
    assert_eq!(out.status, 0);
    assert_eq!(out.stdout, "");
    assert_eq!(out.stderr, "");
}

#[test]
fn second_insert_replaces_the_first() {
    let mut builtins: Builtins<Shell, Store> = Builtins::new();
    builtins.insert("x", first);
    assert_eq!(status_of(&builtins, "x"), 1);
    builtins.insert("x", second);
    assert_eq!(status_of(&builtins, "x"), 2);
    assert_eq!(names(&builtins), vec!["x".to_string()]);
    assert_eq!(builtins.iter().len(), 1);
}

#[test]
fn second_insert_decides_what_runs() {
    let mut builtins: Builtins<Shell, Store> = Builtins::new();
    builtins.insert("x", |_: &Shell, _: &Vec<String>| -> anyhow::Result<CmdOutput> {
        Ok(CmdOutput::success())
    });
    builtins.insert("x", |_: &Shell, _: &Vec<String>| -> anyhow::Result<CmdOutput> {
        Err(anyhow::Error::msg("second"))
    });
    let handler = builtins.get("x").expect("registered");
    let err = handler.run(&shell(), &store(), &vec![]).unwrap_err();
    assert_eq!(err.to_string(), "second");
    assert_eq!(builtins.iter().len(), 1);
}

#[test]
fn overriding_a_default_entry_does_not_add_one() {
    let mut builtins: Builtins<Shell, Store> = Builtins::default();
    builtins.insert("cd", |_: &Shell, _: &Vec<String>| -> anyhow::Result<CmdOutput> {
        Err(anyhow::Error::msg("mine"))
    });
    assert_eq!(builtins.iter().iter().count(), 10);
    let err = builtins.get("cd").unwrap().run(&shell(), &store(), &vec![]).unwrap_err();
    assert_eq!(err.to_string(), "mine");
    assert_eq!(status_of(&builtins, "exit"), 0);
}

#[test]
fn insert_keeps_other_entries() {
    let mut builtins: Builtins<Shell, Store> = Builtins::new();
    builtins.insert("a", first);
    builtins.insert("b", second);
    builtins.insert("c", Fixed(3));
    builtins.insert("a", Fixed(4));
    assert_eq!(status_of(&builtins, "a"), 4);
    assert_eq!(status_of(&builtins, "b"), 2);
    assert_eq!(status_of(&builtins, "c"), 3);
    assert_eq!(names(&builtins), vec!["a".to_string(), "b".to_string(), "c".to_string()]);
    assert!(builtins.get("d").is_none());
}

#[test]
fn default_entry_can_be_overridden() {
    let mut builtins: Builtins<Shell, Store> = Builtins::default();
    builtins.insert("exit", Fixed(9));
    assert_eq!(status_of(&builtins, "exit"), 9);
    assert_eq!(status_of(&builtins, "help"), 0);
    assert_eq!(builtins.iter().len(), 10);
    builtins.insert("again", Fixed(5));
    assert_eq!(builtins.iter().len(), 11);
    assert_eq!(status_of(&builtins, "again"), 5);
}

#[test]
fn insert_handler_binds_the_given_box() {
    let mut builtins: Builtins<Shell, Store> = Builtins::new();
    builtins.insert_handler("x", Handler { inner: Box::new(Fixed(1)) });
    builtins.insert_handler("y", Handler::new(FunctionBuiltin::<Shell, Store, (), _>::new(second)));
    builtins.insert_handler("x", Handler::new(Fixed(7)));
    assert_eq!(status_of(&builtins, "x"), 7);
    assert_eq!(status_of(&builtins, "y"), 2);
    assert_eq!(builtins.iter().len(), 2);
}

#[test]
fn iter_pairs_each_name_with_its_handler() {
    let mut builtins: Builtins<Shell, Store> = Builtins::new();
    builtins.insert("one", Fixed(1));
    builtins.insert("two", Fixed(2));
    builtins.insert("three", Fixed(3));
    let mut seen: Vec<(String, i32)> = Vec::new();
    for entry in builtins.iter() {
        let out = entry.1.inner.run(&shell(), &store(), &vec![]).unwrap();
        seen.push((entry.0.clone(), out.status));
    }
    seen.sort();
    assert_eq!(
        seen,
        vec![("one".to_string(), 1), ("three".to_string(), 3), ("two".to_string(), 2)]
    );
}

#[test]
fn names_differ_by_case_and_length() {
    let mut builtins: Builtins<Shell, Store> = Builtins::new();
    builtins.insert("cd", Fixed(1));
    builtins.insert("CD", Fixed(2));
    builtins.insert("cdd", Fixed(3));
    builtins.insert("", Fixed(4));
    assert_eq!(status_of(&builtins, "cd"), 1);
    assert_eq!(status_of(&builtins, "CD"), 2);
    assert_eq!(status_of(&builtins, "cdd"), 3);
    assert_eq!(status_of(&builtins, ""), 4);
    assert!(builtins.get("c").is_none());
    assert_eq!(builtins.iter().len(), 4);
}

#[test]
fn end_to_end_counter() {
    struct Inc;
    impl Builtin<Shell, Store> for Inc {
        fn run(&self, _sh: &Shell, states: &Store, _args: &Vec<String>) -> anyhow::Result<CmdOutput> {
            states.counter.set(states.counter.get() + 1);
            Ok(CmdOutput::success())
        }
    }
    let mut builtins: Builtins<Shell, Store> = Builtins::new();
    builtins.insert("inc", Inc);
    let sh = shell();
    let st = store();
    assert!(builtins.get("inc").is_some());
    for _ in 0..3 {
        let out = builtins.get("inc").unwrap().run(&sh, &st, &vec![]).unwrap();
        assert_eq!(out.status, 0);
    }
    assert_eq!(st.counter.get(), 3);
    assert!(builtins.get("inc").is_some());
    assert_eq!(sh.last_status, 0);
}
