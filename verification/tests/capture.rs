use shrs_core::{
    after_command_hook, AfterCommandCtx, Builtins, CmdOutput, OutputCaptureState, Param,
};
use std::cell::RefCell;

fn ctx(command: &str, status: i32, stdout: &str, stderr: &str) -> AfterCommandCtx {
    AfterCommandCtx {
        command: command.to_string(),
        cmd_output: CmdOutput {
            status,
            stdout: stdout.to_string(),
            stderr: stderr.to_string(),
        },
    }
}

#[test]
fn success_is_status_zero_without_output() {
    let out = CmdOutput::success();
    assert_eq!(out.status, 0);
    assert_eq!(out.stdout, "");
    assert_eq!(out.stderr, "");
}

#[test]
fn clone_keeps_every_field() {
    let out = CmdOutput { status: -3, stdout: "out".to_string(), stderr: "err".to_string() };
    let copy = out.clone();
    assert_eq!(copy.status, -3);
    assert_eq!(copy.stdout, "out");
    assert_eq!(copy.stderr, "err");
    assert_eq!(out.stdout, "out");
}

#[test]
fn new_capture_state_is_blank() {
    let state = OutputCaptureState::new();
    assert_eq!(state.last_command, "");
    assert_eq!(state.last_output.status, 0);
    assert_eq!(state.last_output.stdout, "");
    assert_eq!(state.last_output.stderr, "");
}

#[test]
fn hook_records_the_command_and_its_output() {
    let mut state = OutputCaptureState::new();
    after_command_hook(Some(&mut state), &ctx("ls -l", 2, "a\nb\n", "warn"));
    assert_eq!(state.last_command, "ls -l");
    assert_eq!(state.last_output.status, 2);
    assert_eq!(state.last_output.stdout, "a\nb\n");
    assert_eq!(state.last_output.stderr, "warn");
}

#[test]
fn hook_keeps_only_the_last_command() {
    let mut state = OutputCaptureState::new();
    after_command_hook(Some(&mut state), &ctx("first", 1, "one", ""));
    after_command_hook(Some(&mut state), &ctx("second", 0, "", "two"));
    assert_eq!(state.last_command, "second");
    assert_eq!(state.last_output.status, 0);
    assert_eq!(state.last_output.stdout, "");
    assert_eq!(state.last_output.stderr, "two");
}

#[test]
fn hook_without_state_does_nothing() {
    let report = ctx("ls", 0, "x", "");
    after_command_hook(None, &report);
    assert_eq!(report.command, "ls");
    assert_eq!(report.cmd_output.stdout, "x");
}

struct Shell;

struct Store {
    capture: RefCell<Option<OutputCaptureState>>,
}

/// The output that was captured last, if the store captures output.
struct LastOutput(Option<CmdOutput>);

impl Param<Store> for LastOutput {
    type Item<'a> = LastOutput;

    fn retrieve<'r>(states: &'r Store) -> LastOutput {
        LastOutput(states.capture.borrow().as_ref().map(|state| state.last_output.clone()))
    }
}

fn again(last: LastOutput, _sh: &Shell, _args: &Vec<String>) -> anyhow::Result<CmdOutput> {
    Ok(last.0.unwrap_or_else(CmdOutput::success))
}

#[test]
pub fn register() {
    let mut builtins: Builtins<Shell, Store> = Builtins::default();
    builtins.insert("again", again);
    let store = Store { capture: RefCell::new(Some(OutputCaptureState::new())) };
    assert_eq!(builtins.iter().len(), 11);

    let shown = builtins.get("again").unwrap().run(&Shell, &store, &vec![]).unwrap();
    assert_eq!(shown.status, 0);
    assert_eq!(shown.stdout, "");

    after_command_hook(store.capture.borrow_mut().as_mut(), &ctx("make", 2, "", "no rule"));
    let shown = builtins.get("again").unwrap().run(&Shell, &store, &vec![]).unwrap();
    assert_eq!(shown.status, 2);
    assert_eq!(shown.stderr, "no rule");
    assert_eq!(store.capture.borrow().as_ref().unwrap().last_command, "make");
}

#[test]
fn again_without_capture_state_reports_success() {
    let mut builtins: Builtins<Shell, Store> = Builtins::new();
    builtins.insert("again", again);
    let store = Store { capture: RefCell::new(None) };
    after_command_hook(store.capture.borrow_mut().as_mut(), &ctx("make", 2, "", "no rule"));
    let shown = builtins.get("again").unwrap().run(&Shell, &store, &vec![]).unwrap();
    assert_eq!(shown.status, 0);
    assert!(store.capture.borrow().is_none());
}
