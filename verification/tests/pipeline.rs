use pipe_builder::pipe::{Pipe, PipeError, PipeErrorKind, ProcessHandle, SpawnRequest, Step};
use pipe_builder::tokens::tokenize;

fn live_handle() -> ProcessHandle {
    ProcessHandle { stdout_available: true, stdin_available: false }
}

fn spawn_of(step: Step) -> SpawnRequest {
    match step {
        Step::Spawn(req) => req,
        Step::Fail(_) => panic!("expected a spawn request"),
    }
}

fn failure_of(step: Step) -> PipeError {
    match step {
        Step::Spawn(_) => panic!("expected a failed builder"),
        Step::Fail(p) => match p.finally() {
            Ok(_) => panic!("a failed step must not finalize to a handle"),
            Err(e) => e,
        },
    }
}

#[test]
fn new_plans_first_stage() {
    let req = spawn_of(Pipe::new("ls /"));
    assert_eq!(req.program, "ls");
    assert_eq!(req.args, vec!["/".to_string()]);
    assert!(!req.wire_stdin);
}

#[test]
fn new_empty_string_fails() {
    let e = failure_of(Pipe::new(""));
    assert_eq!(e.kind, PipeErrorKind::EmptyCommand);
    assert_eq!(e.message, "No command as input");
}

#[test]
fn new_whitespace_only_fails() {
    let e = failure_of(Pipe::new(" \t\n  \r "));
    assert_eq!(e.kind, PipeErrorKind::EmptyCommand);
    assert_eq!(e.message, "No command as input");
}

#[test]
fn then_plans_wired_stage() {
    let req = spawn_of(Pipe::spawned(live_handle()).then("grep usr"));
    assert_eq!(req.program, "grep");
    assert_eq!(req.args, vec!["usr".to_string()]);
    assert!(req.wire_stdin);
}

#[test]
fn then_without_stdout_fails() {
    let h = ProcessHandle { stdout_available: false, stdin_available: true };
    let e = failure_of(Pipe::spawned(h).then("grep usr"));
    assert_eq!(e.kind, PipeErrorKind::NoOutputStream);
    assert_eq!(e.message, "No stdout for a command");
}

#[test]
fn then_empty_command_fails() {
    let e = failure_of(Pipe::spawned(live_handle()).then("   "));
    assert_eq!(e.kind, PipeErrorKind::EmptyCommand);
    assert_eq!(e.message, "No command as input");
}

#[test]
fn failed_builder_absorbs_chaining() {
    let failed = Pipe::spawn_failed("program not found".to_string());
    let step = failed.then("ls /");
    let e = failure_of(step);
    assert_eq!(e.kind, PipeErrorKind::SpawnFailure);
    assert_eq!(e.message, "program not found");
}

#[test]
fn failure_survives_a_whole_chain() {
    let failed = Pipe::spawn_failed("no such executable".to_string());
    let step = failed.then("grep usr");
    let next = match step {
        Step::Fail(p) => p,
        Step::Spawn(_) => panic!("a failed builder must not plan a spawn"),
    };
    let step = next.then("head -c 1");
    let e = failure_of(step);
    assert_eq!(e.kind, PipeErrorKind::SpawnFailure);
    assert_eq!(e.message, "no such executable");
}

#[test]
fn spawn_failure_surfaces_at_finally() {
    match Pipe::spawn_failed("permission denied".to_string()).finally() {
        Ok(_) => panic!("a rejected spawn must not finalize to a handle"),
        Err(e) => {
            assert_eq!(e.kind, PipeErrorKind::SpawnFailure);
            assert_eq!(e.message, "permission denied");
        }
    }
}

#[test]
fn finally_returns_spawned_handle() {
    let h = ProcessHandle { stdout_available: true, stdin_available: true };
    match Pipe::spawned(h).finally() {
        Ok(got) => assert_eq!(got, h),
        Err(_) => panic!("a spawned builder must finalize to its handle"),
    }
}

#[test]
fn chain_decisions_end_to_end() {
    let req = spawn_of(Pipe::new("ls /"));
    assert_eq!(req.program, "ls");
    assert_eq!(req.args, vec!["/".to_string()]);
    assert!(!req.wire_stdin);

    let req = spawn_of(Pipe::spawned(live_handle()).then("grep usr"));
    assert_eq!(req.program, "grep");
    assert_eq!(req.args, vec!["usr".to_string()]);
    assert!(req.wire_stdin);

    let req = spawn_of(Pipe::spawned(live_handle()).then("head -c 1"));
    assert_eq!(req.program, "head");
    assert_eq!(req.args, vec!["-c".to_string(), "1".to_string()]);
    assert!(req.wire_stdin);

    match Pipe::spawned(live_handle()).finally() {
        Ok(h) => assert!(h.stdout_available),
        Err(_) => panic!("the final stage must hand its handle out"),
    }
}

#[test]
fn peek_is_idempotent_and_undisturbing() {
    let p = Pipe::spawned(live_handle());
    let first = p.peek().expect("a live stage must be peekable");
    let again = p.peek().expect("a live stage must stay peekable");
    assert_eq!(first, again);
    assert!(first.stdout_available);
    let req = spawn_of(p.then("wc -l"));
    assert_eq!(req.program, "wc");
}

#[test]
fn peek_on_failed_builder_fails() {
    let p = Pipe::spawn_failed("spawn rejected".to_string());
    match p.peek() {
        Ok(_) => panic!("a failed builder has nothing to peek at"),
        Err(e) => {
            assert_eq!(e.kind, PipeErrorKind::NoOutputStream);
            assert_eq!(e.message, "No stdout for a command");
        }
    }
}

#[test]
fn peek_without_stdout_fails() {
    let h = ProcessHandle { stdout_available: false, stdin_available: false };
    match Pipe::spawned(h).peek() {
        Ok(_) => panic!("a stage without captured output has nothing to peek at"),
        Err(e) => assert_eq!(e.kind, PipeErrorKind::NoOutputStream),
    }
}

#[test]
fn tokenize_splits_on_runs_of_whitespace() {
    assert_eq!(tokenize("ls /"), vec!["ls".to_string(), "/".to_string()]);
    assert_eq!(
        tokenize("  head \t -c \n 1 "),
        vec!["head".to_string(), "-c".to_string(), "1".to_string()]
    );
}

#[test]
fn tokenize_empty_and_blank() {
    assert_eq!(tokenize(""), Vec::<String>::new());
    assert_eq!(tokenize(" \t\r\n "), Vec::<String>::new());
}

#[test]
fn tokenize_unicode_whitespace() {
    assert_eq!(
        tokenize("a\u{2003}b\u{a0}c"),
        vec!["a".to_string(), "b".to_string(), "c".to_string()]
    );
    assert_eq!(tokenize("caf\u{e9} nai\u{308}ve"), vec![
        "caf\u{e9}".to_string(),
        "nai\u{308}ve".to_string()
    ]);
}
