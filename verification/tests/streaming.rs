use super_process::exe::{Command, CommandError, ExitStatus, Exe};
use super_process::fs::File;
use super_process::stream::{
    spawned, Awaiting, Drain, Event, Merged, Polled, Request, StdioLine, Step,
};

fn command(program: &str) -> Command {
    Command { exe: Exe(File(program.to_string())), ..Command::default() }
}

fn line(text: &str) -> Polled {
    Polled::Line(text.to_string())
}

fn broken(text: &str) -> std::io::Error {
    std::io::Error::new(std::io::ErrorKind::BrokenPipe, text.to_string())
}

fn go_on(step: Step) -> (Drain, Request) {
    match step {
        Step::Continue(drain, request) => (drain, request),
        Step::Return(result) => panic!("the drain ended with {:?}", result),
    }
}

/// Runs a drain over two queues of lines that are all ready from the start,
/// and returns the lines in the order of their delivery.
fn drain_all(out: &[&str], err: &[&str]) -> Vec<String> {
    let mut out: Vec<&str> = out.to_vec();
    let mut err: Vec<&str> = err.to_vec();
    out.reverse();
    err.reverse();
    let mut delivered = Vec::new();
    let (mut drain, mut request) = Drain::new(command("both"));
    loop {
        let event = match request {
            Request::Poll { out: ask_out, err: ask_err, .. } => Event::Polled {
                out: if ask_out { out.pop().map(line).unwrap_or(Polled::End) } else { Polled::Pending },
                err: if ask_err { err.pop().map(line).unwrap_or(Polled::End) } else { Polled::Pending },
            },
            Request::Deliver(StdioLine::Out(text)) => {
                delivered.push(format!("out:{}", text));
                Event::Delivered(Ok(()))
            },
            Request::Deliver(StdioLine::Stderr(text)) => {
                delivered.push(format!("err:{}", text));
                Event::Delivered(Ok(()))
            },
            Request::AwaitExit => Event::Exited(Ok(ExitStatus { code: Some(0), signal: None })),
        };
        match drain.step(event) {
            Step::Continue(next, asked) => {
                drain = next;
                request = asked;
            },
            Step::Return(result) => {
                assert!(result.is_ok());
                return delivered;
            },
        }
    }
}

#[test]
fn merge_prefers_stderr_when_both_are_ready() {
    let (merged, out, err) = StdioLine::merge_streams(line("a"), line("x"));
    assert!(matches!(merged, Merged::Line(StdioLine::Stderr(text)) if text == "x"));
    assert!(matches!(out, Polled::Line(text) if text == "a"));
    assert!(matches!(err, Polled::Pending));
}

#[test]
fn merge_takes_stdout_when_stderr_has_nothing() {
    for idle in [Polled::Pending, Polled::End] {
        let ended = matches!(idle, Polled::End);
        let (merged, out, err) = StdioLine::merge_streams(line("a"), idle);
        assert!(matches!(merged, Merged::Line(StdioLine::Out(text)) if text == "a"));
        assert!(matches!(out, Polled::Pending));
        assert_eq!(matches!(err, Polled::End), ended);
    }
}

#[test]
fn merge_fails_with_the_failure_of_stderr_first() {
    let (merged, out, _) =
        StdioLine::merge_streams(Polled::Failed(broken("out")), Polled::Failed(broken("err")));
    assert!(matches!(merged, Merged::Failed(error) if error.to_string() == "err"));
    assert!(matches!(out, Polled::Failed(_)));
    let (merged, _, _) = StdioLine::merge_streams(line("a"), Polled::Failed(broken("err")));
    assert!(matches!(merged, Merged::Failed(error) if error.to_string() == "err"));
    let (merged, _, _) = StdioLine::merge_streams(Polled::Failed(broken("out")), Polled::End);
    assert!(matches!(merged, Merged::Failed(error) if error.to_string() == "out"));
    let (merged, _, err) = StdioLine::merge_streams(Polled::Failed(broken("out")), line("x"));
    assert!(matches!(merged, Merged::Line(StdioLine::Stderr(text)) if text == "x"));
    assert!(matches!(err, Polled::Pending));
}

#[test]
fn merge_is_exhausted_only_when_both_have_ended() {
    assert!(matches!(StdioLine::merge_streams(Polled::End, Polled::End).0, Merged::Exhausted));
    assert!(matches!(StdioLine::merge_streams(Polled::End, Polled::Pending).0, Merged::Unready));
    assert!(matches!(StdioLine::merge_streams(Polled::Pending, Polled::End).0, Merged::Unready));
    assert!(matches!(StdioLine::merge_streams(Polled::Pending, Polled::Pending).0, Merged::Unready));
}

#[test]
fn a_new_drain_asks_both_streams_and_waits() {
    let (drain, request) = Drain::new(command("yes"));
    assert!(matches!(request, Request::Poll { out: true, err: true, wait: true }));
    assert!(matches!(drain.out, Polled::Pending));
    assert!(matches!(drain.err, Polled::Pending));
    assert!(matches!(drain.awaiting, Awaiting::Lines));
    assert_eq!(drain.command.exe.0 .0, "yes");
}

#[test]
fn stderr_line_goes_before_stdout_lines_that_are_ready_too() {
    assert_eq!(drain_all(&["a", "b"], &["x"]), vec!["err:x", "out:a", "out:b"]);
}

#[test]
fn each_stream_keeps_its_own_order() {
    let delivered = drain_all(&["o1", "o2", "o3"], &["e1", "e2"]);
    assert_eq!(delivered, vec!["err:e1", "err:e2", "out:o1", "out:o2", "out:o3"]);
    assert!(drain_all(&[], &[]).is_empty());
    assert_eq!(drain_all(&["only"], &[]), vec!["out:only"]);
    assert_eq!(drain_all(&[], &["only"]), vec!["err:only"]);
}

#[test]
fn a_held_stdout_line_waits_while_stderr_is_asked_again() {
    let (drain, _) = Drain::new(command("p"));
    let (drain, request) = go_on(drain.step(Event::Polled { out: line("a"), err: line("x") }));
    assert!(matches!(request, Request::Deliver(StdioLine::Stderr(text)) if text == "x"));
    assert!(matches!(drain.awaiting, Awaiting::Delivery));
    let (drain, request) = go_on(drain.step(Event::Delivered(Ok(()))));
    assert!(matches!(request, Request::Poll { out: false, err: true, wait: false }));
    let (drain, request) = go_on(drain.step(Event::Polled { out: Polled::Pending, err: line("y") }));
    assert!(matches!(request, Request::Deliver(StdioLine::Stderr(text)) if text == "y"));
    let (drain, _) = go_on(drain.step(Event::Delivered(Ok(()))));
    let (drain, request) =
        go_on(drain.step(Event::Polled { out: Polled::Pending, err: Polled::Pending }));
    assert!(matches!(request, Request::Deliver(StdioLine::Out(text)) if text == "a"));
    let (drain, request) = go_on(drain.step(Event::Delivered(Ok(()))));
    assert!(matches!(request, Request::Poll { out: true, err: true, wait: true }));
    let (drain, request) = go_on(drain.step(Event::Polled { out: Polled::End, err: Polled::Pending }));
    assert!(matches!(request, Request::Poll { out: false, err: true, wait: true }));
    let (drain, request) = go_on(drain.step(Event::Polled { out: Polled::Pending, err: Polled::End }));
    assert!(matches!(request, Request::AwaitExit));
    assert!(matches!(drain.awaiting, Awaiting::Exit));
}

#[test]
fn a_line_given_by_a_stream_that_was_not_asked_is_passed_over() {
    let (drain, _) = Drain::new(command("p"));
    let (drain, _) = go_on(drain.step(Event::Polled { out: line("a"), err: line("x") }));
    let (drain, _) = go_on(drain.step(Event::Delivered(Ok(()))));
    let (drain, request) = go_on(drain.step(Event::Polled { out: line("b"), err: Polled::End }));
    assert!(matches!(request, Request::Deliver(StdioLine::Out(text)) if text == "a"));
    assert!(matches!(drain.out, Polled::Pending));
}

#[test]
fn a_failed_read_ends_the_drain() {
    let (drain, _) = Drain::new(command("reader"));
    match drain.step(Event::Polled { out: Polled::Failed(broken("pipe")), err: Polled::Pending }) {
        Step::Return(Err(failure)) => {
            assert!(matches!(&failure.error, CommandError::Io(error) if error.to_string() == "pipe"));
            assert_eq!(failure.context, "merging async streams");
            assert_eq!(failure.command.exe.0 .0, "reader");
        },
        other => panic!("unexpected step {:?}", other),
    }
}

#[test]
fn a_failed_delivery_ends_the_drain() {
    let (drain, _) = Drain::new(command("talker"));
    let (drain, _) = go_on(drain.step(Event::Polled { out: line("a"), err: Polled::Pending }));
    match drain.step(Event::Delivered(Err(CommandError::NonZeroExit(9)))) {
        Step::Return(Err(failure)) => {
            assert!(matches!(failure.error, CommandError::NonZeroExit(9)));
            assert_eq!(failure.context, "merging async streams");
            assert_eq!(failure.command.exe.0 .0, "talker");
        },
        other => panic!("unexpected step {:?}", other),
    }
}

fn exhausted(program: &str) -> Drain {
    let (drain, _) = Drain::new(command(program));
    let (drain, request) = go_on(drain.step(Event::Polled { out: Polled::End, err: Polled::End }));
    assert!(matches!(request, Request::AwaitExit));
    drain
}

#[test]
fn a_clean_exit_ends_the_drain_well() {
    let ended = Event::Exited(Ok(ExitStatus { code: Some(0), signal: None }));
    assert!(matches!(exhausted("true").step(ended), Step::Return(Ok(()))));
}

#[test]
fn a_bad_exit_is_reported_at_the_exit_stage() {
    let ended = Event::Exited(Ok(ExitStatus { code: Some(1), signal: None }));
    match exhausted("false").step(ended) {
        Step::Return(Err(failure)) => {
            assert!(matches!(failure.error, CommandError::NonZeroExit(1)));
            assert_eq!(failure.context, "checking async exit status");
            assert_eq!(failure.command.exe.0 .0, "false");
        },
        other => panic!("unexpected step {:?}", other),
    }
    let killed = Event::Exited(Ok(ExitStatus { code: None, signal: Some(9) }));
    match exhausted("sleep").step(killed) {
        Step::Return(Err(failure)) => {
            assert!(matches!(failure.error, CommandError::ProcessKilled(9, "SIGKILL")));
            assert_eq!(failure.context, "checking async exit status");
        },
        other => panic!("unexpected step {:?}", other),
    }
}

#[test]
fn an_exit_by_a_signal_without_a_name_is_reported_as_a_kill() {
    let killed = Event::Exited(Ok(ExitStatus { code: None, signal: Some(34) }));
    match exhausted("rt").step(killed) {
        Step::Return(Err(failure)) => {
            assert!(matches!(failure.error, CommandError::ProcessKilled(34, "UNKNOWN")));
            assert_eq!(failure.context, "checking async exit status");
            assert_eq!(failure.command.exe.0 .0, "rt");
        },
        other => panic!("unexpected step {:?}", other),
    }
}

#[test]
fn a_failed_wait_is_reported_at_the_merging_stage() {
    match exhausted("gone").step(Event::Exited(Err(broken("wait")))) {
        Step::Return(Err(failure)) => {
            assert!(matches!(&failure.error, CommandError::Io(error) if error.to_string() == "wait"));
            assert_eq!(failure.context, "merging async streams");
        },
        other => panic!("unexpected step {:?}", other),
    }
}

#[test]
fn a_drain_expects_the_answer_to_its_request() {
    let (drain, _) = Drain::new(command("p"));
    assert!(drain.expects(&Event::Polled { out: Polled::Pending, err: Polled::Pending }));
    assert!(!drain.expects(&Event::Delivered(Ok(()))));
    assert!(!drain.expects(&Event::Exited(Ok(ExitStatus { code: Some(0), signal: None }))));
    let (drain, _) = go_on(drain.step(Event::Polled { out: line("a"), err: Polled::End }));
    assert!(drain.expects(&Event::Delivered(Err(CommandError::NonZeroExit(1)))));
    assert!(!drain.expects(&Event::Polled { out: Polled::End, err: Polled::End }));
    let waiting = exhausted("q");
    assert!(waiting.expects(&Event::Exited(Ok(ExitStatus { code: Some(7), signal: None }))));
    assert!(waiting.expects(&Event::Exited(Ok(ExitStatus { code: None, signal: Some(2) }))));
    assert!(waiting.expects(&Event::Exited(Err(broken("wait")))));
    assert!(waiting.expects(&Event::Exited(Ok(ExitStatus { code: None, signal: Some(64) }))));
    assert!(!waiting.expects(&Event::Exited(Ok(ExitStatus { code: None, signal: None }))));
    assert!(!waiting.expects(&Event::Delivered(Ok(()))));
}

#[test]
fn spawned_keeps_the_command_or_reports_the_failure() {
    let kept = spawned(command("ls"), Ok(())).unwrap();
    assert_eq!(kept.exe.0 .0, "ls");
    let failure = spawned(command("nope"), Err(broken("spawn"))).unwrap_err();
    assert!(matches!(&failure.error, CommandError::Io(error) if error.to_string() == "spawn"));
    assert_eq!(failure.context, "spawning async process");
    assert_eq!(failure.command.exe.0 .0, "nope");
}
