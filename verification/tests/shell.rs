use indexmap::IndexMap;
use std::io::BufRead;
use super_process::base::{CommandBase, SetupError};
use super_process::exe::{Argv, Command, CommandError, EnvModifications, Exe};
use super_process::fs::File;
use super_process::sh::{EnvAfterScript, ShellError, ShellScript, ShellSource};
use super_process::sync::RawOutput;
use super_process::Error;

fn exe(path: &str) -> Exe {
    Exe(File(path.to_string()))
}

fn bindings(stdout: &[u8]) -> Vec<(String, String)> {
    let env: EnvModifications = EnvAfterScript::extract_env_bindings(stdout.to_vec()).unwrap();
    env.0.iter().map(|(name, value)| (name.clone(), value.clone())).collect()
}

fn pairs(items: &[(&str, &str)]) -> Vec<(String, String)> {
    items.iter().map(|(name, value)| (name.to_string(), value.to_string())).collect()
}

#[test]
fn into_source_appends_the_env_trailer() {
    let request = EnvAfterScript { source: ShellSource { contents: b"export A=3".to_vec() } };
    assert_eq!(request.into_source().contents, b"export A=3\n\nexec env");
    let empty = EnvAfterScript { source: ShellSource { contents: Vec::new() } };
    assert_eq!(empty.into_source().contents, b"\n\nexec env");
}

#[test]
fn into_script_wraps_the_path_that_was_written() {
    let source = ShellSource { contents: b"echo hey".to_vec() };
    let script = source.into_script(Ok("/tmp/abc".to_string())).unwrap();
    assert_eq!(script.script_path.0 .0, "/tmp/abc");
}

#[test]
fn into_script_passes_a_write_failure_on() {
    let source = ShellSource { contents: Vec::new() };
    let failed = Err(std::io::Error::new(std::io::ErrorKind::PermissionDenied, "read-only"));
    match source.into_script(failed) {
        Err(ShellError::Io(error)) => assert_eq!(error.kind(), std::io::ErrorKind::PermissionDenied),
        other => panic!("unexpected result {:?}", other),
    }
}

#[test]
fn setup_command_runs_sh_on_the_script() {
    let script = ShellScript { script_path: exe("/tmp/s") };
    let command = script.with_command(Command::default()).setup_command().unwrap();
    assert_eq!(command.exe.0 .0, "sh");
    assert_eq!(command.argv.0, vec!["/tmp/s".to_string()]);
}

#[test]
fn setup_command_passes_the_base_command_through() {
    let base = Command {
        exe: exe("cargo"),
        argv: Argv(vec!["build".to_string(), "--release".to_string()]),
        ..Command::default()
    };
    let invocation = ShellScript { script_path: exe("/tmp/s") }.with_command(base);
    assert_eq!(invocation.script.script_path.0 .0, "/tmp/s");
    assert_eq!(invocation.base.exe.0 .0, "cargo");
    let command = invocation.setup_command().unwrap();
    assert_eq!(command.exe.0 .0, "sh");
    assert_eq!(
        command.argv.0,
        vec!["/tmp/s".to_string(), "cargo".to_string(), "build".to_string(), "--release".to_string()]
    );
}

#[test]
fn into_command_builds_the_command_line_of_a_written_script() {
    let command = EnvAfterScript::into_command(Ok(ShellScript { script_path: exe("/tmp/env") })).unwrap();
    assert_eq!(command.exe.0 .0, "sh");
    assert_eq!(command.argv.0, vec!["/tmp/env".to_string()]);
    assert!(command.wd.is_none());
    assert!(command.env.0.is_empty());
}

#[test]
fn into_command_reports_a_script_that_was_not_written() {
    let failed = Err(ShellError::Io(std::io::Error::new(std::io::ErrorKind::Other, "disk full")));
    let failure = EnvAfterScript::into_command(failed).unwrap_err();
    assert_eq!(failure.context, "when writing env script to file");
    assert!(matches!(&failure.error, ShellError::Io(error) if error.to_string() == "disk full"));
}

#[test]
fn extract_stdout_gives_what_the_script_printed() {
    let raw = RawOutput { stdout: b"A=3\n".to_vec(), stderr: b"noise".to_vec() };
    assert_eq!(EnvAfterScript::extract_stdout(Ok(raw)).unwrap(), b"A=3\n");
}

#[test]
fn extract_stdout_reports_a_failed_run() {
    let inner = CommandError::NonZeroExit(2).command_with_context(Command::default(), "x".to_string());
    let failure = EnvAfterScript::extract_stdout(Err(inner)).unwrap_err();
    assert_eq!(failure.context, "when extracting env bindings");
    match failure.error {
        ShellError::Command(wrapped) => {
            assert!(matches!(wrapped.error, CommandError::NonZeroExit(2)));
            assert_eq!(wrapped.context, "x");
        },
        other => panic!("unexpected error {:?}", other),
    }
}

#[test]
fn env_dump_with_one_variable() {
    assert_eq!(bindings(b"A=3\n"), pairs(&[("A", "3")]));
    assert_eq!(bindings(b"A=3"), pairs(&[("A", "3")]));
}

#[test]
fn env_dump_splits_at_the_first_equals_sign() {
    assert_eq!(
        bindings(b"PATH=/bin:/usr/bin\nLS_COLORS=a=1:b=2\nEMPTY=\n=odd\n"),
        pairs(&[("PATH", "/bin:/usr/bin"), ("LS_COLORS", "a=1:b=2"), ("EMPTY", ""), ("", "odd")])
    );
}

#[test]
fn env_dump_skips_lines_without_an_equals_sign() {
    assert_eq!(bindings(b"A=1\ncontinued\n\nB=2\n"), pairs(&[("A", "1"), ("B", "2")]));
    assert!(bindings(b"").is_empty());
    assert!(bindings(b"\n\n\n").is_empty());
    assert!(bindings(b"nothing here").is_empty());
}

#[test]
fn env_dump_keeps_first_place_and_last_value_of_a_name() {
    assert_eq!(bindings(b"A=1\nB=2\nA=3\n"), pairs(&[("A", "3"), ("B", "2")]));
}

#[test]
fn env_dump_drops_a_carriage_return_before_the_newline_only() {
    assert_eq!(bindings(b"A=1\r\nB=2\r"), pairs(&[("A", "1"), ("B", "2\r")]));
    assert_eq!(bindings(b"A=1\r\r\nB=\r\n\r\n"), pairs(&[("A", "1\r"), ("B", "")]));
}

#[test]
fn env_dump_holds_text_beyond_ascii() {
    let dump = "NAME=caf\u{e9}\n\u{4e2d}=\u{6587}=\u{1f600}\n";
    assert_eq!(
        bindings(dump.as_bytes()),
        pairs(&[("NAME", "caf\u{e9}"), ("\u{4e2d}", "\u{6587}=\u{1f600}")])
    );
}

#[test]
fn env_dump_fails_at_the_first_line_that_is_not_text() {
    let dump = b"A=1\nB=\xff\nC=\xfe\xfe\n".to_vec();
    let failure = EnvAfterScript::extract_env_bindings(dump).unwrap_err();
    assert_eq!(failure.context, "when extracting stdout line");
    let expected = std::str::from_utf8(b"B=\xff").unwrap_err();
    assert!(matches!(failure.error, ShellError::Utf8(error) if error == expected));
    let without_equals = EnvAfterScript::extract_env_bindings(b"ok=1\n\xc3\n".to_vec()).unwrap_err();
    assert!(matches!(without_equals.error, ShellError::Utf8(_)));
}

/// The variables of a dump as the line reader of the standard library and
/// an `IndexMap` give them, or `None` where a line is not text.
fn read_by_lines(stdout: &[u8]) -> Option<Vec<(String, String)>> {
    let mut map: IndexMap<String, String> = IndexMap::new();
    for line in stdout.lines() {
        let line = line.ok()?;
        if let Some(at) = line.find('=') {
            map.insert(line[..at].to_string(), line[at + 1..].to_string());
        }
    }
    Some(map.into_iter().collect())
}

#[test]
fn env_dump_agrees_with_the_line_reader_on_every_short_input() {
    let alphabet: [u8; 7] = [b'a', b'b', b'=', b'\n', b'\r', 0xc3, 0xa9];
    let mut inputs: Vec<Vec<u8>> = vec![Vec::new()];
    let mut start = 0;
    for _ in 0..5 {
        let end = inputs.len();
        for index in start..end {
            for byte in alphabet {
                let mut longer = inputs[index].clone();
                longer.push(byte);
                inputs.push(longer);
            }
        }
        start = end;
    }
    assert_eq!(inputs.len(), 1 + 7 + 49 + 343 + 2401 + 16807);
    for input in inputs {
        let expected = read_by_lines(&input);
        match EnvAfterScript::extract_env_bindings(input.clone()) {
            Ok(env) => {
                let found: Vec<(String, String)> =
                    env.0.iter().map(|(name, value)| (name.clone(), value.clone())).collect();
                assert_eq!(Some(found), expected, "input {:?}", input);
            },
            Err(failure) => {
                assert_eq!(None, expected, "input {:?}", input);
                assert_eq!(failure.context, "when extracting stdout line");
                assert!(matches!(failure.error, ShellError::Utf8(_)));
            },
        }
    }
}

#[test]
fn errors_convert_into_the_crate_error() {
    assert!(matches!(Error::from(CommandError::NonZeroExit(1)), Error::Exe(CommandError::NonZeroExit(1))));
    let io = std::io::Error::new(std::io::ErrorKind::Other, "x");
    assert!(matches!(Error::from(SetupError::from(io)), Error::Setup(SetupError::Io(_))));
    let io = std::io::Error::new(std::io::ErrorKind::Other, "y");
    assert!(matches!(Error::from(ShellError::from(io)), Error::Sh(ShellError::Io(_))));
}

#[test]
fn setup_errors_nest_with_their_stage() {
    let io = std::io::Error::new(std::io::ErrorKind::Other, "inner");
    let wrapped = SetupError::Io(io).with_context("first stage".to_string());
    assert_eq!(wrapped.context, "first stage");
    let outer = SetupError::Inner(Box::new(wrapped)).with_context("second stage".to_string());
    assert_eq!(outer.context, "second stage");
    match outer.error {
        SetupError::Inner(inner) => {
            assert_eq!(inner.context, "first stage");
            assert!(matches!(inner.error, SetupError::Io(_)));
        },
        other => panic!("unexpected error {:?}", other),
    }
    let io = std::io::Error::new(std::io::ErrorKind::Other, "z");
    let shell = ShellError::from(SetupError::Io(io).with_context("setup".to_string()));
    let shell = shell.with_context("shell".to_string());
    assert_eq!(shell.context, "shell");
    assert!(matches!(shell.error, ShellError::Setup(inner) if inner.context == "setup"));
}
