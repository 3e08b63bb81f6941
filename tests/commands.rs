use nbsh::builtins::{cd, cd_target, exec, BuiltinError};
use nbsh::eval::{eval, CommandEvent, EvalError, EvalPoll, ExitStatus, Launch, SourcePoll};
use nbsh::parser::{parse, ParseError};
use nbsh::process::ProcessError;

fn strings(v: &[&str]) -> Vec<String> {
    v.iter().map(|s| s.to_string()).collect()
}

#[test]
fn parse_splits_on_whitespace() {
    let (cmd, args) = parse("  ls   -l\t/tmp \n").unwrap();
    assert_eq!(cmd, "ls");
    assert_eq!(args, strings(&["-l", "/tmp"]));
}

#[test]
fn parse_single_word() {
    let (cmd, args) = parse("false").unwrap();
    assert_eq!(cmd, "false");
    assert!(args.is_empty());
}

#[test]
fn parse_empty_line_requires_command() {
    assert_eq!(parse(""), Err(ParseError::CommandRequired));
    assert_eq!(parse(" \t  "), Err(ParseError::CommandRequired));
}

#[test]
fn parse_unicode_whitespace() {
    let (cmd, args) = parse("a\u{3000}b\u{a0}c").unwrap();
    assert_eq!(cmd, "a");
    assert_eq!(args, strings(&["b", "c"]));
}

#[test]
fn exec_rejects_unknown_builtin() {
    match exec("ls", &[]) {
        Err(BuiltinError::UnknownBuiltin { cmd }) => assert_eq!(cmd, "ls"),
        _ => panic!("ls is no builtin"),
    }
}

#[test]
fn builtin_stream_starts_runs_and_ends() {
    let dir = "/tmp".to_string();
    let mut b = exec("cd", &[dir.clone()]).unwrap();
    match b.poll(None) {
        Ok(Some(CommandEvent::Start(cmd, args))) => {
            assert_eq!(cmd, "cd");
            assert_eq!(args, vec![dir.clone()]);
        }
        _ => panic!("expected the start"),
    }
    match b.poll(None) {
        Ok(Some(CommandEvent::Exit(status))) => assert_eq!(status, ExitStatus::Exited(0)),
        _ => panic!("expected the exit"),
    }
    assert!(matches!(b.poll(None), Ok(None)));
}

#[test]
fn cd_changes_directory_and_too_many_arguments_do_not() {
    let tmp = std::path::PathBuf::from("/tmp");
    cd(&["/tmp".to_string()], None).unwrap();
    assert_eq!(nix::unistd::getcwd().unwrap(), tmp);
    let r = cd(&strings(&["/", "/usr"]), None);
    match r {
        Err(BuiltinError::TooManyParams { cmd, args, expected }) => {
            assert_eq!(cmd, "cd");
            assert_eq!(args, strings(&["/", "/usr"]));
            assert_eq!(expected, 1);
        }
        _ => panic!("expected too many parameters"),
    }
    assert_eq!(nix::unistd::getcwd().unwrap(), tmp);
}

#[test]
fn cd_without_argument_uses_home() {
    cd(&[], Some("/".to_string())).unwrap();
    assert_eq!(nix::unistd::getcwd().unwrap(), std::path::PathBuf::from("/"));
    assert!(matches!(cd(&[], None), Err(BuiltinError::ChdirUnknownHome)));
}

#[test]
fn cd_target_picks_argument_then_home() {
    assert_eq!(cd_target(&strings(&["/a"]), Some("/h".to_string())).unwrap(), "/a");
    assert_eq!(cd_target(&[], Some("/h".to_string())).unwrap(), "/h");
}

#[test]
fn cd_to_missing_directory_reports_it() {
    match cd(&strings(&["/no/such/directory/here"]), None) {
        Err(BuiltinError::Chdir { dir, .. }) => assert_eq!(dir, "/no/such/directory/here"),
        _ => panic!("expected a chdir failure"),
    }
}

#[test]
fn eval_of_empty_line_fails_to_parse() {
    let mut e = eval("");
    match e.start() {
        Err(EvalError::Parser { line, source }) => {
            assert_eq!(line, "");
            assert_eq!(source, ParseError::CommandRequired);
        }
        _ => panic!("expected a parse error"),
    }
}

#[test]
fn eval_resolves_builtin_and_executable() {
    assert!(matches!(eval("cd /tmp").start(), Ok(Launch::Builtin(_))));
    match eval("false").start() {
        Ok(Launch::External(cmd, args)) => {
            assert_eq!(cmd, "false");
            assert!(args.is_empty());
        }
        _ => panic!("expected an executable"),
    }
}

#[test]
fn eval_set_raw() {
    let e = eval("ls").set_raw(false);
    assert!(!e.raw());
    assert!(eval("ls").raw());
}

#[test]
fn eval_synthesizes_start_before_output() {
    let mut e = eval("echo hi");
    e.start().unwrap();
    match e.poll(SourcePoll::Event(CommandEvent::Output(b"hi\r\n".to_vec()))) {
        Ok(EvalPoll::Events(evs)) => assert_eq!(
            evs,
            vec![
                CommandEvent::Start("echo".to_string(), strings(&["hi"])),
                CommandEvent::Output(b"hi\r\n".to_vec()),
            ]
        ),
        _ => panic!("expected events"),
    }
}

#[test]
fn eval_drops_source_start_and_keeps_order() {
    let mut e = eval("false");
    e.start().unwrap();
    match e.poll(SourcePoll::Event(CommandEvent::Start("false".to_string(), vec![]))) {
        Ok(EvalPoll::Events(evs)) => {
            assert_eq!(evs, vec![CommandEvent::Start("false".to_string(), vec![])])
        }
        _ => panic!("expected the start"),
    }
    assert!(matches!(e.poll(SourcePoll::NotReady), Ok(EvalPoll::NotReady)));
    match e.poll(SourcePoll::Event(CommandEvent::Exit(ExitStatus::Exited(1)))) {
        Ok(EvalPoll::Events(evs)) => {
            assert_eq!(evs, vec![CommandEvent::Exit(ExitStatus::Exited(1))])
        }
        _ => panic!("expected the exit"),
    }
    match e.poll(SourcePoll::Event(CommandEvent::Output(vec![1]))) {
        Err(EvalError::OutOfOrder { cmd }) => assert_eq!(cmd, "false"),
        _ => panic!("output after exit is out of order"),
    }
    assert!(matches!(e.poll(SourcePoll::End), Ok(EvalPoll::End)));
}

#[test]
fn eval_second_start_is_out_of_order() {
    let mut e = eval("true");
    e.start().unwrap();
    e.poll(SourcePoll::NotReady).unwrap();
    e.poll(SourcePoll::Event(CommandEvent::Start("true".to_string(), vec![]))).unwrap();
    assert!(matches!(
        e.poll(SourcePoll::Event(CommandEvent::Start("true".to_string(), vec![]))),
        Err(EvalError::OutOfOrder { .. })
    ));
}

#[test]
fn eval_end_before_start_delivers_start() {
    let mut e = eval("true");
    e.start().unwrap();
    match e.poll(SourcePoll::End) {
        Ok(EvalPoll::Events(evs)) => {
            assert_eq!(evs, vec![CommandEvent::Start("true".to_string(), vec![])])
        }
        _ => panic!("expected the start"),
    }
    assert!(matches!(e.poll(SourcePoll::End), Ok(EvalPoll::End)));
}

#[test]
fn eval_reports_source_failures() {
    let mut e = eval("cat");
    e.start().unwrap();
    match e.poll(SourcePoll::ProcessFailed(ProcessError::IOError("boom".to_string()))) {
        Err(EvalError::ProcessExecution { cmd, source }) => {
            assert_eq!(cmd, "cat");
            assert_eq!(source, ProcessError::IOError("boom".to_string()));
        }
        _ => panic!("expected a process failure"),
    }
    match e.poll(SourcePoll::BuiltinFailed(BuiltinError::ChdirUnknownHome)) {
        Err(EvalError::BuiltinExecution { cmd, source }) => {
            assert_eq!(cmd, "cat");
            assert!(matches!(source, BuiltinError::ChdirUnknownHome));
        }
        _ => panic!("expected a builtin failure"),
    }
}

#[test]
fn exit_status_success() {
    assert!(ExitStatus::Exited(0).success());
    assert!(!ExitStatus::Exited(1).success());
    assert!(!ExitStatus::Signaled(9).success());
}
