use nbsh::eval::{CommandEvent, EvalError, ExitStatus, Launch, SourcePoll};
use nbsh::parser::ParseError;
use nbsh::state::{Routed, State, StateError};

fn routed_events(r: Result<Routed, StateError>) -> Vec<CommandEvent> {
    match r {
        Ok(Routed::Events(evs)) => evs,
        _ => panic!("expected events"),
    }
}

#[test]
fn false_runs_starts_exits_nonzero_and_is_removed() {
    let mut st = State::new();
    match st.eval(1, "false") {
        Ok(Launch::External(cmd, args)) => {
            assert_eq!(cmd, "false");
            assert!(args.is_empty());
        }
        _ => panic!("false is an executable"),
    }
    let mut seen = Vec::new();
    seen.extend(routed_events(st.route(
        1,
        SourcePoll::Event(CommandEvent::Start("false".to_string(), vec![])),
    )));
    assert!(matches!(st.route(1, SourcePoll::NotReady), Ok(Routed::Idle)));
    seen.extend(routed_events(
        st.route(1, SourcePoll::Event(CommandEvent::Exit(ExitStatus::Exited(1)))),
    ));
    assert_eq!(
        seen,
        vec![
            CommandEvent::Start("false".to_string(), vec![]),
            CommandEvent::Exit(ExitStatus::Exited(1)),
        ]
    );
    assert_eq!(st.output_of(1), Some(vec![]));
    assert_eq!(st.status_of(1), Some(Some(ExitStatus::Exited(1))));
    assert!(!ExitStatus::Exited(1).success());
    assert!(matches!(st.route(1, SourcePoll::End), Ok(Routed::Removed)));
    assert!(!st.contains(1));
    assert!(st.is_empty());
}

#[test]
fn empty_line_creates_no_session() {
    let mut st = State::new();
    match st.eval(1, "") {
        Err(StateError::Eval { source: EvalError::Parser { source, .. } }) => {
            assert_eq!(source, ParseError::CommandRequired)
        }
        _ => panic!("expected command required"),
    }
    assert!(st.is_empty());
    assert!(st.ids().is_empty());
}

#[test]
fn duplicate_session_id_is_refused() {
    let mut st = State::new();
    st.eval(3, "sleep 1").unwrap();
    match st.eval(3, "ls") {
        Err(StateError::DuplicateSessionId { idx }) => assert_eq!(idx, 3),
        _ => panic!("expected a duplicate id"),
    }
    assert_eq!(st.ids(), vec![3]);
}

#[test]
fn untracked_session_is_invalid() {
    let mut st = State::new();
    match st.route(7, SourcePoll::NotReady) {
        Err(StateError::InvalidCommandIndex { idx }) => assert_eq!(idx, 7),
        _ => panic!("expected an invalid index"),
    }
    assert!(matches!(
        st.command_output(7, b"x"),
        Err(StateError::InvalidCommandIndex { idx: 7 })
    ));
}

#[test]
fn two_sessions_interleave_and_keep_their_own_order() {
    let mut st = State::new();
    st.eval(1, "a").unwrap();
    st.eval(2, "b x").unwrap();
    let mut ids = st.ids();
    ids.sort();
    assert_eq!(ids, vec![1, 2]);
    let s1 = routed_events(st.route(1, SourcePoll::Event(CommandEvent::Output(b"1a".to_vec()))));
    let s2 = routed_events(st.route(2, SourcePoll::Event(CommandEvent::Output(b"2a".to_vec()))));
    assert_eq!(s1[0], CommandEvent::Start("a".to_string(), vec![]));
    assert_eq!(s2[0], CommandEvent::Start("b".to_string(), vec!["x".to_string()]));
    routed_events(st.route(1, SourcePoll::Event(CommandEvent::Output(b"1b".to_vec()))));
    routed_events(st.route(2, SourcePoll::Event(CommandEvent::Exit(ExitStatus::Exited(0)))));
    routed_events(st.route(1, SourcePoll::Event(CommandEvent::Exit(ExitStatus::Exited(2)))));
    assert_eq!(st.output_of(1), Some(b"1a1b".to_vec()));
    assert_eq!(st.output_of(2), Some(b"2a".to_vec()));
    assert_eq!(st.name_of(1), Some(Some("a".to_string())));
    assert_eq!(st.name_of(2), Some(Some("b".to_string())));
    assert_eq!(st.status_of(1), Some(Some(ExitStatus::Exited(2))));
    assert_eq!(st.status_of(2), Some(Some(ExitStatus::Exited(0))));
    assert!(matches!(st.route(2, SourcePoll::End), Ok(Routed::Removed)));
    assert!(st.contains(1));
    assert!(!st.contains(2));
}

#[test]
fn failing_session_is_removed_others_stay() {
    let mut st = State::new();
    st.eval(1, "a").unwrap();
    st.eval(2, "b").unwrap();
    routed_events(st.route(1, SourcePoll::Event(CommandEvent::Exit(ExitStatus::Exited(0)))));
    assert!(matches!(
        st.route(1, SourcePoll::Event(CommandEvent::Output(vec![1]))),
        Err(StateError::Eval { source: EvalError::OutOfOrder { .. } })
    ));
    assert!(!st.contains(1));
    assert!(st.contains(2));
}

#[test]
fn record_updates_by_hand() {
    let mut st = State::new();
    st.eval(4, "x").unwrap();
    assert_eq!(st.name_of(4), Some(None));
    st.command_start(4, "x", &["y".to_string()]).unwrap();
    st.command_output(4, b"out").unwrap();
    st.command_exit(4, ExitStatus::Signaled(9)).unwrap();
    assert_eq!(st.name_of(4), Some(Some("x".to_string())));
    assert_eq!(st.output_of(4), Some(b"out".to_vec()));
    assert_eq!(st.status_of(4), Some(Some(ExitStatus::Signaled(9))));
    assert_eq!(st.output_of(5), None);
}

#[test]
fn routed_progress() {
    assert!(!Routed::Idle.progressed());
    assert!(Routed::Removed.progressed());
}

#[test]
fn drive_routes_every_poll_and_isolates_failures() {
    let mut st = State::new();
    st.eval(1, "a").unwrap();
    st.eval(2, "b").unwrap();
    let pass = st.drive(vec![
        (1, SourcePoll::Event(CommandEvent::Output(b"x\r\n".to_vec()))),
        (2, SourcePoll::NotReady),
        (9, SourcePoll::NotReady),
    ]);
    assert!(pass.progress);
    assert_eq!(
        pass.printed,
        vec![
            (1, CommandEvent::Start("a".to_string(), vec![])),
            (1, CommandEvent::Output(b"x\r\n".to_vec())),
        ]
    );
    assert_eq!(pass.errors.len(), 1);
    assert!(matches!(pass.errors[0], StateError::InvalidCommandIndex { idx: 9 }));
    let pass = st.drive(vec![(1, SourcePoll::NotReady), (2, SourcePoll::NotReady)]);
    assert!(!pass.progress);
    assert!(pass.printed.is_empty());
    let pass = st.drive(vec![
        (1, SourcePoll::Event(CommandEvent::Start("a".to_string(), vec![]))),
        (2, SourcePoll::End),
    ]);
    assert!(pass.progress);
    assert_eq!(pass.errors.len(), 1);
    assert_eq!(pass.printed, vec![(2, CommandEvent::Start("b".to_string(), vec![]))]);
    assert!(!st.contains(1));
    assert!(st.contains(2));
}
