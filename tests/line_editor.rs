use nbsh::readline::{readline, stops_reader, InputEvent, LinePoll, ReadlineError, ReadlineState, Received};

fn typed(s: &mut ReadlineState, text: &str, out: &mut Vec<u8>) {
    for c in text.chars() {
        let r = s.process_event(InputEvent::Character(c), out);
        assert!(matches!(r, Ok(None)));
    }
}

#[test]
fn typing_appends_characters_in_order() {
    let mut s = ReadlineState::new("$ ", true);
    let mut out = Vec::new();
    typed(&mut s, "ls -l", &mut out);
    assert_eq!(s.buffer(), "ls -l");
    assert_eq!(s.cursor(), 5);
    assert_eq!(out, b"ls -l".to_vec());
}

#[test]
fn typing_multibyte_character_echoes_utf8() {
    let mut s = ReadlineState::new("", true);
    let mut out = Vec::new();
    typed(&mut s, "é€", &mut out);
    assert_eq!(s.buffer(), "é€");
    assert_eq!(s.cursor(), 2);
    assert_eq!(out, "é€".as_bytes().to_vec());
}

#[test]
fn enter_completes_the_line() {
    let mut s = ReadlineState::new("$ ", true);
    let mut out = Vec::new();
    typed(&mut s, "echo hi", &mut out);
    let r = s.process_event(InputEvent::Character('\n'), &mut out);
    match r {
        Ok(Some(line)) => assert_eq!(line, "echo hi"),
        _ => panic!("line not completed"),
    }
    assert!(out.ends_with(b"\r\n"));
}

#[test]
fn backspace_at_start_is_noop() {
    let mut s = ReadlineState::new("$ ", true);
    let mut out = Vec::new();
    typed(&mut s, "ab", &mut out);
    s.process_event(InputEvent::ControlKey('a'), &mut out).unwrap();
    let before = out.len();
    let r = s.process_event(InputEvent::Backspace, &mut out);
    assert!(matches!(r, Ok(None)));
    assert_eq!(s.buffer(), "ab");
    assert_eq!(s.cursor(), 0);
    assert_eq!(out.len(), before);
}

#[test]
fn delete_at_end_is_noop() {
    let mut s = ReadlineState::new("$ ", true);
    let mut out = Vec::new();
    typed(&mut s, "ab", &mut out);
    let before = out.len();
    let r = s.process_event(InputEvent::Delete, &mut out);
    assert!(matches!(r, Ok(None)));
    assert_eq!(s.buffer(), "ab");
    assert_eq!(s.cursor(), 2);
    assert_eq!(out.len(), before);
}

#[test]
fn backspace_at_end_erases_last_character() {
    let mut s = ReadlineState::new("", true);
    let mut out = Vec::new();
    typed(&mut s, "abc", &mut out);
    out.clear();
    s.process_event(InputEvent::Backspace, &mut out).unwrap();
    assert_eq!(s.buffer(), "ab");
    assert_eq!(s.cursor(), 2);
    assert_eq!(out, b"\x08 \x08".to_vec());
}

#[test]
fn backspace_mid_line_deletes_before_cursor() {
    let mut s = ReadlineState::new("", true);
    let mut out = Vec::new();
    typed(&mut s, "abc", &mut out);
    s.process_event(InputEvent::ArrowLeft, &mut out).unwrap();
    out.clear();
    s.process_event(InputEvent::Backspace, &mut out).unwrap();
    assert_eq!(s.buffer(), "ac");
    assert_eq!(s.cursor(), 1);
    assert_eq!(out, b"\x08\x1b[P".to_vec());
}

#[test]
fn delete_mid_line_removes_at_cursor() {
    let mut s = ReadlineState::new("", true);
    let mut out = Vec::new();
    typed(&mut s, "abc", &mut out);
    s.process_event(InputEvent::ArrowLeft, &mut out).unwrap();
    s.process_event(InputEvent::ArrowLeft, &mut out).unwrap();
    out.clear();
    s.process_event(InputEvent::Delete, &mut out).unwrap();
    assert_eq!(s.buffer(), "ac");
    assert_eq!(s.cursor(), 1);
    assert_eq!(out, b"\x1b[P".to_vec());
}

#[test]
fn insert_mid_line_shifts_right() {
    let mut s = ReadlineState::new("", true);
    let mut out = Vec::new();
    typed(&mut s, "ac", &mut out);
    s.process_event(InputEvent::ArrowLeft, &mut out).unwrap();
    out.clear();
    s.process_event(InputEvent::Character('b'), &mut out).unwrap();
    assert_eq!(s.buffer(), "abc");
    assert_eq!(s.cursor(), 2);
    assert_eq!(out, b"\x1b[@b".to_vec());
}

#[test]
fn arrows_move_within_bounds() {
    let mut s = ReadlineState::new("", true);
    let mut out = Vec::new();
    typed(&mut s, "ab", &mut out);
    out.clear();
    s.process_event(InputEvent::ArrowRight, &mut out).unwrap();
    assert_eq!(s.cursor(), 2);
    assert!(out.is_empty());
    s.process_event(InputEvent::ArrowLeft, &mut out).unwrap();
    assert_eq!(s.cursor(), 1);
    assert_eq!(out, b"\x1b[D".to_vec());
    out.clear();
    s.process_event(InputEvent::ArrowRight, &mut out).unwrap();
    assert_eq!(s.cursor(), 2);
    assert_eq!(out, b"\x1b[C".to_vec());
}

#[test]
fn ctrl_a_and_ctrl_e_jump_to_line_ends() {
    let mut s = ReadlineState::new("", true);
    let mut out = Vec::new();
    typed(&mut s, "hello world", &mut out);
    out.clear();
    s.process_event(InputEvent::ControlKey('a'), &mut out).unwrap();
    assert_eq!(s.cursor(), 0);
    assert_eq!(out, b"\x1b[11D".to_vec());
    out.clear();
    s.process_event(InputEvent::ControlKey('e'), &mut out).unwrap();
    assert_eq!(s.cursor(), 11);
    assert_eq!(out, b"\x1b[11C".to_vec());
    assert_eq!(s.buffer(), "hello world");
}

#[test]
fn ctrl_u_kills_to_start() {
    let mut s = ReadlineState::new("", true);
    let mut out = Vec::new();
    typed(&mut s, "abcdef", &mut out);
    s.process_event(InputEvent::ArrowLeft, &mut out).unwrap();
    s.process_event(InputEvent::ArrowLeft, &mut out).unwrap();
    out.clear();
    s.process_event(InputEvent::ControlKey('u'), &mut out).unwrap();
    assert_eq!(s.buffer(), "ef");
    assert_eq!(s.cursor(), 0);
    assert_eq!(out, b"\x08\x08\x08\x08\x1b[4P".to_vec());
}

#[test]
fn ctrl_c_discards_line_and_reprompts() {
    let mut s = ReadlineState::new("$ ", true);
    let mut out = Vec::new();
    typed(&mut s, "oops", &mut out);
    out.clear();
    let r = s.process_event(InputEvent::ControlKey('c'), &mut out);
    assert!(matches!(r, Ok(None)));
    assert_eq!(s.buffer(), "");
    assert_eq!(s.cursor(), 0);
    assert_eq!(out, b"\r\n$ ".to_vec());
}

#[test]
fn ctrl_d_on_empty_line_ends_input() {
    let mut s = ReadlineState::new("$ ", true);
    let mut out = Vec::new();
    let r = s.process_event(InputEvent::ControlKey('d'), &mut out);
    assert!(matches!(r, Err(ReadlineError::EndOfInput)));
    assert_eq!(out, b"\r\n".to_vec());
}

#[test]
fn ctrl_d_on_nonempty_line_is_noop() {
    let mut s = ReadlineState::new("$ ", true);
    let mut out = Vec::new();
    typed(&mut s, "x", &mut out);
    out.clear();
    let r = s.process_event(InputEvent::ControlKey('d'), &mut out);
    assert!(matches!(r, Ok(None)));
    assert_eq!(s.buffer(), "x");
    assert!(out.is_empty());
}

#[test]
fn echo_off_hides_characters_but_not_newline() {
    let mut s = ReadlineState::new("pw: ", false);
    let mut out = Vec::new();
    typed(&mut s, "secret", &mut out);
    assert!(out.is_empty());
    let r = s.process_event(InputEvent::Character('\n'), &mut out);
    match r {
        Ok(Some(line)) => assert_eq!(line, "secret"),
        _ => panic!("line not completed"),
    }
    assert_eq!(out, b"\r\n".to_vec());
}

#[test]
fn tab_and_other_events_are_ignored() {
    let mut s = ReadlineState::new("", true);
    let mut out = Vec::new();
    typed(&mut s, "a", &mut out);
    out.clear();
    s.process_event(InputEvent::Character('\t'), &mut out).unwrap();
    s.process_event(InputEvent::Other, &mut out).unwrap();
    s.process_event(InputEvent::ControlKey('z'), &mut out).unwrap();
    assert_eq!(s.buffer(), "a");
    assert_eq!(s.cursor(), 1);
    assert!(out.is_empty());
}

#[test]
fn echo_char_converts_newline() {
    let s = ReadlineState::new("", true);
    let mut out = Vec::new();
    s.echo_char('\n', &mut out);
    s.echo_char('x', &mut out);
    assert_eq!(out, b"\r\nx".to_vec());
}

#[test]
fn prompt_writes_prompt_bytes() {
    let s = ReadlineState::new("λ> ", true);
    let mut out = Vec::new();
    s.prompt(&mut out);
    assert_eq!(out, "λ> ".as_bytes().to_vec());
}

#[test]
fn readline_writes_prompt_once() {
    let mut r = readline("$ ", true);
    let mut out = Vec::new();
    assert_eq!(r.poll(Received::Empty, &mut out).unwrap(), LinePoll::NotReady);
    assert_eq!(out, b"$ ".to_vec());
    assert_eq!(r.poll(Received::Event(InputEvent::Character('l')), &mut out).unwrap(), LinePoll::NotReady);
    assert_eq!(r.poll(Received::Event(InputEvent::Character('s')), &mut out).unwrap(), LinePoll::NotReady);
    let done = r.poll(Received::Event(InputEvent::Character('\n')), &mut out).unwrap();
    assert_eq!(done, LinePoll::Ready("ls".to_string()));
    assert_eq!(out, b"$ ls\r\n".to_vec());
}

#[test]
fn readline_ctrl_d_on_empty_line_is_end_of_input() {
    let mut r = readline("$ ", true);
    let mut out = Vec::new();
    let res = r.poll(Received::Event(InputEvent::ControlKey('d')), &mut out);
    assert_eq!(res, Err(ReadlineError::EndOfInput));
}

#[test]
fn readline_closed_channel_fails() {
    let mut r = readline("$ ", true);
    let mut out = Vec::new();
    let res = r.poll(Received::Closed, &mut out);
    assert_eq!(res, Err(ReadlineError::ChannelClosed));
}

#[test]
fn reader_stops_after_enter_or_quit() {
    assert!(stops_reader(InputEvent::Character('\n'), false));
    assert!(stops_reader(InputEvent::Character('a'), true));
    assert!(!stops_reader(InputEvent::Character('a'), false));
}
