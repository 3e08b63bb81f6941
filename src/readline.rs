use vstd::prelude::*;
use vstd::utf8::{encode_scalar, encode_utf8};

use crate::newline::LF;
use crate::term::{
    csi, echoed, make_csi, push_all, push_csi, push_echoed, push_utf8, utf8_bytes, BS,
};

verus! {

/// A keystroke, as the terminal input layer reports it.
#[derive(Clone, Copy, Debug, PartialEq, Eq, Structural)]
pub enum InputEvent {
    /// A character key; `'\n'` is Enter.
    Character(char),
    /// A letter pressed with Ctrl held.
    ControlKey(char),
    Backspace,
    Delete,
    ArrowLeft,
    ArrowRight,
    /// Anything else (mouse events, function keys, ...).
    Other,
}

/// Why reading a line stopped without one.
#[derive(Clone, Copy, Debug, PartialEq, Eq, Structural)]
pub enum ReadlineError {
    /// Ctrl-D on an empty line.
    EndOfInput,
    /// The keystroke channel was closed by its sender.
    ChannelClosed,
}

/// The abstract state of a line editor.
pub struct EditorView {
    pub prompt: Seq<char>,
    pub echo: bool,
    pub buffer: Seq<char>,
    pub cursor: nat,
    pub wrote_prompt: bool,
}

/// True for a character that is inserted into the line (Enter and Tab are not).
pub open spec fn inserts(c: char) -> bool {
    c != '\n' && c != '\t'
}

/// The buffer after `e`, from buffer `buf` with the cursor at `cur`.
pub open spec fn next_buffer(buf: Seq<char>, cur: int, e: InputEvent) -> Seq<char> {
    match e {
        InputEvent::Character(c) => if inserts(c) {
            buf.insert(cur, c)
        } else {
            buf
        },
        InputEvent::ControlKey(k) => if k == 'c' {
            seq![]
        } else if k == 'u' {
            buf.subrange(cur, buf.len() as int)
        } else {
            buf
        },
        InputEvent::Backspace => if cur > 0 {
            buf.remove(cur - 1)
        } else {
            buf
        },
        InputEvent::Delete => if cur < buf.len() {
            buf.remove(cur)
        } else {
            buf
        },
        _ => buf,
    }
}

/// The cursor after `e`, from buffer `buf` with the cursor at `cur`.
pub open spec fn next_cursor(buf: Seq<char>, cur: int, e: InputEvent) -> int {
    match e {
        InputEvent::Character(c) => if inserts(c) {
            cur + 1
        } else {
            cur
        },
        InputEvent::ControlKey(k) => if k == 'a' || k == 'c' || k == 'u' {
            0
        } else if k == 'e' {
            buf.len() as int
        } else {
            cur
        },
        InputEvent::Backspace | InputEvent::ArrowLeft => if cur > 0 {
            cur - 1
        } else {
            cur
        },
        InputEvent::ArrowRight => if cur < buf.len() {
            cur + 1
        } else {
            cur
        },
        _ => cur,
    }
}

/// True when `e` completes the line.
pub open spec fn completes(e: InputEvent) -> bool {
    e == InputEvent::Character('\n')
}

/// True when `e` ends the input: Ctrl-D on an empty buffer.
pub open spec fn ends_input(buf: Seq<char>, e: InputEvent) -> bool {
    e == InputEvent::ControlKey('d') && buf.len() == 0
}

/// The bytes sent to the terminal for `e`.
pub open spec fn key_output(
    prompt: Seq<char>,
    echo: bool,
    buf: Seq<char>,
    cur: int,
    e: InputEvent,
) -> Seq<u8> {
    let newline = echoed(seq![LF], echo);
    match e {
        InputEvent::Character(c) => if c == '\n' {
            newline
        } else if c == '\t' {
            seq![]
        } else if cur != buf.len() {
            echoed(csi(None, 64u8), echo) + echoed(encode_scalar(c as u32), echo)
        } else {
            echoed(encode_scalar(c as u32), echo)
        },
        InputEvent::ControlKey(k) => if k == 'a' && cur != 0 {
            echoed(csi(Some(cur as nat), 68u8), echo)
        } else if k == 'c' {
            newline + encode_utf8(prompt)
        } else if k == 'd' && buf.len() == 0 {
            newline
        } else if k == 'e' && cur != buf.len() {
            echoed(csi(Some((buf.len() - cur) as nat), 67u8), echo)
        } else if k == 'u' && cur != 0 {
            echoed(Seq::new(cur as nat, |i: int| BS) + csi(Some(cur as nat), 80u8), echo)
        } else {
            seq![]
        },
        InputEvent::Backspace => if cur == 0 {
            seq![]
        } else if cur == buf.len() {
            echoed(seq![BS, 32u8, BS], echo)
        } else {
            echoed(seq![BS] + csi(None, 80u8), echo)
        },
        InputEvent::Delete => if cur < buf.len() {
            echoed(csi(None, 80u8), echo)
        } else {
            seq![]
        },
        InputEvent::ArrowLeft => if cur > 0 {
            csi(None, 68u8)
        } else {
            seq![]
        },
        InputEvent::ArrowRight => if cur < buf.len() {
            csi(None, 67u8)
        } else {
            seq![]
        },
        InputEvent::Other => seq![],
    }
}

/// The editor state after `e` (Enter and end of input leave it as it is).
pub open spec fn edit(s: EditorView, e: InputEvent) -> EditorView {
    EditorView {
        buffer: next_buffer(s.buffer, s.cursor as int, e),
        cursor: next_cursor(s.buffer, s.cursor as int, e) as nat,
        ..s
    }
}

/// The editor state after each of `es` in turn.
pub open spec fn edit_all(s: EditorView, es: Seq<InputEvent>) -> EditorView
    decreases es.len(),
{
    if es.len() == 0 {
        s
    } else {
        edit(edit_all(s, es.drop_last()), es.last())
    }
}

/// The state of the line being edited: prompt, echo flag, buffer, cursor
/// (a character index into the buffer) and whether the prompt was written.
pub struct ReadlineState {
    prompt: String,
    echo: bool,
    buffer: Vec<char>,
    cursor: usize,
    wrote_prompt: bool,
}

impl View for ReadlineState {
    type V = EditorView;

    closed spec fn view(&self) -> EditorView {
        EditorView {
            prompt: self.prompt@,
            echo: self.echo,
            buffer: self.buffer@,
            cursor: self.cursor as nat,
            wrote_prompt: self.wrote_prompt,
        }
    }
}

/// Relies on `String::push`: appends one character.
#[verifier::external_body]
fn push_char(s: &mut String, c: char)
    ensures
        final(s)@ == old(s)@.push(c),
{
    s.push(c)
}

/// Returns the characters of `v` as a string.
fn chars_to_string(v: &Vec<char>) -> (r: String)
    ensures
        r@ == v@,
{
    let mut r = String::new();
    let mut i: usize = 0;
    while i < v.len()
        invariant
            i <= v@.len(),
            r@ == v@.subrange(0, i as int),
        decreases v@.len() - i,
    {
        assert(v@.subrange(0, i as int + 1) == v@.subrange(0, i as int).push(v@[i as int]));
        push_char(&mut r, v[i]);
        i = i + 1;
    }
    assert(v@.subrange(0, v@.len() as int) == v@);
    r
}

impl ReadlineState {
    /// The editor's invariant: the cursor lies within the buffer.
    pub open spec fn wf(&self) -> bool {
        self@.cursor <= self@.buffer.len()
    }

    /// A fresh editor: empty buffer, cursor at 0, prompt not yet written.
    pub fn new(prompt: &str, echo: bool) -> (r: Self)
        ensures
            r.wf(),
            r@.prompt == prompt@,
            r@.echo == echo,
            r@.buffer == Seq::<char>::empty(),
            r@.cursor == 0,
            !r@.wrote_prompt,
    {
        ReadlineState {
            prompt: prompt.to_owned(),
            echo,
            buffer: Vec::new(),
            cursor: 0,
            wrote_prompt: false,
        }
    }

    /// The characters typed so far.
    pub fn buffer(&self) -> (r: String)
        ensures
            r@ == self@.buffer,
    {
        chars_to_string(&self.buffer)
    }

    /// The cursor position, in characters.
    pub fn cursor(&self) -> (r: usize)
        ensures
            r == self@.cursor,
    {
        self.cursor
    }

    /// Appends the prompt to `out`.
    pub fn prompt(&self, out: &mut Vec<u8>)
        ensures
            final(out)@ == old(out)@ + encode_utf8(self@.prompt),
    {
        let bytes = utf8_bytes(self.prompt.as_str());
        push_all(bytes.as_slice(), out);
    }

    /// Appends what echoing `bytes` sends to the terminal (see `echoed`).
    pub fn echo(&self, bytes: &[u8], out: &mut Vec<u8>)
        ensures
            final(out)@ == old(out)@ + echoed(bytes@, self@.echo),
    {
        push_echoed(bytes, self.echo, out);
    }

    /// Appends what echoing the character `c` sends to the terminal.
    pub fn echo_char(&self, c: char, out: &mut Vec<u8>)
        ensures
            final(out)@ == old(out)@ + echoed(encode_scalar(c as u32), self@.echo),
    {
        let mut bytes: Vec<u8> = Vec::new();
        push_utf8(c, &mut bytes);
        assert(bytes@ == encode_scalar(c as u32));
        self.echo(bytes.as_slice(), out);
    }

    /// Applies one keystroke to the line, appending what the terminal must
    /// be sent to `out`. Enter completes the line (`Ok(Some(line))`), Ctrl-D
    /// on an empty line ends the input; every other keystroke edits the
    /// line or leaves it as it is (`Ok(None)`).
    pub fn process_event(&mut self, event: InputEvent, out: &mut Vec<u8>) -> (r: Result<
        Option<String>,
        ReadlineError,
    >)
        requires
            old(self).wf(),
        ensures
            final(self).wf(),
            final(self)@ == edit(old(self)@, event),
            final(out)@ == old(out)@ + key_output(
                old(self)@.prompt,
                old(self)@.echo,
                old(self)@.buffer,
                old(self)@.cursor as int,
                event,
            ),
            match r {
                Ok(Some(line)) => completes(event) && line@ == old(self)@.buffer,
                Ok(None) => !completes(event) && !ends_input(old(self)@.buffer, event),
                Err(e) => ends_input(old(self)@.buffer, event) && e == ReadlineError::EndOfInput,
            },
    {
        let ghost out0 = out@;
        let ghost s0 = self@;
        match event {
            InputEvent::Character(c) => {
                if c == '\n' {
                    let nl = newline_bytes();
                    self.echo(nl.as_slice(), out);
                    return Ok(Some(self.buffer()));
                } else if c != '\t' {
                    if self.cursor != self.buffer.len() {
                        let ins = make_csi(None, 64u8);
                        self.echo(ins.as_slice(), out);
                    }
                    self.echo_char(c, out);
                    self.buffer.insert(self.cursor, c);
                    let len = self.buffer.len();
                    assert(self.cursor < len);
                    self.cursor = self.cursor + 1;
                }
            },
            InputEvent::ControlKey(k) => {
                if k == 'a' {
                    if self.cursor != 0 {
                        let mv = make_csi(Some(self.cursor), 68u8);
                        self.echo(mv.as_slice(), out);
                        self.cursor = 0;
                    }
                } else if k == 'c' {
                    self.buffer = Vec::new();
                    self.cursor = 0;
                    let nl = newline_bytes();
                    self.echo(nl.as_slice(), out);
                    self.prompt(out);
                } else if k == 'd' {
                    if self.buffer.len() == 0 {
                        let nl = newline_bytes();
                        self.echo(nl.as_slice(), out);
                        return Err(ReadlineError::EndOfInput);
                    }
                } else if k == 'e' {
                    if self.cursor != self.buffer.len() {
                        let mv = make_csi(Some(self.buffer.len() - self.cursor), 67u8);
                        self.echo(mv.as_slice(), out);
                        self.cursor = self.buffer.len();
                    }
                } else if k == 'u' {
                    if self.cursor != 0 {
                        let mut kill = backspaces(self.cursor);
                        push_csi(Some(self.cursor), 80u8, &mut kill);
                        self.echo(kill.as_slice(), out);
                        let rest = self.buffer.split_off(self.cursor);
                        self.buffer = rest;
                        self.cursor = 0;
                    } else {
                        assert(s0.buffer.subrange(0, s0.buffer.len() as int) =~= s0.buffer);
                    }
                }
            },
            InputEvent::Backspace => {
                if self.cursor != 0 {
                    self.cursor = self.cursor - 1;
                    self.buffer.remove(self.cursor);
                    let mut erase: Vec<u8> = Vec::new();
                    erase.push(BS);
                    if self.cursor == self.buffer.len() {
                        erase.push(32u8);
                        erase.push(BS);
                        assert(erase@ =~= seq![BS, 32u8, BS]);
                    } else {
                        push_csi(None, 80u8, &mut erase);
                        assert(erase@ =~= seq![BS] + csi(None, 80u8));
                    }
                    self.echo(erase.as_slice(), out);
                }
            },
            InputEvent::Delete => {
                if self.cursor != self.buffer.len() {
                    self.buffer.remove(self.cursor);
                    let del = make_csi(None, 80u8);
                    self.echo(del.as_slice(), out);
                }
            },
            InputEvent::ArrowLeft => {
                if self.cursor != 0 {
                    self.cursor = self.cursor - 1;
                    push_csi(None, 68u8, out);
                }
            },
            InputEvent::ArrowRight => {
                if self.cursor != self.buffer.len() {
                    self.cursor = self.cursor + 1;
                    push_csi(None, 67u8, out);
                }
            },
            InputEvent::Other => {},
        }
        assert(out0 + Seq::<u8>::empty() =~= out0);
        Ok(None)
    }
}

/// Returns a single line feed.
fn newline_bytes() -> (r: Vec<u8>)
    ensures
        r@ == seq![LF],
{
    let mut r: Vec<u8> = Vec::new();
    r.push(LF);
    r
}

/// Returns `n` backspaces.
fn backspaces(n: usize) -> (r: Vec<u8>)
    ensures
        r@ == Seq::new(n as nat, |i: int| BS),
{
    let mut r: Vec<u8> = Vec::new();
    let mut i: usize = 0;
    while i < n
        invariant
            i <= n,
            r@ == Seq::new(i as nat, |j: int| BS),
        decreases n - i,
    {
        r.push(BS);
        i = i + 1;
        assert(r@ == Seq::new(i as nat, |j: int| BS));
    }
    r
}

/// What a non-blocking read of the keystroke channel gave.
#[derive(Clone, Copy, Debug, PartialEq, Eq, Structural)]
pub enum Received {
    Event(InputEvent),
    /// Nothing is queued yet.
    Empty,
    /// The sending side is gone.
    Closed,
}

/// Whether a line is ready.
#[derive(Clone, Debug, PartialEq, Eq)]
pub enum LinePoll {
    Ready(String),
    NotReady,
}

/// True when the background reader stops after delivering `event`: after
/// Enter, or once the consumer asked it to quit. The request is only seen
/// between two reads, so one more keystroke may be read and dropped.
pub open spec fn reader_stops(event: InputEvent, quit_requested: bool) -> bool {
    completes(event) || quit_requested
}

/// Decides whether the background keystroke reader stops after `event`.
pub fn stops_reader(event: InputEvent, quit_requested: bool) -> (r: bool)
    ensures
        r == reader_stops(event, quit_requested),
{
    event == InputEvent::Character('\n') || quit_requested
}

/// A line being read: the editor state, driven by what the keystroke
/// channel delivers. The first poll writes the prompt, exactly once.
pub struct Readline {
    state: ReadlineState,
}

impl View for Readline {
    type V = EditorView;

    closed spec fn view(&self) -> EditorView {
        self.state@
    }
}

/// Starts reading a line with `prompt`; with `echo` off typed characters are
/// not shown (for secret input).
pub fn readline(prompt: &str, echo: bool) -> (r: Readline)
    ensures
        r.wf(),
        r@.prompt == prompt@,
        r@.echo == echo,
        r@.buffer == Seq::<char>::empty(),
        r@.cursor == 0,
        !r@.wrote_prompt,
{
    Readline::new(prompt, echo)
}

impl Readline {
    /// The editor's invariant: the cursor lies within the buffer.
    pub open spec fn wf(&self) -> bool {
        self@.cursor <= self@.buffer.len()
    }

    /// See `readline`.
    pub fn new(prompt: &str, echo: bool) -> (r: Self)
        ensures
            r.wf(),
            r@.prompt == prompt@,
            r@.echo == echo,
            r@.buffer == Seq::<char>::empty(),
            r@.cursor == 0,
            !r@.wrote_prompt,
    {
        Readline { state: ReadlineState::new(prompt, echo) }
    }

    /// The editor state.
    pub fn state(&self) -> (r: &ReadlineState)
        ensures
            r@ == self@,
            r.wf() == self.wf(),
    {
        &self.state
    }

    /// One step of reading: writes the prompt to `out` if it was not written
    /// yet, then handles what the channel delivered. A keystroke goes through
    /// `ReadlineState::process_event`; an empty channel leaves the line not
    /// ready; a closed one fails with `ChannelClosed`.
    pub fn poll(&mut self, received: Received, out: &mut Vec<u8>) -> (r: Result<LinePoll, ReadlineError>)
        requires
            old(self).wf(),
        ensures
            final(self).wf(),
            final(self)@.wrote_prompt,
            ({
                let s = old(self)@;
                let head = if s.wrote_prompt {
                    Seq::<u8>::empty()
                } else {
                    encode_utf8(s.prompt)
                };
                match received {
                    Received::Event(e) => {
                        &&& final(self)@ == EditorView { wrote_prompt: true, ..edit(s, e) }
                        &&& final(out)@ == old(out)@ + head + key_output(
                            s.prompt,
                            s.echo,
                            s.buffer,
                            s.cursor as int,
                            e,
                        )
                        &&& match r {
                            Ok(LinePoll::Ready(line)) => completes(e) && line@ == s.buffer,
                            Ok(LinePoll::NotReady) => !completes(e) && !ends_input(s.buffer, e),
                            Err(err) => ends_input(s.buffer, e) && err == ReadlineError::EndOfInput,
                        }
                    },
                    Received::Empty => {
                        &&& final(self)@ == EditorView { wrote_prompt: true, ..s }
                        &&& final(out)@ == old(out)@ + head
                        &&& r == Ok::<LinePoll, ReadlineError>(LinePoll::NotReady)
                    },
                    Received::Closed => {
                        &&& final(self)@ == EditorView { wrote_prompt: true, ..s }
                        &&& final(out)@ == old(out)@ + head
                        &&& r == Err::<LinePoll, ReadlineError>(ReadlineError::ChannelClosed)
                    },
                }
            }),
    {
        let ghost out0 = out@;
        if !self.state.wrote_prompt {
            self.state.prompt(out);
            self.state.wrote_prompt = true;
        } else {
            assert(out0 + Seq::<u8>::empty() =~= out0);
        }
        let ghost out1 = out@;
        match received {
            Received::Event(e) => {
                let res = self.state.process_event(e, out);
                assert(out@ == out1 + key_output(
                    old(self)@.prompt,
                    old(self)@.echo,
                    old(self)@.buffer,
                    old(self)@.cursor as int,
                    e,
                ));
                match res {
                    Ok(Some(line)) => Ok(LinePoll::Ready(line)),
                    Ok(None) => Ok(LinePoll::NotReady),
                    Err(err) => Err(err),
                }
            },
            Received::Empty => Ok(LinePoll::NotReady),
            Received::Closed => Err(ReadlineError::ChannelClosed),
        }
    }
}

/// The characters that a run of character keystrokes carries.
pub open spec fn typed(es: Seq<InputEvent>) -> Seq<char> {
    es.map_values(
        |e: InputEvent|
            match e {
                InputEvent::Character(c) => c,
                _ => ' ',
            },
    )
}

/// True when every keystroke of `es` is a character that is inserted.
pub open spec fn all_typing(es: Seq<InputEvent>) -> bool {
    forall|i: int|
        0 <= i < es.len() ==> match #[trigger] es[i] {
            InputEvent::Character(c) => inserts(c),
            _ => false,
        }
}

/// Typing characters with the cursor at the end of the line appends them in
/// order and leaves the cursor at the end.
pub proof fn lemma_typing_appends(s: EditorView, es: Seq<InputEvent>)
    requires
        s.cursor == s.buffer.len(),
        all_typing(es),
    ensures
        edit_all(s, es).buffer == s.buffer + typed(es),
        edit_all(s, es).cursor == edit_all(s, es).buffer.len(),
    decreases es.len(),
{
    if es.len() == 0 {
        assert(s.buffer + typed(es) =~= s.buffer);
    } else {
        let p = es.drop_last();
        assert forall|i: int| 0 <= i < p.len() implies match #[trigger] p[i] {
            InputEvent::Character(c) => inserts(c),
            _ => false,
        } by {
            assert(p[i] == es[i]);
        }
        lemma_typing_appends(s, p);
        let t = edit_all(s, p);
        assert(match es[es.len() - 1] {
            InputEvent::Character(c) => inserts(c),
            _ => false,
        });
        assert(t.buffer.insert(t.cursor as int, typed(es).last()) =~= t.buffer.push(typed(es).last()));
        assert(typed(es) =~= typed(p).push(typed(es).last()));
        assert(s.buffer + typed(es) =~= (s.buffer + typed(p)).push(typed(es).last()));
    }
}

/// A fresh editor that is typed characters holds exactly those characters,
/// with the cursor at the end.
pub proof fn lemma_fresh_typing(prompt: Seq<char>, echo: bool, es: Seq<InputEvent>)
    requires
        all_typing(es),
    ensures
        ({
            let s = EditorView {
                prompt,
                echo,
                buffer: Seq::empty(),
                cursor: 0,
                wrote_prompt: false,
            };
            &&& edit_all(s, es).buffer == typed(es)
            &&& edit_all(s, es).cursor == typed(es).len()
        }),
{
    let s = EditorView { prompt, echo, buffer: Seq::empty(), cursor: 0, wrote_prompt: false };
    lemma_typing_appends(s, es);
    assert(s.buffer + typed(es) =~= typed(es));
}

/// Backspace at the start of the line and Delete at its end change nothing
/// and send nothing.
pub proof fn lemma_erase_at_bounds(s: EditorView)
    requires
        s.cursor <= s.buffer.len(),
    ensures
        s.cursor == 0 ==> edit(s, InputEvent::Backspace) == s && key_output(
            s.prompt,
            s.echo,
            s.buffer,
            s.cursor as int,
            InputEvent::Backspace,
        ) == Seq::<u8>::empty(),
        s.cursor == s.buffer.len() ==> edit(s, InputEvent::Delete) == s && key_output(
            s.prompt,
            s.echo,
            s.buffer,
            s.cursor as int,
            InputEvent::Delete,
        ) == Seq::<u8>::empty(),
{
}

/// Ctrl-U moves the cursor to the start and removes exactly the characters
/// before the cursor.
pub proof fn lemma_kill_to_start(s: EditorView)
    requires
        s.cursor <= s.buffer.len(),
    ensures
        edit(s, InputEvent::ControlKey('u')).cursor == 0,
        s.buffer == s.buffer.subrange(0, s.cursor as int) + edit(
            s,
            InputEvent::ControlKey('u'),
        ).buffer,
{
    assert(s.buffer =~= s.buffer.subrange(0, s.cursor as int) + s.buffer.subrange(
        s.cursor as int,
        s.buffer.len() as int,
    ));
}

} // verus!
