use vstd::prelude::*;

use crate::builtins::{cd_name, exec, Builtin, BuiltinError, BuiltinView};
use crate::parser::{parse, views, words, ParseError};
use crate::process::ProcessError;

verus! {

/// How a command ended.
#[derive(Clone, Copy, Debug, PartialEq, Eq, Structural)]
pub enum ExitStatus {
    /// It exited with this code.
    Exited(i32),
    /// A signal with this number killed it.
    Signaled(i32),
}

impl ExitStatus {
    /// True when the command exited with code 0.
    pub fn success(&self) -> (r: bool)
        ensures
            r == (*self == ExitStatus::Exited(0)),
    {
        match self {
            ExitStatus::Exited(code) => *code == 0,
            ExitStatus::Signaled(_) => false,
        }
    }
}

/// One step in the life of a running command.
#[derive(Clone, Debug, PartialEq, Eq)]
pub enum CommandEvent {
    /// The command started, with this name and these arguments.
    Start(String, Vec<String>),
    /// It wrote these bytes.
    Output(Vec<u8>),
    /// It ended.
    Exit(ExitStatus),
}

/// The abstract form of a `CommandEvent`.
pub enum EventView {
    Start(Seq<char>, Seq<Seq<char>>),
    Output(Seq<u8>),
    Exit(ExitStatus),
}

impl View for CommandEvent {
    type V = EventView;

    open spec fn view(&self) -> EventView {
        match self {
            CommandEvent::Start(c, a) => EventView::Start(c@, views(a@)),
            CommandEvent::Output(b) => EventView::Output(b@),
            CommandEvent::Exit(s) => EventView::Exit(*s),
        }
    }
}

/// The abstract forms of a sequence of events.
pub open spec fn event_views(v: Seq<CommandEvent>) -> Seq<EventView> {
    v.map_values(|e: CommandEvent| e@)
}

/// True when `h` is a prefix of a command's life: a start first, output
/// after it, and an exit, if any, last.
pub open spec fn well_ordered(h: Seq<EventView>) -> bool {
    &&& h.len() > 0 ==> h[0] is Start
    &&& forall|i: int| 0 < i < h.len() ==> !(#[trigger] h[i] is Start)
    &&& forall|i: int| 0 <= i < h.len() - 1 ==> !(#[trigger] h[i] is Exit)
}

/// Why evaluating a line failed.
#[derive(Debug)]
pub enum EvalError {
    /// The line names no command.
    Parser { line: String, source: ParseError },
    /// The builtin failed.
    BuiltinExecution { cmd: String, source: BuiltinError },
    /// The running executable's stream failed.
    ProcessExecution { cmd: String, source: ProcessError },
    /// The command's stream broke the order start, output, exit.
    OutOfOrder { cmd: String },
}

/// How the resolved command runs.
pub enum Launch {
    /// As this builtin's event stream.
    Builtin(Builtin),
    /// As the executable with this name and these arguments, on a
    /// pseudo-terminal.
    External(String, Vec<String>),
}

/// What polling a command's underlying stream gave.
pub enum SourcePoll {
    Event(CommandEvent),
    /// The stream has ended.
    End,
    NotReady,
    BuiltinFailed(BuiltinError),
    ProcessFailed(ProcessError),
}

/// What the command's event stream delivers for one poll.
pub enum EvalPoll {
    /// These events, in order.
    Events(Vec<CommandEvent>),
    /// The stream has ended.
    End,
    NotReady,
}

/// The abstract state of an evaluation.
pub struct EvalView {
    pub line: Seq<char>,
    pub raw: bool,
    pub resolved: bool,
    pub cmd: Seq<char>,
    pub args: Seq<Seq<char>>,
    /// The events delivered so far.
    pub history: Seq<EventView>,
}

impl EvalView {
    /// True once the start was delivered.
    pub open spec fn started(self) -> bool {
        self.history.len() > 0
    }

    /// True once the exit was delivered.
    pub open spec fn exited(self) -> bool {
        self.history.len() > 0 && self.history.last() is Exit
    }

    /// The start event of this command.
    pub open spec fn start_event(self) -> EventView {
        EventView::Start(self.cmd, self.args)
    }
}

/// What the command's stream delivers for the underlying event `e`, or
/// `None` where `e` breaks the order: a start is delivered first, made up if
/// the source has none; a second start, and anything after the exit, is out
/// of order.
pub open spec fn admitted(v: EvalView, e: EventView) -> Option<Seq<EventView>> {
    if v.exited() || (v.started() && e is Start) {
        None
    } else {
        let head = if v.started() {
            Seq::<EventView>::empty()
        } else {
            seq![v.start_event()]
        };
        Some(
            if e is Start {
                head
            } else {
                head.push(e)
            },
        )
    }
}

/// True when `l` runs the command that the words `w` name: the builtin where
/// the name is one, else the executable.
pub open spec fn launch_matches(l: Launch, w: Seq<Seq<char>>) -> bool {
    match l {
        Launch::Builtin(b) => {
            &&& w[0] == cd_name()
            &&& b.wf()
            &&& b@ == BuiltinView { cmd: w[0], args: w.drop_first(), started: false, done: false }
        },
        Launch::External(c, a) => w[0] != cd_name() && c@ == w[0] && views(a@) == w.drop_first(),
    }
}

/// Evaluation of one command line: resolves it to a builtin or an
/// executable, and turns what that source produces into the command's event
/// stream.
pub struct Eval {
    line: String,
    manage_screen: bool,
    resolved: bool,
    cmd: String,
    args: Vec<String>,
    started: bool,
    exited: bool,
    history: Ghost<Seq<EventView>>,
}

impl View for Eval {
    type V = EvalView;

    closed spec fn view(&self) -> EvalView {
        EvalView {
            line: self.line@,
            raw: self.manage_screen,
            resolved: self.resolved,
            cmd: self.cmd@,
            args: views(self.args@),
            history: self.history@,
        }
    }
}

/// Starts the evaluation of `line`.
pub fn eval(line: &str) -> (r: Eval)
    ensures
        r.wf(),
        r@.line == line@,
        r@.raw,
        !r@.resolved,
        r@.history == Seq::<EventView>::empty(),
{
    Eval::new(line)
}

impl Eval {
    /// The evaluation's invariant: what was delivered is well ordered, and
    /// nothing is delivered before the line was resolved.
    pub closed spec fn wf(&self) -> bool {
        &&& well_ordered(self.history@)
        &&& self.started == (self.history@.len() > 0)
        &&& self.exited == (self.history@.len() > 0 && self.history@.last() is Exit)
        &&& self.history@.len() > 0 ==> self.resolved && self.history@[0] == EventView::Start(
            self.cmd@,
            views(self.args@),
        )
    }

    /// See `eval`.
    pub fn new(line: &str) -> (r: Self)
        ensures
            r.wf(),
            r@.line == line@,
            r@.raw,
            !r@.resolved,
            r@.history == Seq::<EventView>::empty(),
    {
        Eval {
            line: line.to_owned(),
            manage_screen: true,
            resolved: false,
            cmd: String::new(),
            args: Vec::new(),
            started: false,
            exited: false,
            history: Ghost(Seq::empty()),
        }
    }

    /// Sets whether the command's terminal is managed in raw mode.
    pub fn set_raw(self, raw: bool) -> (r: Self)
        requires
            self.wf(),
        ensures
            r.wf(),
            r@ == (EvalView { raw, ..self@ }),
    {
        let mut s = self;
        s.manage_screen = raw;
        s
    }

    /// Whether the command's terminal is managed in raw mode.
    pub fn raw(&self) -> (r: bool)
        ensures
            r == self@.raw,
    {
        self.manage_screen
    }

    /// Resolves the line: fails with `Parser` for a line that names no
    /// command; runs the builtin where the name is one, else the executable.
    pub fn start(&mut self) -> (r: Result<Launch, EvalError>)
        requires
            old(self).wf(),
            !old(self)@.resolved,
        ensures
            final(self).wf(),
            final(self)@.line == old(self)@.line,
            final(self)@.raw == old(self)@.raw,
            final(self)@.history == old(self)@.history,
            ({
                let w = words(old(self)@.line);
                if w.len() == 0 {
                    &&& final(self)@ == old(self)@
                    &&& match r {
                        Err(EvalError::Parser { line, source }) => line@ == old(self)@.line
                            && source == ParseError::CommandRequired,
                        _ => false,
                    }
                } else {
                    &&& final(self)@.resolved
                    &&& final(self)@.cmd == w[0]
                    &&& final(self)@.args == w.drop_first()
                    &&& match r {
                        Ok(l) => launch_matches(l, w),
                        Err(_) => false,
                    }
                }
            }),
    {
        let parsed = parse(self.line.as_str());
        match parsed {
            Err(e) => Err(EvalError::Parser { line: self.line.clone(), source: e }),
            Ok((cmd, args)) => {
                let launch = match exec(cmd.as_str(), args.as_slice()) {
                    Ok(b) => Launch::Builtin(b),
                    Err(_) => Launch::External(cmd.clone(), crate::builtins::clone_strings(args.as_slice())),
                };
                self.cmd = cmd;
                self.args = args;
                self.resolved = true;
                Ok(launch)
            },
        }
    }

    /// The start event of this command.
    fn start_event(&self) -> (r: CommandEvent)
        ensures
            r@ == self@.start_event(),
    {
        CommandEvent::Start(self.cmd.clone(), crate::builtins::clone_strings(self.args.as_slice()))
    }

    /// Delivers one event of the command's stream (see `admitted`) and
    /// records it.
    fn deliver(&mut self, e: CommandEvent) -> (r: Result<Vec<CommandEvent>, EvalError>)
        requires
            old(self).wf(),
            old(self)@.resolved,
        ensures
            final(self).wf(),
            match admitted(old(self)@, e@) {
                None => {
                    &&& final(self)@ == old(self)@
                    &&& match r {
                        Err(EvalError::OutOfOrder { cmd }) => cmd@ == old(self)@.cmd,
                        _ => false,
                    }
                },
                Some(evs) => {
                    &&& final(self)@ == (EvalView { history: old(self)@.history + evs, ..old(self)@ })
                    &&& match r {
                        Ok(v) => event_views(v@) == evs,
                        Err(_) => false,
                    }
                },
            },
    {
        let is_start = match &e {
            CommandEvent::Start(_, _) => true,
            _ => false,
        };
        let is_exit = match &e {
            CommandEvent::Exit(_) => true,
            _ => false,
        };
        if self.exited || (self.started && is_start) {
            return Err(EvalError::OutOfOrder { cmd: self.cmd.clone() });
        }
        let mut out: Vec<CommandEvent> = Vec::new();
        if !self.started {
            out.push(self.start_event());
        }
        if !is_start {
            out.push(e);
        }
        let ghost evs = event_views(out@);
        assert(Some(evs) == admitted(old(self)@, e@)) by {
            if !old(self)@.started() {
                if is_start {
                    assert(evs =~= seq![old(self)@.start_event()]);
                } else {
                    assert(evs =~= seq![old(self)@.start_event()].push(e@));
                }
            } else {
                assert(evs =~= Seq::<EventView>::empty().push(e@));
            }
        }
        self.history = Ghost(self.history@ + evs);
        self.started = true;
        self.exited = is_exit;
        let ghost h = self.history@;
        assert(well_ordered(h)) by {
            assert forall|i: int| 0 < i < h.len() implies !(#[trigger] h[i] is Start) by {
                if i < old(self)@.history.len() {
                    assert(h[i] == old(self)@.history[i]);
                }
            }
            assert forall|i: int| 0 <= i < h.len() - 1 implies !(#[trigger] h[i] is Exit) by {
                if i < old(self)@.history.len() - 1 {
                    assert(h[i] == old(self)@.history[i]);
                } else if i == old(self)@.history.len() - 1 {
                    assert(h[i] == old(self)@.history.last());
                }
            }
            if old(self)@.history.len() > 0 {
                assert(h[0] == old(self)@.history[0]);
            }
        }
        proof {
            if old(self)@.history.len() > 0 {
                assert(h[0] == old(self)@.history[0]);
            }
        }
        Ok(out)
    }

    /// Handles what the command's underlying stream gave. Events go through
    /// `admitted`; a stream that ends before its start still delivers the
    /// start first; a failure of the source is reported with the command's
    /// name.
    pub fn poll(&mut self, source: SourcePoll) -> (r: Result<EvalPoll, EvalError>)
        requires
            old(self).wf(),
            old(self)@.resolved,
        ensures
            final(self).wf(),
            final(self)@.resolved,
            final(self)@.cmd == old(self)@.cmd,
            final(self)@.args == old(self)@.args,
            match source {
                SourcePoll::Event(e) => match admitted(old(self)@, e@) {
                    None => {
                        &&& final(self)@ == old(self)@
                        &&& match r {
                            Err(EvalError::OutOfOrder { cmd }) => cmd@ == old(self)@.cmd,
                            _ => false,
                        }
                    },
                    Some(evs) => {
                        &&& final(self)@ == (EvalView {
                            history: old(self)@.history + evs,
                            ..old(self)@
                        })
                        &&& match r {
                            Ok(EvalPoll::Events(v)) => event_views(v@) == evs,
                            _ => false,
                        }
                    },
                },
                SourcePoll::End => if old(self)@.started() {
                    &&& final(self)@ == old(self)@
                    &&& r matches Ok(EvalPoll::End)
                } else {
                    &&& final(self)@ == (EvalView {
                        history: seq![old(self)@.start_event()],
                        ..old(self)@
                    })
                    &&& match r {
                        Ok(EvalPoll::Events(v)) => event_views(v@) == seq![
                            old(self)@.start_event(),
                        ],
                        _ => false,
                    }
                },
                SourcePoll::NotReady => final(self)@ == old(self)@ && (r matches Ok(
                    EvalPoll::NotReady,
                )),
                SourcePoll::BuiltinFailed(err) => final(self)@ == old(self)@ && match r {
                    Err(EvalError::BuiltinExecution { cmd, source: s }) => cmd@ == old(
                        self,
                    )@.cmd && s == err,
                    _ => false,
                },
                SourcePoll::ProcessFailed(err) => final(self)@ == old(self)@ && match r {
                    Err(EvalError::ProcessExecution { cmd, source: s }) => cmd@ == old(
                        self,
                    )@.cmd && s == err,
                    _ => false,
                },
            },
    {
        match source {
            SourcePoll::Event(e) => match self.deliver(e) {
                Ok(v) => Ok(EvalPoll::Events(v)),
                Err(err) => Err(err),
            },
            SourcePoll::End => {
                if self.started {
                    Ok(EvalPoll::End)
                } else {
                    let start = self.start_event();
                    let mut out: Vec<CommandEvent> = Vec::new();
                    out.push(start);
                    let ghost evs = event_views(out@);
                    assert(evs =~= seq![old(self)@.start_event()]);
                    self.history = Ghost(evs);
                    self.started = true;
                    Ok(EvalPoll::Events(out))
                }
            },
            SourcePoll::NotReady => Ok(EvalPoll::NotReady),
            SourcePoll::BuiltinFailed(err) => Err(
                EvalError::BuiltinExecution { cmd: self.cmd.clone(), source: err },
            ),
            SourcePoll::ProcessFailed(err) => Err(
                EvalError::ProcessExecution { cmd: self.cmd.clone(), source: err },
            ),
        }
    }
}

/// The first events delivered for a command begin with its start.
pub proof fn lemma_first_delivery_starts(v: EvalView, e: EventView)
    requires
        !v.started(),
    ensures
        admitted(v, e) matches Some(evs) && evs.len() > 0 && evs[0] == v.start_event(),
{
}

/// Delivering what `admitted` allows keeps a command's events in the order
/// start, output, exit.
pub proof fn lemma_admitted_keeps_order(v: EvalView, e: EventView)
    requires
        well_ordered(v.history),
        v.started() ==> v.history[0] == v.start_event(),
    ensures
        admitted(v, e) matches Some(evs) ==> well_ordered(v.history + evs),
{
    if let Some(evs) = admitted(v, e) {
        let h = v.history + evs;
        assert forall|i: int| 0 < i < h.len() implies !(#[trigger] h[i] is Start) by {
            if i < v.history.len() {
                assert(h[i] == v.history[i]);
            }
        }
        assert forall|i: int| 0 <= i < h.len() - 1 implies !(#[trigger] h[i] is Exit) by {
            if i < v.history.len() - 1 {
                assert(h[i] == v.history[i]);
            } else if i == v.history.len() - 1 {
                assert(h[i] == v.history.last());
            }
        }
        if v.history.len() > 0 {
            assert(h[0] == v.history[0]);
        }
    }
}

} // verus!
