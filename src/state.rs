use std::collections::HashMap;
use vstd::prelude::*;
use vstd::std_specs::iter::IteratorSpec;

use crate::builtins::clone_strings;
use crate::eval::{
    admitted, event_views, launch_matches, CommandEvent, Eval, EvalError, EvalPoll, EvalView,
    EventView, ExitStatus, Launch, SourcePoll,
};
use crate::parser::{views, words, ParseError};
use crate::term::push_all;

verus! {

broadcast use vstd::std_specs::hash::group_hash_axioms;

/// Why the multiplexer refused a request or dropped a session.
#[derive(Debug)]
pub enum StateError {
    /// No session with this id is tracked.
    InvalidCommandIndex { idx: usize },
    /// A session with this id is already tracked.
    DuplicateSessionId { idx: usize },
    /// The session's command failed.
    Eval { source: EvalError },
}

/// What the multiplexer knows of one running command.
pub struct RecordView {
    pub cmd: Option<Seq<char>>,
    pub args: Option<Seq<Seq<char>>>,
    /// Everything it wrote so far.
    pub output: Seq<u8>,
    pub status: Option<ExitStatus>,
    /// The events routed for it, in order.
    pub events: Seq<EventView>,
}

/// The record of a command that has not produced anything yet.
pub open spec fn fresh_record() -> RecordView {
    RecordView {
        cmd: None,
        args: None,
        output: Seq::empty(),
        status: None,
        events: Seq::empty(),
    }
}

/// The record after the event `e` was routed to it.
pub open spec fn record_step(r: RecordView, e: EventView) -> RecordView {
    let logged = RecordView { events: r.events.push(e), ..r };
    match e {
        EventView::Start(c, a) => RecordView { cmd: Some(c), args: Some(a), ..logged },
        EventView::Output(b) => RecordView { output: r.output + b, ..logged },
        EventView::Exit(s) => RecordView { status: Some(s), ..logged },
    }
}

/// The record after each of `es` was routed to it in turn.
pub open spec fn record_steps(r: RecordView, es: Seq<EventView>) -> RecordView
    decreases es.len(),
{
    if es.len() == 0 {
        r
    } else {
        record_step(record_steps(r, es.drop_last()), es.last())
    }
}

/// The records after each event of `trace`, tagged with its session id, was
/// routed in turn (events for untracked ids change nothing).
pub open spec fn replay(m: Map<usize, RecordView>, trace: Seq<(usize, EventView)>) -> Map<
    usize,
    RecordView,
>
    decreases trace.len(),
{
    if trace.len() == 0 {
        m
    } else {
        let prev = replay(m, trace.drop_last());
        let (id, e) = trace.last();
        if prev.contains_key(id) {
            prev.insert(id, record_step(prev[id], e))
        } else {
            prev
        }
    }
}

/// The events of `trace` that belong to session `id`, in order.
pub open spec fn project(trace: Seq<(usize, EventView)>, id: usize) -> Seq<EventView>
    decreases trace.len(),
{
    if trace.len() == 0 {
        seq![]
    } else {
        let prev = project(trace.drop_last(), id);
        if trace.last().0 == id {
            prev.push(trace.last().1)
        } else {
            prev
        }
    }
}

/// Routing `es` one by one gives the record of routing them together.
pub proof fn lemma_record_steps_append(r: RecordView, es: Seq<EventView>, fs: Seq<EventView>)
    ensures
        record_steps(record_steps(r, es), fs) == record_steps(r, es + fs),
    decreases fs.len(),
{
    if fs.len() == 0 {
        assert(es + fs =~= es);
    } else {
        lemma_record_steps_append(r, es, fs.drop_last());
        assert((es + fs).drop_last() =~= es + fs.drop_last());
    }
}

/// Sessions do not disturb one another: however the events of several
/// sessions interleave, each tracked session ends up with the record of its
/// own events routed in their own order.
pub proof fn lemma_sessions_interleave(
    m: Map<usize, RecordView>,
    trace: Seq<(usize, EventView)>,
    id: usize,
)
    requires
        m.contains_key(id),
    ensures
        replay(m, trace).contains_key(id),
        replay(m, trace)[id] == record_steps(m[id], project(trace, id)),
        replay(m, trace).dom() == m.dom(),
    decreases trace.len(),
{
    if trace.len() > 0 {
        lemma_sessions_interleave(m, trace.drop_last(), id);
        let prev = replay(m, trace.drop_last());
        let (j, e) = trace.last();
        if prev.contains_key(j) {
            assert(prev.insert(j, record_step(prev[j], e)).dom() =~= prev.dom());
        }
        let p = project(trace.drop_last(), id);
        if j == id {
            assert(p.push(e).drop_last() =~= p);
        }
    }
}

/// One command tracked by the multiplexer.
pub struct Command {
    eval: Eval,
    cmd: Option<String>,
    args: Option<Vec<String>>,
    output: Vec<u8>,
    status: Option<ExitStatus>,
    events: Ghost<Seq<EventView>>,
}

impl View for Command {
    type V = RecordView;

    closed spec fn view(&self) -> RecordView {
        RecordView {
            cmd: match self.cmd {
                Some(c) => Some(c@),
                None => None,
            },
            args: match self.args {
                Some(a) => Some(views(a@)),
                None => None,
            },
            output: self.output@,
            status: self.status,
            events: self.events@,
        }
    }
}

impl Command {
    /// The command's invariant: its evaluation is resolved and sound.
    pub closed spec fn wf(&self) -> bool {
        self.eval.wf() && self.eval@.resolved
    }

    /// The state of the command's evaluation.
    pub closed spec fn eval_view(&self) -> EvalView {
        self.eval@
    }

    /// A record for a resolved evaluation.
    fn new(eval: Eval) -> (r: Self)
        requires
            eval.wf(),
            eval@.resolved,
        ensures
            r.wf(),
            r@ == fresh_record(),
            r.eval_view() == eval@,
    {
        Command {
            eval,
            cmd: None,
            args: None,
            output: Vec::new(),
            status: None,
            events: Ghost(Seq::empty()),
        }
    }

    /// Routes one event to the record.
    fn apply(&mut self, e: &CommandEvent)
        ensures
            final(self)@ == record_step(old(self)@, e@),
            final(self).eval_view() == old(self).eval_view(),
            final(self).wf() == old(self).wf(),
    {
        match e {
            CommandEvent::Start(c, a) => {
                self.cmd = Some(c.clone());
                self.args = Some(clone_strings(a.as_slice()));
            },
            CommandEvent::Output(b) => {
                push_all(b.as_slice(), &mut self.output);
            },
            CommandEvent::Exit(s) => {
                self.status = Some(*s);
            },
        }
        self.events = Ghost(self.events@.push(e@));
    }

    /// Routes each of `evs` to the record, in order.
    fn apply_all(&mut self, evs: &Vec<CommandEvent>)
        ensures
            final(self)@ == record_steps(old(self)@, event_views(evs@)),
            final(self).eval_view() == old(self).eval_view(),
            final(self).wf() == old(self).wf(),
    {
        let ghost all = event_views(evs@);
        let mut i: usize = 0;
        while i < evs.len()
            invariant
                i <= evs@.len(),
                all == event_views(evs@),
                self@ == record_steps(old(self)@, all.subrange(0, i as int)),
                self.eval_view() == old(self).eval_view(),
                self.wf() == old(self).wf(),
            decreases evs@.len() - i,
        {
            assert(all.subrange(0, i as int + 1).drop_last() =~= all.subrange(0, i as int));
            self.apply(&evs[i]);
            i = i + 1;
        }
        assert(all.subrange(0, evs@.len() as int) =~= all);
    }
}

/// What routing one poll of a session did.
pub enum Routed {
    /// These events were routed to the session's record and are for the
    /// print sink, in order.
    Events(Vec<CommandEvent>),
    /// The session's stream ended and the session was removed.
    Removed,
    /// Nothing happened.
    Idle,
}

impl Routed {
    /// True when routing made progress.
    pub fn progressed(&self) -> (r: bool)
        ensures
            r == !(*self is Idle),
    {
        match self {
            Routed::Idle => false,
            _ => true,
        }
    }
}

/// The events that the session's stream delivers for `source`, from the
/// evaluation state `v`; `None` where it delivers none.
pub open spec fn delivered(v: EvalView, source: SourcePoll) -> Option<Seq<EventView>> {
    match source {
        SourcePoll::Event(e) => admitted(v, e@),
        SourcePoll::End => if v.started() {
            None
        } else {
            Some(seq![v.start_event()])
        },
        _ => None,
    }
}

/// What routing a poll does to a tracked session whose evaluation is in
/// state `v`.
pub enum RouteOutcome {
    /// These events are delivered.
    Events(Seq<EventView>),
    /// The stream ended; the session is removed.
    Removed,
    /// Nothing happens.
    Idle,
    /// The stream failed; the session is removed.
    Failed,
}

/// See `RouteOutcome`.
pub open spec fn route_outcome(v: EvalView, source: SourcePoll) -> RouteOutcome {
    match delivered(v, source) {
        Some(evs) => RouteOutcome::Events(evs),
        None => match source {
            SourcePoll::NotReady => RouteOutcome::Idle,
            SourcePoll::End => RouteOutcome::Removed,
            _ => RouteOutcome::Failed,
        },
    }
}

/// The records and evaluation states after routing `source` to session
/// `idx` (nothing changes for an untracked one).
pub open spec fn after_route(
    m: Map<usize, RecordView>,
    e: Map<usize, EvalView>,
    idx: usize,
    source: SourcePoll,
) -> (Map<usize, RecordView>, Map<usize, EvalView>) {
    if !m.contains_key(idx) {
        (m, e)
    } else {
        match route_outcome(e[idx], source) {
            RouteOutcome::Events(evs) => (
                m.insert(idx, record_steps(m[idx], evs)),
                e.insert(idx, EvalView { history: e[idx].history + evs, ..e[idx] }),
            ),
            RouteOutcome::Idle => (m, e),
            _ => (m.remove(idx), e.remove(idx)),
        }
    }
}

/// What a fairness pass over `polls` leaves and reports.
pub struct PassView {
    pub records: Map<usize, RecordView>,
    pub evals: Map<usize, EvalView>,
    /// Whether any poll made progress.
    pub progress: bool,
    /// The events for the print sink, tagged with their session, in order.
    pub printed: Seq<(usize, EventView)>,
    /// How many polls failed (untracked session or failed stream).
    pub failures: nat,
}

/// Routes each of `polls` in turn, from records `m` and evaluation states `e`.
pub open spec fn pass(
    m: Map<usize, RecordView>,
    e: Map<usize, EvalView>,
    polls: Seq<(usize, SourcePoll)>,
) -> PassView
    decreases polls.len(),
{
    if polls.len() == 0 {
        PassView { records: m, evals: e, progress: false, printed: seq![], failures: 0 }
    } else {
        let prev = pass(m, e, polls.drop_last());
        let (idx, source) = polls.last();
        let (m2, e2) = after_route(prev.records, prev.evals, idx, source);
        let known = prev.records.contains_key(idx);
        let outcome = route_outcome(prev.evals[idx], source);
        PassView {
            records: m2,
            evals: e2,
            progress: prev.progress || (known && !(outcome is Idle)),
            printed: prev.printed + match outcome {
                RouteOutcome::Events(evs) if known => evs.map_values(
                    |ev: EventView| (idx, ev),
                ),
                _ => Seq::empty(),
            },
            failures: prev.failures + if !known || outcome is Failed {
                1nat
            } else {
                0nat
            },
        }
    }
}

/// The session multiplexer: the commands that run at the same time, each
/// under its own session id.
pub struct State {
    commands: HashMap<usize, Command>,
}

impl View for State {
    type V = Map<usize, RecordView>;

    closed spec fn view(&self) -> Map<usize, RecordView> {
        self.commands@.map_values(|c: Command| c@)
    }
}

impl State {
    /// The multiplexer's invariant: every tracked command is sound.
    pub closed spec fn wf(&self) -> bool {
        forall|k: usize| #[trigger] self.commands@.contains_key(k) ==> self.commands@[k].wf()
    }

    /// The evaluation state of each tracked session.
    pub closed spec fn evals(&self) -> Map<usize, EvalView> {
        self.commands@.map_values(|c: Command| c.eval_view())
    }

    /// A multiplexer that tracks no session.
    pub fn new() -> (r: Self)
        ensures
            r.wf(),
            r@ == Map::<usize, RecordView>::empty(),
    {
        let r = State { commands: HashMap::new() };
        assert(r@ =~= Map::<usize, RecordView>::empty());
        r
    }

    /// True when the session `idx` is tracked.
    pub fn contains(&self, idx: usize) -> (r: bool)
        ensures
            r == self@.contains_key(idx),
    {
        self.commands.contains_key(&idx)
    }

    /// True when no session is tracked.
    pub fn is_empty(&self) -> (r: bool)
        ensures
            r == (self@.dom().len() == 0),
    {
        assert(self@.dom() =~= self.commands@.dom());
        self.commands.len() == 0
    }

    /// The ids of the tracked sessions, each once, in no particular order.
    pub fn ids(&self) -> (r: Vec<usize>)
        ensures
            r@.to_set() == self@.dom(),
            r@.no_duplicates(),
    {
        let mut r: Vec<usize> = Vec::new();
        let ghost ks = vstd::std_specs::hash::spec_keys_iter(&self.commands).remaining();
        for k in iter: self.commands.keys()
            invariant
                iter.seq() == ks,
                r@ == iter.seq().take(iter.index() as int).map_values(|x: &usize| *x),
        {
            r.push(*k);
            assert(r@ =~= iter.seq().take(iter.index() as int + 1).map_values(|x: &usize| *x));
        }
        assert(r@ =~= ks.unref());
        assert(ks.unref().to_set() == self.commands@.dom());
        assert(ks.no_duplicates());
        assert(self@.dom() =~= self.commands@.dom());
        r
    }
}

impl State {
    /// Submits `line` under the session id `idx`: fails with
    /// `DuplicateSessionId` where `idx` is tracked, and with the parser's
    /// error where the line names no command; else tracks a fresh session
    /// and says how its command runs.
    pub fn eval(&mut self, idx: usize, line: &str) -> (r: Result<Launch, StateError>)
        requires
            old(self).wf(),
        ensures
            final(self).wf(),
            old(self)@.contains_key(idx) ==> {
                &&& final(self)@ == old(self)@
                &&& final(self).evals() == old(self).evals()
                &&& match r {
                    Err(StateError::DuplicateSessionId { idx: i }) => i == idx,
                    _ => false,
                }
            },
            !old(self)@.contains_key(idx) && words(line@).len() == 0 ==> {
                &&& final(self)@ == old(self)@
                &&& final(self).evals() == old(self).evals()
                &&& match r {
                    Err(StateError::Eval { source: EvalError::Parser { line: l, source } }) => l@
                        == line@ && source == ParseError::CommandRequired,
                    _ => false,
                }
            },
            !old(self)@.contains_key(idx) && words(line@).len() > 0 ==> {
                &&& final(self)@ == old(self)@.insert(idx, fresh_record())
                &&& final(self).evals() == old(self).evals().insert(
                    idx,
                    EvalView {
                        line: line@,
                        raw: true,
                        resolved: true,
                        cmd: words(line@)[0],
                        args: words(line@).drop_first(),
                        history: Seq::empty(),
                    },
                )
                &&& match r {
                    Ok(l) => launch_matches(l, words(line@)),
                    Err(_) => false,
                }
            },
    {
        if self.commands.contains_key(&idx) {
            return Err(StateError::DuplicateSessionId { idx });
        }
        let mut ev = Eval::new(line);
        match ev.start() {
            Err(e) => Err(StateError::Eval { source: e }),
            Ok(launch) => {
                let c = Command::new(ev);
                self.commands.insert(idx, c);
                assert(self@ =~= old(self)@.insert(idx, fresh_record()));
                assert(self.evals() =~= old(self).evals().insert(idx, c.eval_view()));
                Ok(launch)
            },
        }
    }

    /// Routes `e` to the record of session `idx`.
    fn record(&mut self, idx: usize, e: &CommandEvent) -> (r: Result<(), StateError>)
        requires
            old(self).wf(),
        ensures
            final(self).wf(),
            final(self).evals() == old(self).evals(),
            old(self)@.contains_key(idx) ==> r is Ok && final(self)@ == old(self)@.insert(
                idx,
                record_step(old(self)@[idx], e@),
            ),
            !old(self)@.contains_key(idx) ==> final(self)@ == old(self)@ && match r {
                Err(StateError::InvalidCommandIndex { idx: i }) => i == idx,
                _ => false,
            },
    {
        match self.commands.remove(&idx) {
            None => Err(StateError::InvalidCommandIndex { idx }),
            Some(c) => {
                let mut c = c;
                c.apply(e);
                self.commands.insert(idx, c);
                assert(self@ =~= old(self)@.insert(idx, record_step(old(self)@[idx], e@)));
                assert(self.evals() =~= old(self).evals());
                Ok(())
            },
        }
    }

    /// Records that the command of session `idx` started as `cmd` with
    /// `args`; fails with `InvalidCommandIndex` for an untracked session.
    pub fn command_start(&mut self, idx: usize, cmd: &str, args: &[String]) -> (r: Result<
        (),
        StateError,
    >)
        requires
            old(self).wf(),
        ensures
            final(self).wf(),
            final(self).evals() == old(self).evals(),
            old(self)@.contains_key(idx) ==> r is Ok && final(self)@ == old(self)@.insert(
                idx,
                record_step(old(self)@[idx], EventView::Start(cmd@, views(args@))),
            ),
            !old(self)@.contains_key(idx) ==> final(self)@ == old(self)@ && match r {
                Err(StateError::InvalidCommandIndex { idx: i }) => i == idx,
                _ => false,
            },
    {
        let e = CommandEvent::Start(cmd.to_owned(), clone_strings(args));
        self.record(idx, &e)
    }

    /// Records output of the command of session `idx`; fails with
    /// `InvalidCommandIndex` for an untracked session.
    pub fn command_output(&mut self, idx: usize, output: &[u8]) -> (r: Result<(), StateError>)
        requires
            old(self).wf(),
        ensures
            final(self).wf(),
            final(self).evals() == old(self).evals(),
            old(self)@.contains_key(idx) ==> r is Ok && final(self)@ == old(self)@.insert(
                idx,
                record_step(old(self)@[idx], EventView::Output(output@)),
            ),
            !old(self)@.contains_key(idx) ==> final(self)@ == old(self)@ && match r {
                Err(StateError::InvalidCommandIndex { idx: i }) => i == idx,
                _ => false,
            },
    {
        let mut bytes: Vec<u8> = Vec::new();
        push_all(output, &mut bytes);
        assert(bytes@ =~= output@);
        let e = CommandEvent::Output(bytes);
        self.record(idx, &e)
    }

    /// Records the exit of the command of session `idx`; fails with
    /// `InvalidCommandIndex` for an untracked session.
    pub fn command_exit(&mut self, idx: usize, status: ExitStatus) -> (r: Result<(), StateError>)
        requires
            old(self).wf(),
        ensures
            final(self).wf(),
            final(self).evals() == old(self).evals(),
            old(self)@.contains_key(idx) ==> r is Ok && final(self)@ == old(self)@.insert(
                idx,
                record_step(old(self)@[idx], EventView::Exit(status)),
            ),
            !old(self)@.contains_key(idx) ==> final(self)@ == old(self)@ && match r {
                Err(StateError::InvalidCommandIndex { idx: i }) => i == idx,
                _ => false,
            },
    {
        let e = CommandEvent::Exit(status);
        self.record(idx, &e)
    }

    /// Routes what one poll of session `idx`'s underlying stream gave. The
    /// events that the session's stream delivers (see `delivered`) are routed
    /// to its record and handed back for the print sink; at the end of its
    /// stream the session is removed; where its stream fails, it is removed
    /// and the error returned. Other sessions are not touched.
    pub fn route(&mut self, idx: usize, source: SourcePoll) -> (r: Result<Routed, StateError>)
        requires
            old(self).wf(),
        ensures
            final(self).wf(),
            (final(self)@, final(self).evals()) == after_route(
                old(self)@,
                old(self).evals(),
                idx,
                source,
            ),
            !old(self)@.contains_key(idx) ==> {
                &&& final(self)@ == old(self)@
                &&& final(self).evals() == old(self).evals()
                &&& match r {
                    Err(StateError::InvalidCommandIndex { idx: i }) => i == idx,
                    _ => false,
                }
            },
            old(self)@.contains_key(idx) ==> {
                let v = old(self).evals()[idx];
                match delivered(v, source) {
                    Some(evs) => {
                        &&& final(self)@ == old(self)@.insert(
                            idx,
                            record_steps(old(self)@[idx], evs),
                        )
                        &&& final(self).evals() == old(self).evals().insert(
                            idx,
                            EvalView { history: v.history + evs, ..v },
                        )
                        &&& match r {
                            Ok(Routed::Events(out)) => event_views(out@) == evs,
                            _ => false,
                        }
                    },
                    None => match source {
                        SourcePoll::NotReady => {
                            &&& final(self)@ == old(self)@
                            &&& final(self).evals() == old(self).evals()
                            &&& r matches Ok(Routed::Idle)
                        },
                        SourcePoll::End => {
                            &&& final(self)@ == old(self)@.remove(idx)
                            &&& final(self).evals() == old(self).evals().remove(idx)
                            &&& r matches Ok(Routed::Removed)
                        },
                        SourcePoll::Event(_) => {
                            &&& final(self)@ == old(self)@.remove(idx)
                            &&& final(self).evals() == old(self).evals().remove(idx)
                            &&& match r {
                                Err(StateError::Eval { source: EvalError::OutOfOrder { cmd } }) => cmd@
                                    == v.cmd,
                                _ => false,
                            }
                        },
                        SourcePoll::BuiltinFailed(err) => {
                            &&& final(self)@ == old(self)@.remove(idx)
                            &&& final(self).evals() == old(self).evals().remove(idx)
                            &&& match r {
                                Err(
                                    StateError::Eval {
                                        source: EvalError::BuiltinExecution { cmd, source: s },
                                    },
                                ) => cmd@ == v.cmd && s == err,
                                _ => false,
                            }
                        },
                        SourcePoll::ProcessFailed(err) => {
                            &&& final(self)@ == old(self)@.remove(idx)
                            &&& final(self).evals() == old(self).evals().remove(idx)
                            &&& match r {
                                Err(
                                    StateError::Eval {
                                        source: EvalError::ProcessExecution { cmd, source: s },
                                    },
                                ) => cmd@ == v.cmd && s == err,
                                _ => false,
                            }
                        },
                    },
                }
            },
    {
        let removed = self.commands.remove(&idx);
        match removed {
            None => Err(StateError::InvalidCommandIndex { idx }),
            Some(c) => {
                let mut c = c;
                let ghost c0 = c;
                assert(self@ =~= old(self)@.remove(idx));
                assert(self.evals() =~= old(self).evals().remove(idx));
                match c.eval.poll(source) {
                    Ok(EvalPoll::Events(evs)) => {
                        c.apply_all(&evs);
                        self.commands.insert(idx, c);
                        assert(self@ =~= old(self)@.insert(
                            idx,
                            record_steps(c0@, event_views(evs@)),
                        ));
                        assert(self.evals() =~= old(self).evals().insert(idx, c.eval_view()));
                        Ok(Routed::Events(evs))
                    },
                    Ok(EvalPoll::End) => Ok(Routed::Removed),
                    Ok(EvalPoll::NotReady) => {
                        self.commands.insert(idx, c);
                        assert(self@ =~= old(self)@);
                        assert(self.evals() =~= old(self).evals());
                        Ok(Routed::Idle)
                    },
                    Err(e) => Err(StateError::Eval { source: e }),
                }
            },
        }
    }
}

impl State {
    /// The output recorded for session `idx`, if it is tracked.
    pub fn output_of(&self, idx: usize) -> (r: Option<Vec<u8>>)
        ensures
            match r {
                Some(o) => self@.contains_key(idx) && o@ == self@[idx].output,
                None => !self@.contains_key(idx),
            },
    {
        match self.commands.get(&idx) {
            Some(c) => {
                let mut o: Vec<u8> = Vec::new();
                push_all(c.output.as_slice(), &mut o);
                assert(o@ =~= c.output@);
                Some(o)
            },
            None => None,
        }
    }

    /// The exit status recorded for session `idx`: `None` for an untracked
    /// session, `Some(None)` before its command exited.
    pub fn status_of(&self, idx: usize) -> (r: Option<Option<ExitStatus>>)
        ensures
            match r {
                Some(s) => self@.contains_key(idx) && s == self@[idx].status,
                None => !self@.contains_key(idx),
            },
    {
        match self.commands.get(&idx) {
            Some(c) => Some(c.status),
            None => None,
        }
    }

    /// The command name recorded for session `idx`: `None` for an untracked
    /// session, `Some(None)` before its command started.
    pub fn name_of(&self, idx: usize) -> (r: Option<Option<String>>)
        ensures
            match r {
                Some(Some(n)) => self@.contains_key(idx) && self@[idx].cmd == Some(n@),
                Some(None) => self@.contains_key(idx) && self@[idx].cmd is None,
                None => !self@.contains_key(idx),
            },
    {
        match self.commands.get(&idx) {
            Some(c) => match &c.cmd {
                Some(n) => Some(Some(n.clone())),
                None => Some(None),
            },
            None => None,
        }
    }
}

/// The abstract forms of events tagged with their session.
pub open spec fn tagged_views(v: Seq<(usize, CommandEvent)>) -> Seq<(usize, EventView)> {
    v.map_values(|p: (usize, CommandEvent)| (p.0, p.1@))
}

/// Appends each of `evs`, tagged with `idx`, to `printed`.
fn push_tagged(printed: &mut Vec<(usize, CommandEvent)>, idx: usize, evs: Vec<CommandEvent>)
    ensures
        tagged_views(final(printed)@) == tagged_views(old(printed)@) + event_views(evs@).map_values(
            |ev: EventView| (idx, ev),
        ),
{
    let ghost before = tagged_views(printed@);
    let ghost all = event_views(evs@);
    let mut evs = evs;
    let ghost mut k: int = 0;
    while evs.len() > 0
        invariant
            0 <= k <= all.len(),
            event_views(evs@) == all.subrange(k, all.len() as int),
            tagged_views(printed@) == before + all.subrange(0, k).map_values(
                |ev: EventView| (idx, ev),
            ),
        decreases evs@.len(),
    {
        let ghost rest = evs@;
        let ev = evs.remove(0);
        assert(ev == rest[0]);
        assert(event_views(rest).len() == rest.len());
        assert(k < all.len());
        assert(event_views(rest)[0] == rest[0]@);
        assert(event_views(rest)[0] == all.subrange(k, all.len() as int)[0]);
        assert(ev@ == all[k]);
        assert(evs@ =~= rest.subrange(1, rest.len() as int));
        assert(event_views(evs@) =~= event_views(rest).subrange(1, rest.len() as int));
        assert(event_views(evs@) =~= all.subrange(k + 1, all.len() as int));
        let ghost pv = printed@;
        printed.push((idx, ev));
        assert(tagged_views(printed@) =~= tagged_views(pv).push((idx, ev@)));
        assert(all.subrange(0, k + 1).map_values(|ev: EventView| (idx, ev)) =~= all.subrange(
            0,
            k,
        ).map_values(|ev: EventView| (idx, ev)).push((idx, all[k])));
        proof {
            k = k + 1;
        }
    }
    assert(all.subrange(0, k) =~= all);
}

/// The outcome of one fairness pass.
pub struct Pass {
    /// Whether any session made progress.
    pub progress: bool,
    /// The events for the print sink, tagged with their session, in order.
    pub printed: Vec<(usize, CommandEvent)>,
    /// The errors of the polls that failed, in order.
    pub errors: Vec<StateError>,
}

impl State {
    /// One fairness pass: routes each poll of `polls` (one per session,
    /// gathered by the caller) in turn. A failing session is removed and its
    /// error collected; the others go on. Where no session made progress the
    /// caller waits for the next wake-up.
    pub fn drive(&mut self, polls: Vec<(usize, SourcePoll)>) -> (r: Pass)
        requires
            old(self).wf(),
        ensures
            final(self).wf(),
            ({
                let p = pass(old(self)@, old(self).evals(), polls@);
                &&& final(self)@ == p.records
                &&& final(self).evals() == p.evals
                &&& r.progress == p.progress
                &&& tagged_views(r.printed@) == p.printed
                &&& r.errors@.len() == p.failures
            }),
    {
        let ghost m0 = self@;
        let ghost e0 = self.evals();
        let ghost all = polls@;
        let mut polls = polls;
        let mut progress = false;
        let mut printed: Vec<(usize, CommandEvent)> = Vec::new();
        let mut errors: Vec<StateError> = Vec::new();
        let ghost mut i: int = 0;
        while polls.len() > 0
            invariant
                self.wf(),
                0 <= i <= all.len(),
                polls@ == all.subrange(i, all.len() as int),
                ({
                    let p = pass(m0, e0, all.subrange(0, i));
                    &&& self@ == p.records
                    &&& self.evals() == p.evals
                    &&& progress == p.progress
                    &&& tagged_views(printed@) == p.printed
                    &&& errors@.len() == p.failures
                }),
            decreases polls@.len(),
        {
            let ghost rest = polls@;
            let ghost m1 = self@;
            let ghost e1 = self.evals();
            let (idx, source) = polls.remove(0);
            assert(polls@ =~= all.subrange(i + 1, all.len() as int));
            assert(all.subrange(0, i + 1).drop_last() =~= all.subrange(0, i));
            assert(all.subrange(0, i + 1).last() == rest[0]);
            let ghost src = source;
            let known = self.contains(idx);
            let routed = self.route(idx, source);
            let ghost outcome = route_outcome(e1[idx], src);
            match routed {
                Ok(Routed::Events(evs)) => {
                    assert(known && outcome == RouteOutcome::Events(event_views(evs@)));
                    progress = true;
                    push_tagged(&mut printed, idx, evs);
                },
                Ok(Routed::Removed) => {
                    assert(known && outcome is Removed);
                    progress = true;
                },
                Ok(Routed::Idle) => {
                    assert(known && outcome is Idle);
                },
                Err(e) => {
                    assert(!known || outcome is Failed);
                    errors.push(e);
                    progress = progress || known;
                },
            }
            proof {
                i = i + 1;
            }
        }
        assert(all.subrange(0, i) =~= all);
        Pass { progress, printed, errors }
    }
}

} // verus!
