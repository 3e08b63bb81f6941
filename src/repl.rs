use vstd::prelude::*;

use crate::eval::EvalError;
use crate::parser::ParseError;
use crate::readline::ReadlineError;
use crate::state::StateError;

verus! {

/// Why one round of the read-eval-print loop failed.
#[derive(Debug)]
pub enum ReplError {
    /// Reading the line failed.
    Read { source: ReadlineError },
    /// Evaluating it failed.
    Eval { source: EvalError },
    /// The multiplexer refused it or dropped its session.
    State { source: StateError },
    /// Writing to the terminal failed.
    Print,
}

/// What the loop does after a round.
#[derive(Clone, Copy, Debug, PartialEq, Eq, Structural)]
pub enum Control {
    /// Prompt again.
    Continue,
    /// Report the error, then prompt again.
    Report,
    /// Stop.
    Break,
}

/// True for the error of an empty line.
pub open spec fn is_empty_line(e: ReplError) -> bool {
    match e {
        ReplError::Eval { source: EvalError::Parser { source, .. } } => source
            == ParseError::CommandRequired,
        ReplError::State {
            source: StateError::Eval { source: EvalError::Parser { source, .. } },
        } => source == ParseError::CommandRequired,
        _ => false,
    }
}

/// What follows a round that ended with `outcome`: success and an empty line
/// prompt again silently; the end of input stops the loop; any other error
/// is reported, then the loop prompts again.
pub fn next_step(outcome: &Result<(), ReplError>) -> (r: Control)
    ensures
        r == match outcome {
            Ok(()) => Control::Continue,
            Err(e) => if is_empty_line(*e) {
                Control::Continue
            } else if *e == (ReplError::Read { source: ReadlineError::EndOfInput }) {
                Control::Break
            } else {
                Control::Report
            },
        },
{
    match outcome {
        Ok(()) => Control::Continue,
        Err(ReplError::Eval { source: EvalError::Parser { source: ParseError::CommandRequired, .. } }) => {
            Control::Continue
        },
        Err(
            ReplError::State {
                source: StateError::Eval {
                    source: EvalError::Parser { source: ParseError::CommandRequired, .. },
                },
            },
        ) => Control::Continue,
        Err(ReplError::Read { source: ReadlineError::EndOfInput }) => Control::Break,
        Err(_) => Control::Report,
    }
}

/// The top-level loop's own state: the id of the current session, and
/// whether a line is being read.
pub struct Tui {
    idx: usize,
    reading: bool,
}

/// The abstract state of the top-level loop.
pub struct TuiView {
    pub idx: nat,
    pub reading: bool,
}

impl View for Tui {
    type V = TuiView;

    closed spec fn view(&self) -> TuiView {
        TuiView { idx: self.idx as nat, reading: self.reading }
    }
}

impl Tui {
    /// No session yet, and no line being read.
    pub fn new() -> (r: Self)
        ensures
            r@.idx == 0,
            !r@.reading,
    {
        Tui { idx: 0, reading: false }
    }

    /// The id of the current session.
    pub fn idx(&self) -> (r: usize)
        ensures
            r == self@.idx,
    {
        self.idx
    }

    /// Decides whether to start reading a line: only when none is being
    /// read and no command runs. A new line gets the next session id, so ids
    /// are never reused.
    pub fn poll_read(&mut self, commands_running: bool) -> (r: bool)
        requires
            old(self)@.idx < usize::MAX,
        ensures
            r == (!old(self)@.reading && !commands_running),
            r ==> final(self)@ == (TuiView { idx: old(self)@.idx + 1, reading: true }),
            !r ==> final(self)@ == old(self)@,
    {
        if !self.reading && !commands_running {
            self.idx = self.idx + 1;
            self.reading = true;
            true
        } else {
            false
        }
    }

    /// Records that the line being read was completed or abandoned.
    pub fn line_done(&mut self)
        ensures
            final(self)@ == (TuiView { reading: false, ..old(self)@ }),
    {
        self.reading = false;
    }
}

} // verus!
