use vstd::prelude::*;

use crate::eval::ExitStatus;
use crate::newline::{crlf, to_crlf};

verus! {

/// Why a process stream failed: the operating system's message.
#[derive(Clone, Debug, PartialEq, Eq)]
pub enum ProcessError {
    IOError(String),
}

/// What a child on a pseudo-terminal produced.
#[derive(Clone, Debug, PartialEq, Eq)]
pub enum ProcessEvent {
    /// Output, already in terminal form.
    Output(Vec<u8>),
    /// The child exited.
    Exit(ExitStatus),
}

/// What a non-blocking read of the terminal's master side gave.
#[derive(Clone, Debug, PartialEq, Eq)]
pub enum ReadOutcome {
    Data(Vec<u8>),
    /// Nothing to read yet.
    WouldBlock,
    /// The read failed: the child closed its side.
    Failed,
}

/// What polling the child for its exit gave.
#[derive(Clone, Debug, PartialEq, Eq)]
pub enum WaitOutcome {
    Exited(ExitStatus),
    Running,
    Failed(String),
}

/// What the stream needs next.
#[derive(Clone, Copy, Debug, PartialEq, Eq, Structural)]
pub enum PtyAction {
    /// Read the master side and hand the outcome to `on_read`.
    ReadOutput,
    /// Poll the child and hand the outcome to `on_wait`.
    WaitExit,
    /// The stream has ended.
    Finished,
}

/// The result of one step of the stream.
#[derive(Clone, Debug, PartialEq, Eq)]
pub enum PtyStep {
    Event(ProcessEvent),
    /// Nothing now: wait for the next wake-up.
    NotReady,
    /// Ask `next_action` again at once.
    Continue,
}

/// The event stream of a child attached to a pseudo-terminal: output until
/// reading fails, then exactly one exit, then the end.
pub struct RunningProcess {
    output_done: bool,
    exit_done: bool,
}

/// The abstract state of a process stream.
pub struct ProcessView {
    pub output_done: bool,
    pub exit_done: bool,
}

impl View for RunningProcess {
    type V = ProcessView;

    closed spec fn view(&self) -> ProcessView {
        ProcessView { output_done: self.output_done, exit_done: self.exit_done }
    }
}

impl RunningProcess {
    /// The stream's invariant: the exit is waited for only once output ended.
    pub open spec fn wf(&self) -> bool {
        self@.exit_done ==> self@.output_done
    }

    /// A stream whose output and exit are both still to come.
    pub fn new() -> (r: Self)
        ensures
            r.wf(),
            !r@.output_done,
            !r@.exit_done,
    {
        RunningProcess { output_done: false, exit_done: false }
    }

    /// What the stream needs next: output first, then the exit.
    pub fn next_action(&self) -> (r: PtyAction)
        ensures
            r == (if !self@.output_done {
                PtyAction::ReadOutput
            } else if !self@.exit_done {
                PtyAction::WaitExit
            } else {
                PtyAction::Finished
            }),
    {
        if !self.output_done {
            PtyAction::ReadOutput
        } else if !self.exit_done {
            PtyAction::WaitExit
        } else {
            PtyAction::Finished
        }
    }

    /// Handles a read of the master side. Bytes become an `Output` event in
    /// terminal form; an empty read or none at all is "not ready"; a failed
    /// read ends the output, and the exit is polled next.
    pub fn on_read(&mut self, outcome: ReadOutcome) -> (r: PtyStep)
        requires
            old(self).wf(),
            !old(self)@.output_done,
        ensures
            final(self).wf(),
            final(self)@.exit_done == old(self)@.exit_done,
            final(self)@.output_done == (outcome == ReadOutcome::Failed),
            match outcome {
                ReadOutcome::Data(bytes) => if bytes@.len() == 0 {
                    r == PtyStep::NotReady
                } else {
                    match r {
                        PtyStep::Event(ProcessEvent::Output(out)) => out@ == crlf(bytes@),
                        _ => false,
                    }
                },
                ReadOutcome::WouldBlock => r == PtyStep::NotReady,
                ReadOutcome::Failed => r == PtyStep::Continue,
            },
    {
        match outcome {
            ReadOutcome::Data(bytes) => {
                if bytes.len() == 0 {
                    PtyStep::NotReady
                } else {
                    PtyStep::Event(ProcessEvent::Output(to_crlf(bytes.as_slice())))
                }
            },
            ReadOutcome::WouldBlock => PtyStep::NotReady,
            ReadOutcome::Failed => {
                self.output_done = true;
                PtyStep::Continue
            },
        }
    }

    /// Handles a poll of the child, once its output ended. An exit becomes
    /// the stream's one `Exit` event; a failure of the poll is an error.
    pub fn on_wait(&mut self, outcome: WaitOutcome) -> (r: Result<PtyStep, ProcessError>)
        requires
            old(self).wf(),
            old(self)@.output_done,
            !old(self)@.exit_done,
        ensures
            final(self).wf(),
            final(self)@.output_done,
            final(self)@.exit_done == (outcome is Exited),
            match outcome {
                WaitOutcome::Exited(status) => r == Ok::<PtyStep, ProcessError>(
                    PtyStep::Event(ProcessEvent::Exit(status)),
                ),
                WaitOutcome::Running => r == Ok::<PtyStep, ProcessError>(PtyStep::NotReady),
                WaitOutcome::Failed(msg) => match r {
                    Err(ProcessError::IOError(m)) => m@ == msg@,
                    _ => false,
                },
            },
    {
        match outcome {
            WaitOutcome::Exited(status) => {
                self.exit_done = true;
                Ok(PtyStep::Event(ProcessEvent::Exit(status)))
            },
            WaitOutcome::Running => Ok(PtyStep::NotReady),
            WaitOutcome::Failed(msg) => Err(ProcessError::IOError(msg)),
        }
    }
}

} // verus!
