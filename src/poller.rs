//! The polling loop as a state machine: the caller waits for events (a timer
//! tick with what the clipboard read gave, the result of a persist, an
//! interrupt), hands each to `Poller::step`, and performs the action it returns.
use vstd::prelude::*;
use crate::clipboard::ClipboardRead;
use crate::pipeline::{decide, process, Decision};

verus! {

/// Where the loop is in its life.
#[derive(PartialEq, Eq, Structural, Clone, Copy, Debug)]
pub enum LoopState {
    /// Waiting for ticks.
    Running,
    /// An interrupt arrived: the loop ends normally.
    ShuttingDown,
    /// A fatal error arrived: the loop ends abnormally.
    Failed,
}

/// Something the loop waits for.
pub enum Event {
    /// The timer fired and the clipboard was read with this result.
    Tick(ClipboardRead),
    /// The last URL handed to the sink was stored.
    Persisted,
    /// The sink could not store the last URL; the message describes why.
    PersistFailed(String),
    /// An interrupt signal arrived.
    Interrupt,
}

/// The stage at which a fatal error happened, with its cause.
#[derive(Debug)]
pub enum Fault {
    /// Reading the clipboard failed.
    Clipboard(String),
    /// Writing a link to storage failed.
    Persist(String),
}

/// What the caller does next.
#[derive(Debug)]
pub enum Action {
    /// Wait for the next event.
    AwaitNext,
    /// Hand this canonical URL to the sink, then report the result.
    Persist(String),
    /// End the process normally.
    Exit,
    /// End the process with this error.
    Fail(Fault),
    /// The loop has already ended: nothing to do.
    Stopped,
}

/// The state of the polling loop: whether it still runs, and the last clipboard
/// text it accepted as new.
pub struct Poller {
    pub state: LoopState,
    pub snapshot: String,
}

impl Poller {
    /// A running loop that has seen no clipboard text yet.
    pub fn new() -> (r: Poller)
        ensures
            r.state == LoopState::Running,
            r.snapshot@ == Seq::<char>::empty(),
    {
        Poller { state: LoopState::Running, snapshot: String::new() }
    }

    /// Reacts to one event.
    ///
    /// While running: text read from the clipboard is processed against the
    /// snapshot and may ask for a persist; an empty or non-text clipboard and a
    /// stored link change nothing; a fatal clipboard or storage failure ends the
    /// loop with that error; an interrupt ends it normally. Once ended, the
    /// loop ignores further events.
    pub fn step(&mut self, event: Event) -> (action: Action)
        ensures
            old(self).state != LoopState::Running ==> *final(self) == *old(self)
                && action is Stopped,
            old(self).state == LoopState::Running ==> match event {
                Event::Tick(ClipboardRead::Text(s)) => {
                    &&& final(self).state == LoopState::Running
                    &&& final(self).snapshot@ == s@
                    &&& match decide(s@, old(self).snapshot@) {
                        Decision::Persist(u) => action matches Action::Persist(v) && v@ == u,
                        _ => action is AwaitNext,
                    }
                },
                Event::Tick(ClipboardRead::EmptyOrNonText) => *final(self) == *old(self)
                    && action is AwaitNext,
                Event::Tick(ClipboardRead::Fatal(m)) => {
                    &&& final(self).state == LoopState::Failed
                    &&& final(self).snapshot == old(self).snapshot
                    &&& action matches Action::Fail(Fault::Clipboard(c)) && c@ == m@
                },
                Event::Persisted => *final(self) == *old(self) && action is AwaitNext,
                Event::PersistFailed(m) => {
                    &&& final(self).state == LoopState::Failed
                    &&& final(self).snapshot == old(self).snapshot
                    &&& action matches Action::Fail(Fault::Persist(c)) && c@ == m@
                },
                Event::Interrupt => {
                    &&& final(self).state == LoopState::ShuttingDown
                    &&& final(self).snapshot == old(self).snapshot
                    &&& action is Exit
                },
            },
    {
        if self.state != LoopState::Running {
            return Action::Stopped;
        }
        match event {
            Event::Tick(ClipboardRead::Text(s)) => {
                let previous = self.snapshot.clone();
                let (next, outcome) = process(s, &previous);
                self.snapshot = next;
                match outcome {
                    crate::pipeline::PersistOutcome::Persist(u) => Action::Persist(u),
                    crate::pipeline::PersistOutcome::Skipped(_) => Action::AwaitNext,
                }
            },
            Event::Tick(ClipboardRead::EmptyOrNonText) => Action::AwaitNext,
            Event::Tick(ClipboardRead::Fatal(m)) => {
                self.state = LoopState::Failed;
                Action::Fail(Fault::Clipboard(m))
            },
            Event::Persisted => Action::AwaitNext,
            Event::PersistFailed(m) => {
                self.state = LoopState::Failed;
                Action::Fail(Fault::Persist(m))
            },
            Event::Interrupt => {
                self.state = LoopState::ShuttingDown;
                Action::Exit
            },
        }
    }
}

} // verus!
