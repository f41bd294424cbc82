//! The switch and indicator pair: a reader that watches the switch and a
//! writer that drives the indicator, joined by a queue of events. These are
//! the decisions each of them takes.

use vstd::prelude::*;

verus! {

/// A logic level of a pin.
#[derive(Clone, Copy, Debug, PartialEq, Eq, Structural)]
pub enum Level {
    Low,
    High,
}

/// An event on the queue from the reader to the writer.
#[derive(Clone, Copy, Debug, PartialEq, Eq, Structural)]
pub enum SwitchEvent {
    /// The switch is at this level.
    Level(Level),
    /// The reader has stopped; the writer stops too.
    Quit,
}

/// Result of one bounded wait for an edge on the switch pin.
#[derive(Clone, Copy, Debug, PartialEq, Eq, Structural)]
pub enum PollOutcome {
    /// An edge arrived; the level after it.
    Edge(Level),
    /// The wait timed out.
    TimedOut,
    /// The wait failed.
    Failed,
}

/// What the reader does next.
#[derive(Clone, Copy, Debug, PartialEq, Eq, Structural)]
pub enum ReaderAction {
    /// Queue this level, then wait again.
    Send(Level),
    /// Read the pin, queue its level, then wait again.
    SendCurrentLevel,
    /// Queue the terminal event and stop.
    Quit,
}

/// What the writer does with an event.
#[derive(Clone, Copy, Debug, PartialEq, Eq, Structural)]
pub enum WriterAction {
    /// Drive the indicator to this level.
    Drive(Level),
    /// Stop.
    Exit,
}

/// The reader's decision after one wait. Cancellation is looked at when the
/// wait times out, since an edge wait cannot itself observe it; a reader that
/// stops always queues the terminal event, so that the writer stops with it.
pub fn reader_step(outcome: PollOutcome, cancelled: bool) -> (r: ReaderAction)
    ensures
        r == match outcome {
            PollOutcome::Edge(level) => ReaderAction::Send(level),
            PollOutcome::TimedOut => if cancelled {
                ReaderAction::Quit
            } else {
                ReaderAction::SendCurrentLevel
            },
            PollOutcome::Failed => ReaderAction::Quit,
        },
{
    match outcome {
        PollOutcome::Edge(level) => ReaderAction::Send(level),
        PollOutcome::TimedOut => if cancelled {
            ReaderAction::Quit
        } else {
            ReaderAction::SendCurrentLevel
        },
        PollOutcome::Failed => ReaderAction::Quit,
    }
}

/// The writer's decision for one event: mirror a level, stop on the terminal
/// event.
pub fn writer_step(event: SwitchEvent) -> (r: WriterAction)
    ensures
        r == match event {
            SwitchEvent::Level(level) => WriterAction::Drive(level),
            SwitchEvent::Quit => WriterAction::Exit,
        },
{
    match event {
        SwitchEvent::Level(level) => WriterAction::Drive(level),
        SwitchEvent::Quit => WriterAction::Exit,
    }
}

} // verus!
