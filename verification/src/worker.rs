//! The delivery worker: the one consumer of the event channel and the one
//! writer of the device connection.
//!
//! The worker is a state machine. Its driver performs the action the worker
//! asks for (connect, receive, write, start a timer) and reports the outcome
//! as an event; the worker decides what comes next. Messages therefore leave
//! in the order in which events were received, a timer is started only for a
//! note whose message went out, and nothing is written before the connection
//! stands or after the worker has stopped.

use vstd::prelude::*;
use crate::note::Note;
use crate::timer::{schedule, timer_for, Timer};
use crate::wire::{encode, frame};

verus! {

/// Why the worker stopped.
#[derive(Clone, Copy, Debug, PartialEq, Eq, Structural)]
pub enum Exit {
    /// Connection setup failed; no message was written.
    NoConnection,
    /// Every sender is gone and every queued event has been delivered.
    Drained,
    /// The device refused a message. There is no retry.
    DeviceWrite,
}

/// What the driver reports to the worker.
#[derive(Clone, Copy, Debug, PartialEq, Eq, Structural)]
pub enum Event {
    /// The connection to the device stands.
    Connected,
    /// Connection setup failed.
    ConnectFailed,
    /// The channel yielded this event.
    Received(Note),
    /// The channel is empty and no sender is left.
    Closed,
    /// The device took the message.
    Written,
    /// The device refused the message.
    WriteFailed,
    /// The timer task has been started.
    Scheduled,
}

/// What the worker asks its driver to do.
#[derive(Clone, Copy, Debug, PartialEq, Eq)]
pub enum Action {
    /// Set up the connection to the device.
    Connect,
    /// Wait for the next event on the channel.
    Receive,
    /// Write this message to the device.
    Write([u8; 3]),
    /// Start an independent task for this timer.
    Schedule(Timer),
    /// Leave the loop.
    Stop(Exit),
}

/// Where the worker stands.
#[derive(Clone, Copy, Debug, PartialEq, Eq, Structural)]
pub enum Phase {
    /// Waiting for the connection.
    Connecting,
    /// Waiting for the next event.
    Idle,
    /// Waiting for the device to take the message of this event.
    Writing(Note),
    /// Waiting for this timer's task to be started.
    Scheduling(Timer),
    /// Stopped for good.
    Stopped(Exit),
}

impl Phase {
    /// The action a worker in this phase is waiting on.
    pub open spec fn pending(self) -> Action {
        match self {
            Phase::Connecting => Action::Connect,
            Phase::Idle => Action::Receive,
            Phase::Writing(note) => Action::Write(frame(note)),
            Phase::Scheduling(timer) => Action::Schedule(timer),
            Phase::Stopped(exit) => Action::Stop(exit),
        }
    }

    /// Where the worker goes once the message of `note` is out: a note that
    /// starts gets its timer, a note that ends needs nothing more.
    pub open spec fn after_write(note: Note) -> Phase {
        if note.is_on() {
            Phase::Scheduling(timer_for(note.pitch, note.dur))
        } else {
            Phase::Idle
        }
    }

    /// The phase after `event`. An event that does not answer the pending
    /// action changes nothing.
    pub open spec fn next(self, event: Event) -> Phase {
        match (self, event) {
            (Phase::Connecting, Event::Connected) => Phase::Idle,
            (Phase::Connecting, Event::ConnectFailed) => Phase::Stopped(Exit::NoConnection),
            (Phase::Idle, Event::Received(note)) => Phase::Writing(note),
            (Phase::Idle, Event::Closed) => Phase::Stopped(Exit::Drained),
            (Phase::Writing(note), Event::Written) => Phase::after_write(note),
            (Phase::Writing(_), Event::WriteFailed) => Phase::Stopped(Exit::DeviceWrite),
            (Phase::Scheduling(_), Event::Scheduled) => Phase::Idle,
            _ => self,
        }
    }
}

/// A worker that has stopped stays stopped, for the same reason.
pub proof fn law_stop_is_final(exit: Exit, event: Event)
    ensures
        Phase::Stopped(exit).next(event) == Phase::Stopped(exit),
{
}

/// The worker stops for three reasons and no other: connection setup failed,
/// the channel closed while the worker was waiting for an event, or the
/// device refused a message.
pub proof fn law_stops_for_cause(phase: Phase, event: Event)
    requires
        !(phase is Stopped),
        phase.next(event) is Stopped,
    ensures
        phase.next(event) == (match event {
            Event::ConnectFailed => Phase::Stopped(Exit::NoConnection),
            Event::Closed => Phase::Stopped(Exit::Drained),
            _ => Phase::Stopped(Exit::DeviceWrite),
        }),
        event == Event::ConnectFailed <==> phase == Phase::Connecting,
        event == Event::Closed <==> phase == Phase::Idle,
        event == Event::WriteFailed <==> phase is Writing,
{
}

/// A message is asked for only when an event has been received, and it is
/// the message of that event.
pub proof fn law_writes_what_was_received(phase: Phase, event: Event)
    requires
        !(phase is Writing),
        phase.next(event) is Writing,
    ensures
        phase == Phase::Idle,
        event matches Event::Received(note) && phase.next(event).pending() == Action::Write(
            frame(note),
        ),
{
}

/// A timer is asked for only when the message of a note that starts has gone
/// out. It waits for that note's duration and then ends that note.
pub proof fn law_timer_follows_note_on(phase: Phase, event: Event)
    requires
        !(phase is Scheduling),
        phase.next(event) is Scheduling,
    ensures
        event == Event::Written,
        phase matches Phase::Writing(note) && note.is_on() && phase.next(event).pending()
            == Action::Schedule(Timer { delay_ms: note.dur, note: Note::off(note.pitch) }),
{
}

/// The delivery worker.
#[derive(Clone, Copy, Debug)]
pub struct Worker {
    phase: Phase,
}

impl View for Worker {
    type V = Phase;

    closed spec fn view(&self) -> Phase {
        self.phase
    }
}

impl Worker {
    /// A worker that has yet to connect.
    pub fn new() -> (worker: Worker)
        ensures
            worker@ == Phase::Connecting,
    {
        Worker { phase: Phase::Connecting }
    }

    /// The action the worker is waiting on.
    pub fn action(&self) -> (action: Action)
        ensures
            action == self@.pending(),
    {
        match self.phase {
            Phase::Connecting => Action::Connect,
            Phase::Idle => Action::Receive,
            Phase::Writing(note) => Action::Write(encode(&note)),
            Phase::Scheduling(timer) => Action::Schedule(timer),
            Phase::Stopped(exit) => Action::Stop(exit),
        }
    }

    /// Takes in `event` and returns the action to perform next.
    pub fn step(&mut self, event: Event) -> (action: Action)
        ensures
            final(self)@ == old(self)@.next(event),
            action == final(self)@.pending(),
    {
        match (self.phase, event) {
            (Phase::Connecting, Event::Connected) => {
                self.phase = Phase::Idle;
            },
            (Phase::Connecting, Event::ConnectFailed) => {
                self.phase = Phase::Stopped(Exit::NoConnection);
            },
            (Phase::Idle, Event::Received(note)) => {
                self.phase = Phase::Writing(note);
            },
            (Phase::Idle, Event::Closed) => {
                self.phase = Phase::Stopped(Exit::Drained);
            },
            (Phase::Writing(note), Event::Written) => {
                if note.vel > 0 {
                    self.phase = Phase::Scheduling(schedule(note.pitch, note.dur));
                } else {
                    self.phase = Phase::Idle;
                }
            },
            (Phase::Writing(_), Event::WriteFailed) => {
                self.phase = Phase::Stopped(Exit::DeviceWrite);
            },
            (Phase::Scheduling(_), Event::Scheduled) => {
                self.phase = Phase::Idle;
            },
            _ => {},
        }
        self.action()
    }
}

} // verus!
