//! Delayed re-emission: the task that ends a note once its duration is over.
//!
//! Every note that starts gets a task of its own. The task waits for the
//! note's duration, sends the matching end-of-note event once, and is done.
//! Tasks share nothing and cannot be cancelled.

use vstd::prelude::*;
use crate::note::Note;

verus! {

/// What to send, and how long to wait before sending it.
#[derive(Clone, Copy, Debug, PartialEq, Eq, Structural)]
pub struct Timer {
    pub delay_ms: u64,
    pub note: Note,
}

/// The timer that ends a note of `pitch` after `duration` milliseconds.
pub open spec fn timer_for(pitch: u8, duration: u64) -> Timer {
    Timer { delay_ms: duration, note: Note::off(pitch) }
}

/// Makes the timer for a note of `pitch` that has just started.
pub fn schedule(pitch: u8, duration: u64) -> (timer: Timer)
    ensures
        timer == timer_for(pitch, duration),
        timer.delay_ms == duration,
        timer.note == (Note { pitch, vel: 0, dur: 0 }),
        !timer.note.is_on(),
{
    Timer { delay_ms: duration, note: Note::new(pitch, 0, 0) }
}

/// How a timer task ended.
#[derive(Clone, Copy, Debug, PartialEq, Eq, Structural)]
pub enum TimerExit {
    /// The event was handed to the channel.
    Sent,
    /// The receiving end was gone. Nothing but the timer itself is affected.
    ChannelClosed,
}

/// Where a timer task stands.
#[derive(Clone, Copy, Debug, PartialEq, Eq, Structural)]
pub enum Stage {
    Sleeping(Timer),
    Sending(Note),
    Done(TimerExit),
}

/// What the task asks its driver to do next.
#[derive(Clone, Copy, Debug, PartialEq, Eq, Structural)]
pub enum TimerAction {
    /// Suspend for this many milliseconds.
    Sleep(u64),
    /// Send this event on the channel.
    Send(Note),
    /// Nothing is left to do.
    Exit(TimerExit),
}

/// What the driver reports back.
#[derive(Clone, Copy, Debug, PartialEq, Eq, Structural)]
pub enum TimerEvent {
    /// The sleep is over.
    Woke,
    /// The channel took the event.
    Sent,
    /// The channel refused the event.
    SendFailed,
}

impl Stage {
    /// The action a timer at this stage is waiting on.
    pub open spec fn pending(self) -> TimerAction {
        match self {
            Stage::Sleeping(timer) => TimerAction::Sleep(timer.delay_ms),
            Stage::Sending(note) => TimerAction::Send(note),
            Stage::Done(exit) => TimerAction::Exit(exit),
        }
    }

    /// The stage after `event`. An event that does not answer the pending
    /// action changes nothing.
    pub open spec fn next(self, event: TimerEvent) -> Stage {
        match (self, event) {
            (Stage::Sleeping(timer), TimerEvent::Woke) => Stage::Sending(timer.note),
            (Stage::Sending(_), TimerEvent::Sent) => Stage::Done(TimerExit::Sent),
            (Stage::Sending(_), TimerEvent::SendFailed) => Stage::Done(TimerExit::ChannelClosed),
            _ => self,
        }
    }
}

/// A timer sends only once it has slept, and what it sends is its note.
pub proof fn law_sends_after_sleep(stage: Stage, event: TimerEvent)
    requires
        !(stage is Sending),
        stage.next(event) is Sending,
    ensures
        event == TimerEvent::Woke,
        stage matches Stage::Sleeping(timer) && stage.next(event).pending()
            == TimerAction::Send(timer.note),
{
}

/// A timer that is done stays done, however it ended.
pub proof fn law_done_is_final(exit: TimerExit, event: TimerEvent)
    ensures
        Stage::Done(exit).next(event) == Stage::Done(exit),
{
}

/// One timer task.
#[derive(Clone, Copy, Debug)]
pub struct TimerTask {
    stage: Stage,
}

impl View for TimerTask {
    type V = Stage;

    closed spec fn view(&self) -> Stage {
        self.stage
    }
}

impl TimerTask {
    /// A task that has yet to sleep.
    pub fn new(timer: Timer) -> (task: TimerTask)
        ensures
            task@ == Stage::Sleeping(timer),
    {
        TimerTask { stage: Stage::Sleeping(timer) }
    }

    /// The action the task is waiting on.
    pub fn action(&self) -> (action: TimerAction)
        ensures
            action == self@.pending(),
    {
        match self.stage {
            Stage::Sleeping(timer) => TimerAction::Sleep(timer.delay_ms),
            Stage::Sending(note) => TimerAction::Send(note),
            Stage::Done(exit) => TimerAction::Exit(exit),
        }
    }

    /// Takes in `event` and returns the action to perform next.
    pub fn step(&mut self, event: TimerEvent) -> (action: TimerAction)
        ensures
            final(self)@ == old(self)@.next(event),
            action == final(self)@.pending(),
    {
        match (self.stage, event) {
            (Stage::Sleeping(timer), TimerEvent::Woke) => {
                self.stage = Stage::Sending(timer.note);
            },
            (Stage::Sending(_), TimerEvent::Sent) => {
                self.stage = Stage::Done(TimerExit::Sent);
            },
            (Stage::Sending(_), TimerEvent::SendFailed) => {
                self.stage = Stage::Done(TimerExit::ChannelClosed);
            },
            _ => {},
        }
        self.action()
    }
}

} // verus!
