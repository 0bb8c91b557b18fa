//! A model of the relay as a whole.
//!
//! The model puts the worker and the timers, as they are defined in this
//! crate, together with what surrounds them: a clock, any number of producers,
//! an unbounded first-in first-out channel with one receiver, and a device
//! that takes or refuses each message. The channel and the device are the
//! caller's; the model says what is taken for granted of them.
//!
//! A run is any sequence of moves. Each move is one thing that can happen:
//! time passes, a producer sends, the channel or the device answers the
//! worker, a timer wakes or sends. A move that cannot happen in the state it
//! meets changes nothing, so every sequence of moves is a run, and what is
//! proved of all runs holds of every interleaving.

use vstd::prelude::*;
use crate::connect::selection;
use crate::note::Note;
use crate::timer::{Stage, TimerEvent};
use crate::wire::frame;
use crate::worker::{Event, Phase};

verus! {

/// Who sent an event.
pub enum Source {
    /// The producer of this number.
    Producer(nat),
    /// The timer started for the message at this position on the wire.
    Timer(int),
}

/// An event that the channel took.
pub struct Arrival {
    pub at: nat,
    pub from: Source,
    pub note: Note,
}

/// A message that the device took.
pub struct Output {
    pub at: nat,
    pub msg: [u8; 3],
}

/// A timer task and its record.
pub struct Running {
    pub stage: Stage,
    /// When the task began to sleep.
    pub started: nat,
    /// Where in the channel's history its event stands, once sent.
    pub slot: Option<int>,
}

/// The state of the relay.
pub struct System {
    /// Output ports present when setup runs.
    pub ports: usize,
    /// Milliseconds since the start.
    pub now: nat,
    pub worker: Phase,
    /// Events waiting in the channel, oldest first.
    pub queue: Seq<Note>,
    /// Whether the producers have dropped their handles.
    pub hung_up: bool,
    /// The timer tasks, each under the wire position of the note it ends.
    pub timers: Map<int, Running>,
    /// Every event the channel ever took, oldest first.
    pub taken: Seq<Arrival>,
    /// Every message the device ever took, oldest first.
    pub wire: Seq<Output>,
}

/// One thing that can happen.
pub enum Move {
    /// This many milliseconds pass.
    Tick(nat),
    /// A producer sends an event.
    Send(nat, Note),
    /// The producers drop their handles.
    HangUp,
    /// Connection setup ends. The line is what was typed at the prompt, if
    /// there was one; the flag says whether the device could be opened.
    Setup(Seq<char>, bool),
    /// The channel answers the worker's receive.
    Receive,
    /// The device takes the worker's message, or refuses it.
    Write(bool),
    /// The task of the timer that the worker asked for starts.
    Spawn,
    /// The sleep of this timer ends.
    Wake(int),
    /// This timer sends its event.
    Emit(int),
}

/// The state in which every run starts.
pub open spec fn start(ports: usize) -> System {
    System {
        ports,
        now: 0,
        worker: Phase::Connecting,
        queue: Seq::empty(),
        hung_up: false,
        timers: Map::empty(),
        taken: Seq::empty(),
        wire: Seq::empty(),
    }
}

/// Whether the channel still has its receiver.
pub open spec fn receiving(s: System) -> bool {
    !(s.worker is Stopped)
}

/// The state after the channel took `note` from `from`.
pub open spec fn accept(s: System, from: Source, note: Note) -> System {
    System {
        queue: s.queue.push(note),
        taken: s.taken.push(Arrival { at: s.now, from, note }),
        ..s
    }
}

/// The state after `m`.
pub open spec fn step(s: System, m: Move) -> System {
    match m {
        Move::Tick(ms) => System { now: s.now + ms, ..s },
        Move::Send(producer, note) => {
            if receiving(s) && !s.hung_up {
                accept(s, Source::Producer(producer), note)
            } else {
                s
            }
        },
        Move::HangUp => System { hung_up: true, ..s },
        Move::Setup(line, device_ok) => {
            if s.worker == Phase::Connecting {
                let event = if selection(s.ports, line) is Ok && device_ok {
                    Event::Connected
                } else {
                    Event::ConnectFailed
                };
                System { worker: s.worker.next(event), ..s }
            } else {
                s
            }
        },
        Move::Receive => {
            if s.worker == Phase::Idle && s.queue.len() > 0 {
                System {
                    worker: s.worker.next(Event::Received(s.queue[0])),
                    queue: s.queue.drop_first(),
                    ..s
                }
            } else if s.worker == Phase::Idle && s.hung_up {
                System { worker: s.worker.next(Event::Closed), ..s }
            } else {
                s
            }
        },
        Move::Write(ok) => {
            match s.worker {
                Phase::Writing(note) => {
                    if ok {
                        System {
                            worker: s.worker.next(Event::Written),
                            wire: s.wire.push(Output { at: s.now, msg: frame(note) }),
                            ..s
                        }
                    } else {
                        System { worker: s.worker.next(Event::WriteFailed), ..s }
                    }
                },
                _ => s,
            }
        },
        Move::Spawn => {
            match s.worker {
                Phase::Scheduling(timer) => {
                    let task = Running {
                        stage: Stage::Sleeping(timer),
                        started: s.now,
                        slot: None,
                    };
                    System {
                        worker: s.worker.next(Event::Scheduled),
                        timers: s.timers.insert(s.wire.len() - 1, task),
                        ..s
                    }
                },
                _ => s,
            }
        },
        Move::Wake(id) => {
            if s.timers.dom().contains(id) {
                let task = s.timers[id];
                match task.stage {
                    Stage::Sleeping(timer) => {
                        if s.now >= task.started + timer.delay_ms {
                            let woken = Running {
                                stage: task.stage.next(TimerEvent::Woke),
                                ..task
                            };
                            System { timers: s.timers.insert(id, woken), ..s }
                        } else {
                            s
                        }
                    },
                    _ => s,
                }
            } else {
                s
            }
        },
        Move::Emit(id) => {
            if s.timers.dom().contains(id) {
                let task = s.timers[id];
                match task.stage {
                    Stage::Sending(note) => {
                        if receiving(s) {
                            let done = Running {
                                stage: task.stage.next(TimerEvent::Sent),
                                slot: Some(s.taken.len() as int),
                                ..task
                            };
                            System {
                                timers: s.timers.insert(id, done),
                                ..accept(s, Source::Timer(id), note)
                            }
                        } else {
                            let done = Running {
                                stage: task.stage.next(TimerEvent::SendFailed),
                                ..task
                            };
                            System { timers: s.timers.insert(id, done), ..s }
                        }
                    },
                    _ => s,
                }
            } else {
                s
            }
        },
    }
}

/// The state after all of `moves`, one after the other.
pub open spec fn run(ports: usize, moves: Seq<Move>) -> System
    decreases moves.len(),
{
    if moves.len() == 0 {
        start(ports)
    } else {
        step(run(ports, moves.drop_last()), moves.last())
    }
}

} // verus!
