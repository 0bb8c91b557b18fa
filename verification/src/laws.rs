//! What holds of every run of the relay.
//!
//! The laws are proved from one invariant, `sound`, which every move keeps.
//! Each law takes the number of ports and the moves of a run and speaks of
//! the state in which that run ends.

use vstd::prelude::*;
use crate::note::{Note, DATA_MAX};
use crate::system::{receiving, run, step, Arrival, Move, Output, Running, Source, System};
use crate::timer::{timer_for, Stage, Timer, TimerExit};
use crate::wire::{frame, lemma_frame_bytes, NOTE_OFF_MSG, NOTE_ON_MSG};
use crate::worker::{Exit, Phase};

verus! {

/// How many events the worker has taken from the channel that have no
/// message on the wire: the one it is writing, or the one the device refused.
pub open spec fn held(phase: Phase) -> nat {
    match phase {
        Phase::Writing(_) => 1,
        Phase::Stopped(Exit::DeviceWrite) => 1,
        _ => 0,
    }
}

/// The timer that ends the note at position `k`.
spec fn ending(s: System, k: int) -> Timer {
    timer_for(s.taken[k].note.pitch, s.taken[k].note.dur)
}

/// The channel's history is the wire, then what the worker holds, then the
/// queue; and nothing is on the wire while no connection stands.
spec fn in_order(s: System) -> bool {
    &&& s.taken.len() == s.wire.len() + held(s.worker) + s.queue.len()
    &&& forall|k: int|
        0 <= k < s.wire.len() ==> (#[trigger] s.wire[k]).msg == frame(s.taken[k].note)
    &&& forall|j: int|
        0 <= j < s.queue.len() ==> #[trigger] s.queue[j] == s.taken[s.wire.len() + held(s.worker)
            + j].note
    &&& (s.worker matches Phase::Writing(note) ==> s.taken[s.wire.len() as int].note == note)
    &&& (s.worker == Phase::Stopped(Exit::Drained) ==> s.queue.len() == 0)
    &&& (s.worker == Phase::Connecting || s.worker == Phase::Stopped(Exit::NoConnection)
        ==> s.wire.len() == 0)
    &&& (s.ports == 0 ==> s.worker == Phase::Connecting || s.worker == Phase::Stopped(
        Exit::NoConnection,
    ))
}

/// Nothing is dated in the future, and no message is older than its event.
spec fn timely(s: System) -> bool {
    &&& forall|k: int| 0 <= k < s.taken.len() ==> (#[trigger] s.taken[k]).at <= s.now
    &&& forall|k: int|
        0 <= k < s.wire.len() ==> s.taken[k].at <= (#[trigger] s.wire[k]).at <= s.now
}

/// The task under `k` belongs to a note that started at position `k`, began
/// to sleep once that note's message was out, and stands where its record
/// says.
spec fn task_sound(s: System, k: int) -> bool {
    let task = s.timers[k];
    let timer = ending(s, k);
    &&& 0 <= k < s.wire.len()
    &&& s.taken[k].note.is_on()
    &&& s.wire[k].at <= task.started <= s.now
    &&& match task.stage {
        Stage::Sleeping(t) => t == timer && task.slot is None,
        Stage::Sending(note) => {
            &&& note == timer.note
            &&& task.slot is None
            &&& s.now >= task.started + timer.delay_ms
        },
        Stage::Done(TimerExit::Sent) => {
            &&& task.slot matches Some(e)
            &&& 0 <= e < s.taken.len()
            &&& s.taken[e].from == Source::Timer(k)
        },
        Stage::Done(TimerExit::ChannelClosed) => task.slot is None && !receiving(s),
    }
}

/// An event that came from a timer is the one event of that timer, ends the
/// note the timer was started for, and came no sooner than the timer's delay
/// after the timer began to sleep.
spec fn arrival_sound(s: System, e: int) -> bool {
    s.taken[e].from matches Source::Timer(k) ==> {
        &&& s.timers.dom().contains(k)
        &&& s.timers[k].slot == Some(e)
        &&& s.taken[e].note == ending(s, k).note
        &&& s.taken[e].at >= s.timers[k].started + ending(s, k).delay_ms
    }
}

/// Every note that started and whose message is out has one timer task, or
/// is the one the worker is asking a task for.
spec fn timers_sound(s: System) -> bool {
    &&& (s.worker matches Phase::Scheduling(timer) ==> {
        &&& s.wire.len() > 0
        &&& s.taken[s.wire.len() - 1].note.is_on()
        &&& timer == ending(s, s.wire.len() - 1)
        &&& !s.timers.dom().contains(s.wire.len() - 1)
    })
    &&& forall|k: int| s.timers.dom().contains(k) ==> #[trigger] task_sound(s, k)
    &&& forall|k: int|
        0 <= k < s.wire.len() && s.taken[k].note.is_on() && !(k == s.wire.len() - 1
            && s.worker is Scheduling) ==> #[trigger] s.timers.dom().contains(k)
    &&& forall|e: int| 0 <= e < s.taken.len() ==> #[trigger] arrival_sound(s, e)
}

/// What holds of every state a run can reach.
spec fn sound(s: System) -> bool {
    &&& in_order(s)
    &&& timely(s)
    &&& timers_sound(s)
}

/// Every move keeps what holds of a sound state.
proof fn lemma_step_sound(s: System, m: Move)
    requires
        sound(s),
    ensures
        sound(step(s, m)),
{
    let t = step(s, m);
    assert forall|k: int| t.timers.dom().contains(k) implies #[trigger] task_sound(t, k) by {
        if s.timers.dom().contains(k) {
            assert(task_sound(s, k));
        }
    }
    assert forall|e: int| 0 <= e < t.taken.len() implies #[trigger] arrival_sound(t, e) by {
        if e < s.taken.len() {
            assert(arrival_sound(s, e));
        }
        if let Source::Timer(k) = t.taken[e].from {
            assert(task_sound(s, k));
        }
    }
    if t.worker is Scheduling && s.timers.dom().contains(t.wire.len() - 1) {
        assert(task_sound(s, t.wire.len() - 1));
    }
}

/// Every run ends in a sound state.
proof fn lemma_run_sound(ports: usize, moves: Seq<Move>)
    ensures
        sound(run(ports, moves)),
        run(ports, moves).ports == ports,
    decreases moves.len(),
{
    if moves.len() > 0 {
        lemma_run_sound(ports, moves.drop_last());
        lemma_step_sound(run(ports, moves.drop_last()), moves.last());
    }
}

/// First in, first out: whatever the producers, the timers and the clock do,
/// and in whatever order, the message at each position on the wire is the
/// message of the event at the same position in the channel's history.
pub proof fn law_first_in_first_out(ports: usize, moves: Seq<Move>)
    ensures
        ({
            let s = run(ports, moves);
            &&& s.wire.len() <= s.taken.len()
            &&& forall|k: int|
                0 <= k < s.wire.len() ==> (#[trigger] s.wire[k]).msg == frame(s.taken[k].note)
        }),
{
    lemma_run_sound(ports, moves);
}

/// What has happened stays as it is: a move adds at most one event at the end
/// of the channel's history and at most one message at the end of the wire,
/// and changes nothing that is already there.
pub proof fn law_histories_only_grow(s: System, m: Move)
    ensures
        s.taken.is_prefix_of(step(s, m).taken),
        s.wire.is_prefix_of(step(s, m).wire),
        step(s, m).taken.len() <= s.taken.len() + 1,
        step(s, m).wire.len() <= s.wire.len() + 1,
        step(s, m).now >= s.now,
{
}

/// Nothing is lost and nothing is doubled: every event the channel took has
/// its one message on the wire, or is the one event in the worker's hands, or
/// still waits in the queue at its place. Once the worker has stopped because
/// the channel ran dry, every event has its message.
pub proof fn law_delivered_once(ports: usize, moves: Seq<Move>)
    ensures
        ({
            let s = run(ports, moves);
            &&& s.taken.len() == s.wire.len() + held(s.worker) + s.queue.len()
            &&& forall|j: int|
                0 <= j < s.queue.len() ==> #[trigger] s.queue[j] == s.taken[s.wire.len() + held(
                    s.worker,
                ) + j].note
            &&& (s.worker == Phase::Stopped(Exit::Drained) ==> s.wire.len() == s.taken.len())
        }),
{
    lemma_run_sound(ports, moves);
}

/// A timer ends the note it was started for, once, and not too soon: an
/// event that timer `k` sent stands for a note that started and whose message
/// is at position `k` on the wire; it has that note's pitch and velocity
/// zero; the channel took it no sooner than the note's duration after the
/// message went out; and the timer sent no other event.
pub proof fn law_note_off_follows(ports: usize, moves: Seq<Move>, e: int, k: int)
    requires
        0 <= e < run(ports, moves).taken.len(),
        run(ports, moves).taken[e].from == Source::Timer(k),
    ensures
        ({
            let s = run(ports, moves);
            &&& 0 <= k < s.wire.len()
            &&& s.taken[k].note.is_on()
            &&& s.wire[k].msg == frame(s.taken[k].note)
            &&& s.taken[e].note == Note::off(s.taken[k].note.pitch)
            &&& s.taken[e].at >= s.wire[k].at + s.taken[k].note.dur
            &&& forall|other: int|
                0 <= other < s.taken.len() && (#[trigger] s.taken[other]).from == Source::Timer(k)
                    ==> other == e
        }),
{
    let s = run(ports, moves);
    lemma_run_sound(ports, moves);
    assert(arrival_sound(s, e));
    assert(task_sound(s, k));
    assert forall|other: int|
        0 <= other < s.taken.len() && (#[trigger] s.taken[other]).from == Source::Timer(
            k,
        ) implies other == e by {
        assert(arrival_sound(s, other));
    }
}

/// Every note that started gets its timer: if the message at position `k` on
/// the wire starts a note, then either the worker is just asking for that
/// note's timer, or the timer's task exists. The task sleeps for the
/// note's duration, then sends the event that ends the note, and is done. If
/// it is done because it sent, the event is in the channel's history.
pub proof fn law_note_on_gets_timer(ports: usize, moves: Seq<Move>, k: int)
    requires
        0 <= k < run(ports, moves).wire.len(),
        run(ports, moves).taken[k].note.is_on(),
    ensures
        ({
            let s = run(ports, moves);
            let on = s.taken[k].note;
            if s.timers.dom().contains(k) {
                match s.timers[k].stage {
                    Stage::Sleeping(timer) => timer == timer_for(on.pitch, on.dur),
                    Stage::Sending(note) => note == Note::off(on.pitch),
                    Stage::Done(TimerExit::Sent) => exists|e: int|
                        0 <= e < s.taken.len() && (#[trigger] s.taken[e]).from == Source::Timer(k),
                    Stage::Done(TimerExit::ChannelClosed) => !receiving(s),
                }
            } else {
                k == s.wire.len() - 1 && s.worker == Phase::Scheduling(timer_for(on.pitch, on.dur))
            }
        }),
{
    let s = run(ports, moves);
    lemma_run_sound(ports, moves);
    if s.timers.dom().contains(k) {
        assert(task_sound(s, k));
    }
}

/// A run that goes on by one move ends where that move leads.
proof fn lemma_run_push(ports: usize, moves: Seq<Move>, m: Move)
    ensures
        run(ports, moves.push(m)) == step(run(ports, moves), m),
{
    assert(moves.push(m).drop_last() =~= moves);
}

/// A sleeping timer is never stuck: while the worker receives, a timer that
/// sleeps can wake once its note's duration has passed, and then send; the
/// event that ends its note is then the last the channel took.
pub proof fn law_sleeping_timer_can_send(ports: usize, moves: Seq<Move>, k: int)
    requires
        run(ports, moves).timers.dom().contains(k),
        run(ports, moves).timers[k].stage is Sleeping,
        receiving(run(ports, moves)),
    ensures
        ({
            let s = run(ports, moves);
            let on = s.taken[k].note;
            let t = run(
                ports,
                moves.push(Move::Tick(on.dur as nat)).push(Move::Wake(k)).push(Move::Emit(k)),
            );
            &&& t.timers[k].stage == Stage::Done(TimerExit::Sent)
            &&& t.taken == s.taken.push(
                Arrival {
                    at: (s.now + on.dur) as nat,
                    from: Source::Timer(k),
                    note: Note::off(on.pitch),
                },
            )
            &&& t.queue == s.queue.push(Note::off(on.pitch))
        }),
{
    let s = run(ports, moves);
    let later = moves.push(Move::Tick(s.taken[k].note.dur as nat));
    let woken = later.push(Move::Wake(k));
    lemma_run_sound(ports, moves);
    assert(task_sound(s, k));
    lemma_run_push(ports, moves, Move::Tick(s.taken[k].note.dur as nat));
    lemma_run_push(ports, later, Move::Wake(k));
    lemma_run_push(ports, woken, Move::Emit(k));
}

/// A waiting event is never stuck: when the worker waits for an event and
/// the queue is not empty, the worker can receive the oldest event and the
/// device can take its message, which is then the last on the wire.
pub proof fn law_queued_event_can_leave(ports: usize, moves: Seq<Move>)
    requires
        run(ports, moves).worker == Phase::Idle,
        run(ports, moves).queue.len() > 0,
    ensures
        ({
            let s = run(ports, moves);
            let t = run(ports, moves.push(Move::Receive).push(Move::Write(true)));
            &&& t.wire == s.wire.push(Output { at: s.now, msg: frame(s.queue[0]) })
            &&& t.queue == s.queue.drop_first()
            &&& t.worker == Phase::after_write(s.queue[0])
        }),
{
    lemma_run_push(ports, moves, Move::Receive);
    lemma_run_push(ports, moves.push(Move::Receive), Move::Write(true));
}

/// Without a connection nothing is written: as long as the worker has not
/// connected, the wire is empty; and with no output port the worker never
/// connects, whatever else happens.
pub proof fn law_no_connection_no_message(ports: usize, moves: Seq<Move>)
    ensures
        ({
            let s = run(ports, moves);
            let unconnected = s.worker == Phase::Connecting || s.worker == Phase::Stopped(
                Exit::NoConnection,
            );
            &&& unconnected ==> s.wire.len() == 0
            &&& ports == 0 ==> unconnected
        }),
{
    lemma_run_sound(ports, moves);
}

/// A send that fails is the sender's own affair: when a timer finds the
/// channel closed, it ends, and nothing else changes: not the worker, not
/// the queue, not the wire, not another timer.
pub proof fn law_failed_send_is_local(s: System, id: int)
    requires
        s.timers.dom().contains(id),
        s.timers[id].stage is Sending,
        !receiving(s),
    ensures
        ({
            let done = Running { stage: Stage::Done(TimerExit::ChannelClosed), ..s.timers[id] };
            step(s, Move::Emit(id)) == (System { timers: s.timers.insert(id, done), ..s })
        }),
{
}

/// Once the worker has stopped, the channel takes nothing: a producer's send
/// changes nothing at all.
pub proof fn law_closed_channel_takes_nothing(s: System, producer: nat, note: Note)
    requires
        !receiving(s),
    ensures
        step(s, Move::Send(producer, note)) == s,
{
}

/// The end of a note goes out as a note-on with velocity zero: every message
/// on the wire opens with the note-on status, and none with the status of a
/// dedicated note-off.
pub proof fn law_status_is_note_on(ports: usize, moves: Seq<Move>)
    ensures
        forall|k: int|
            0 <= k < run(ports, moves).wire.len() ==> {
                let msg = (#[trigger] run(ports, moves).wire[k]).msg;
                msg@[0] == NOTE_ON_MSG && msg@[0] != NOTE_OFF_MSG
            },
{
    let s = run(ports, moves);
    lemma_run_sound(ports, moves);
    assert forall|k: int| 0 <= k < s.wire.len() implies {
        let msg = (#[trigger] s.wire[k]).msg;
        msg@[0] == NOTE_ON_MSG && msg@[0] != NOTE_OFF_MSG
    } by {
        lemma_frame_bytes(s.taken[k].note);
    }
}

/// Whether every event that a producer sends in `moves` fits the wire.
pub open spec fn sends_well_formed(moves: Seq<Move>) -> bool {
    forall|i: int|
        0 <= i < moves.len() ==> ((#[trigger] moves[i]) matches Move::Send(_, note)
            ==> note.well_formed())
}

/// The events of the timers fit the wire if those of the producers do.
proof fn lemma_taken_well_formed(ports: usize, moves: Seq<Move>)
    requires
        sends_well_formed(moves),
    ensures
        forall|k: int|
            0 <= k < run(ports, moves).taken.len() ==> (#[trigger] run(
                ports,
                moves,
            ).taken[k]).note.well_formed(),
    decreases moves.len(),
{
    if moves.len() > 0 {
        let before = moves.drop_last();
        let s = run(ports, before);
        assert(sends_well_formed(before)) by {
            assert forall|i: int| 0 <= i < before.len() implies before[i] == moves[i] by {}
        }
        lemma_taken_well_formed(ports, before);
        lemma_run_sound(ports, before);
        if let Move::Emit(id) = moves.last() {
            if s.timers.dom().contains(id) {
                assert(task_sound(s, id));
            }
        }
    }
}

/// Only well-formed messages leave: if every event that the producers send
/// has pitch and velocity within a data byte, then every message on the wire
/// opens with the note-on status and carries two data bytes. The events of
/// the timers need no such condition: they inherit their pitch.
pub proof fn law_wire_well_formed(ports: usize, moves: Seq<Move>)
    requires
        sends_well_formed(moves),
    ensures
        forall|k: int|
            0 <= k < run(ports, moves).wire.len() ==> {
                let msg = (#[trigger] run(ports, moves).wire[k]).msg;
                &&& msg@[0] == NOTE_ON_MSG
                &&& msg@[1] <= DATA_MAX
                &&& msg@[2] <= DATA_MAX
            },
{
    let s = run(ports, moves);
    lemma_run_sound(ports, moves);
    lemma_taken_well_formed(ports, moves);
    assert forall|k: int| 0 <= k < s.wire.len() implies {
        let msg = (#[trigger] s.wire[k]).msg;
        &&& msg@[0] == NOTE_ON_MSG
        &&& msg@[1] <= DATA_MAX
        &&& msg@[2] <= DATA_MAX
    } by {
        lemma_frame_bytes(s.taken[k].note);
    }
}

} // verus!
