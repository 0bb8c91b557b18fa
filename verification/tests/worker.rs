use note_relay::note::Note;
use note_relay::timer::{schedule, Timer};
use note_relay::worker::{Action, Event, Exit, Worker};

fn connected() -> Worker {
    let mut worker = Worker::new();
    assert_eq!(worker.step(Event::Connected), Action::Receive);
    worker
}

#[test]
fn worker_starts_by_connecting() {
    let worker = Worker::new();
    assert_eq!(worker.action(), Action::Connect);
}

#[test]
fn worker_receives_once_connected() {
    let worker = connected();
    assert_eq!(worker.action(), Action::Receive);
}

#[test]
fn worker_without_connection_stops_and_never_writes() {
    let mut worker = Worker::new();
    assert_eq!(worker.step(Event::ConnectFailed), Action::Stop(Exit::NoConnection));
    let events = [
        Event::Connected,
        Event::Received(Note::new(60, 100, 500)),
        Event::Written,
        Event::Scheduled,
        Event::Closed,
        Event::WriteFailed,
        Event::ConnectFailed,
    ];
    for event in events {
        assert_eq!(worker.step(event), Action::Stop(Exit::NoConnection));
    }
}

#[test]
fn worker_writes_nothing_before_it_is_connected() {
    let mut worker = Worker::new();
    assert_eq!(worker.step(Event::Received(Note::new(60, 100, 500))), Action::Connect);
    assert_eq!(worker.step(Event::Written), Action::Connect);
    assert_eq!(worker.step(Event::Scheduled), Action::Connect);
    assert_eq!(worker.step(Event::Closed), Action::Connect);
}

#[test]
fn worker_writes_a_note_on_then_asks_for_its_timer() {
    let mut worker = connected();
    assert_eq!(
        worker.step(Event::Received(Note::new(60, 100, 500))),
        Action::Write([0x90, 60, 100])
    );
    assert_eq!(
        worker.step(Event::Written),
        Action::Schedule(Timer { delay_ms: 500, note: Note::new(60, 0, 0) })
    );
    assert_eq!(worker.step(Event::Scheduled), Action::Receive);
}

#[test]
fn worker_asks_for_no_timer_after_a_note_off() {
    let mut worker = connected();
    assert_eq!(worker.step(Event::Received(Note::new(60, 0, 0))), Action::Write([0x90, 60, 0]));
    assert_eq!(worker.step(Event::Written), Action::Receive);
}

#[test]
fn worker_ignores_the_duration_of_a_note_off() {
    let mut worker = connected();
    assert_eq!(worker.step(Event::Received(Note::new(64, 0, 900))), Action::Write([0x90, 64, 0]));
    assert_eq!(worker.step(Event::Written), Action::Receive);
}

#[test]
fn worker_takes_velocity_one_as_a_note_on() {
    let mut worker = connected();
    worker.step(Event::Received(Note::new(64, 1, 0)));
    assert_eq!(worker.step(Event::Written), Action::Schedule(schedule(64, 0)));
}

#[test]
fn worker_stops_for_good_when_the_device_refuses() {
    let mut worker = connected();
    worker.step(Event::Received(Note::new(67, 100, 300)));
    assert_eq!(worker.step(Event::WriteFailed), Action::Stop(Exit::DeviceWrite));
    assert_eq!(worker.step(Event::Written), Action::Stop(Exit::DeviceWrite));
    let late = Event::Received(Note::new(60, 100, 1));
    assert_eq!(worker.step(late), Action::Stop(Exit::DeviceWrite));
    assert_eq!(worker.action(), Action::Stop(Exit::DeviceWrite));
}

#[test]
fn worker_starts_no_timer_for_a_refused_note() {
    let mut worker = connected();
    worker.step(Event::Received(Note::new(67, 100, 300)));
    worker.step(Event::WriteFailed);
    assert_eq!(worker.step(Event::Scheduled), Action::Stop(Exit::DeviceWrite));
}

#[test]
fn worker_stops_when_the_channel_closes() {
    let mut worker = connected();
    assert_eq!(worker.step(Event::Closed), Action::Stop(Exit::Drained));
    assert_eq!(worker.step(Event::Received(Note::new(60, 100, 1))), Action::Stop(Exit::Drained));
}

#[test]
fn worker_finishes_a_write_before_it_receives_again() {
    let mut worker = connected();
    let first = Note::new(60, 100, 500);
    worker.step(Event::Received(first));
    let second = Event::Received(Note::new(64, 100, 500));
    assert_eq!(worker.step(second), Action::Write([0x90, 60, 100]));
    assert_eq!(worker.step(Event::Closed), Action::Write([0x90, 60, 100]));
    assert_eq!(worker.step(Event::Scheduled), Action::Write([0x90, 60, 100]));
    assert_eq!(worker.step(Event::Written), Action::Schedule(schedule(60, 500)));
    assert_eq!(worker.step(Event::Written), Action::Schedule(schedule(60, 500)));
    assert_eq!(worker.step(Event::Received(first)), Action::Schedule(schedule(60, 500)));
}

#[test]
fn worker_action_repeats_what_step_returned() {
    let mut worker = Worker::new();
    let events = [
        Event::Connected,
        Event::Received(Note::new(71, 100, 1999)),
        Event::Written,
        Event::Scheduled,
        Event::Received(Note::new(71, 0, 0)),
        Event::Written,
        Event::Closed,
    ];
    for event in events {
        let action = worker.step(event);
        assert_eq!(worker.action(), action);
    }
    assert_eq!(worker.action(), Action::Stop(Exit::Drained));
}
