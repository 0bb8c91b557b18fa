use note_relay::note::Note;
use note_relay::timer::{TimerAction, TimerEvent, TimerExit, TimerTask};
use note_relay::worker::{Action, Event, Exit, Worker};
use std::sync::mpsc::{channel, Receiver, Sender};

/// Drives a connected worker from `rx` until it stops. Timers do not sleep:
/// each sends its event as soon as it is started.
fn deliver(rx: Receiver<Note>, timers: Sender<Note>) -> (Exit, Vec<[u8; 3]>, Vec<TimerExit>) {
    let mut timers = Some(timers);
    let mut worker = Worker::new();
    let mut wire = Vec::new();
    let mut ended = Vec::new();
    let mut action = worker.step(Event::Connected);
    loop {
        let event = match action {
            Action::Connect => Event::Connected,
            Action::Receive => match rx.try_recv() {
                Ok(note) => Event::Received(note),
                Err(_) => {
                    timers = None;
                    match rx.recv() {
                        Ok(note) => Event::Received(note),
                        Err(_) => Event::Closed,
                    }
                }
            },
            Action::Write(msg) => {
                wire.push(msg);
                Event::Written
            }
            Action::Schedule(timer) => {
                let mut task = TimerTask::new(timer);
                assert_eq!(task.action(), TimerAction::Sleep(timer.delay_ms));
                let exit = match (task.step(TimerEvent::Woke), &timers) {
                    (TimerAction::Send(note), Some(tx)) if tx.send(note).is_ok() => {
                        task.step(TimerEvent::Sent)
                    }
                    _ => task.step(TimerEvent::SendFailed),
                };
                match exit {
                    TimerAction::Exit(exit) => ended.push(exit),
                    other => panic!("a timer that sent asked for {:?}", other),
                }
                Event::Scheduled
            }
            Action::Stop(exit) => return (exit, wire, ended),
        };
        action = worker.step(event);
    }
}

#[test]
fn events_of_many_producers_are_each_delivered_once() {
    let producers: u8 = 4;
    let each: u8 = 25;
    let (tx, rx) = channel::<Note>();
    let handles: Vec<Sender<Note>> = (0..producers).map(|_| tx.clone()).collect();
    let mut next = vec![0u8; producers as usize];
    let mut turn = 0usize;
    while next.iter().any(|sent| *sent < each) {
        let producer = (turn * 7 + turn / 3) % producers as usize;
        turn += 1;
        if next[producer] < each {
            let pitch = producer as u8 * each + next[producer];
            handles[producer].send(Note::new(pitch, 0, 0)).unwrap();
            next[producer] += 1;
        }
    }
    drop(handles);
    let (exit, wire, ended) = deliver(rx, tx);
    assert_eq!(exit, Exit::Drained);
    assert!(ended.is_empty());
    assert_eq!(wire.len(), 100);
    for pitch in 0..100u8 {
        assert_eq!(wire.iter().filter(|msg| **msg == [0x90, pitch, 0]).count(), 1);
    }
    for producer in 0..producers {
        let own: Vec<u8> =
            wire.iter().map(|msg| msg[1]).filter(|pitch| pitch / each == producer).collect();
        let sent: Vec<u8> = (0..each).map(|index| producer * each + index).collect();
        assert_eq!(own, sent);
    }
}

#[test]
fn note_offs_of_the_timers_come_through_the_same_channel() {
    let (tx, rx) = channel::<Note>();
    tx.send(Note::new(60, 100, 500)).unwrap();
    tx.send(Note::new(64, 100, 300)).unwrap();
    tx.send(Note::new(67, 0, 0)).unwrap();
    let (exit, wire, ended) = deliver(rx, tx);
    assert_eq!(exit, Exit::Drained);
    assert_eq!(
        wire,
        vec![[0x90, 60, 100], [0x90, 64, 100], [0x90, 67, 0], [0x90, 60, 0], [0x90, 64, 0]]
    );
    assert_eq!(ended, vec![TimerExit::Sent, TimerExit::Sent]);
}
