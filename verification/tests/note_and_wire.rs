use note_relay::note::{Note, DATA_MAX};
use note_relay::wire::{encode, NOTE_OFF_MSG, NOTE_ON_MSG};

#[test]
fn note_new_keeps_its_fields() {
    let note = Note::new(60, 100, 500);
    assert_eq!(note.pitch, 60);
    assert_eq!(note.vel, 100);
    assert_eq!(note.dur, 500);
    assert_eq!(note, Note { pitch: 60, vel: 100, dur: 500 });
}

#[test]
fn note_new_takes_the_edges_of_the_range() {
    let low = Note::new(0, 0, 0);
    assert_eq!((low.pitch, low.vel, low.dur), (0, 0, 0));
    let high = Note::new(DATA_MAX, DATA_MAX, u64::MAX);
    assert_eq!((high.pitch, high.vel, high.dur), (127, 127, u64::MAX));
}

#[test]
fn status_bytes_have_their_values() {
    assert_eq!(NOTE_ON_MSG, 0x90);
    assert_eq!(NOTE_OFF_MSG, 0x80);
    assert_eq!(DATA_MAX, 127);
}

#[test]
fn encode_puts_status_pitch_velocity() {
    assert_eq!(encode(&Note::new(60, 100, 500)), [0x90, 60, 100]);
    assert_eq!(encode(&Note::new(67, 100, 1999)), [0x90, 67, 100]);
}

#[test]
fn encode_ends_a_note_with_the_note_on_status() {
    assert_eq!(encode(&Note::new(60, 0, 0)), [0x90, 60, 0]);
}

#[test]
fn encode_leaves_the_duration_out() {
    assert_eq!(encode(&Note::new(64, 100, 300)), encode(&Note::new(64, 100, 1999)));
}

#[test]
fn encode_never_writes_the_note_off_status() {
    for pitch in 0..=DATA_MAX {
        for vel in 0..=DATA_MAX {
            let msg = encode(&Note::new(pitch, vel, 1));
            assert_eq!(msg, [NOTE_ON_MSG, pitch, vel]);
            assert_ne!(msg[0], NOTE_OFF_MSG);
        }
    }
}
