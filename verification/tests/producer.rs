use note_relay::note::Note;
use note_relay::producer::{
    bounce, boundaries_hit, collision_note, opening_chord, strike, Boundary, Contact,
    MAX_DURATION, MIN_DURATION, OPENING_DURATION, VELOCITY,
};

const EDGES: [Boundary; 4] = [Boundary::Right, Boundary::Left, Boundary::Top, Boundary::Bottom];

fn contact(bits: u8) -> Contact {
    Contact { right: bits & 1 != 0, left: bits & 2 != 0, top: bits & 4 != 0, bottom: bits & 8 != 0 }
}

#[test]
fn each_boundary_has_its_pitch() {
    assert_eq!(Boundary::Right.pitch(), 67);
    assert_eq!(Boundary::Left.pitch(), 71);
    assert_eq!(Boundary::Top.pitch(), 60);
    assert_eq!(Boundary::Bottom.pitch(), 64);
}

#[test]
fn bounds_have_their_values() {
    assert_eq!(VELOCITY, 100);
    assert_eq!(MIN_DURATION, 300);
    assert_eq!(MAX_DURATION, 2000);
    assert_eq!(OPENING_DURATION, 500);
}

#[test]
fn collision_note_has_fixed_pitch_and_velocity() {
    assert_eq!(collision_note(Boundary::Right, 300), Note::new(67, 100, 300));
    assert_eq!(collision_note(Boundary::Left, 1999), Note::new(71, 100, 1999));
    assert_eq!(collision_note(Boundary::Top, 0), Note::new(60, 100, 0));
    assert_eq!(collision_note(Boundary::Bottom, u64::MAX), Note::new(64, 100, u64::MAX));
}

#[test]
fn right_boundary_strikes_67_at_100_within_the_range() {
    for _ in 0..2000 {
        let note = strike(Boundary::Right);
        assert_eq!(note.pitch, 67);
        assert_eq!(note.vel, 100);
        assert!(300 <= note.dur && note.dur < 2000, "{}", note.dur);
    }
}

#[test]
fn every_boundary_strikes_within_the_range() {
    for edge in EDGES {
        for _ in 0..500 {
            let note = strike(edge);
            assert_eq!(note, collision_note(edge, note.dur));
            assert!(MIN_DURATION <= note.dur && note.dur < MAX_DURATION, "{}", note.dur);
        }
    }
}

#[test]
fn strike_draws_more_than_one_duration() {
    let first = strike(Boundary::Top).dur;
    let mut other = false;
    let mut above_min = false;
    for _ in 0..500 {
        let dur = strike(Boundary::Top).dur;
        other = other || dur != first;
        above_min = above_min || dur != MIN_DURATION;
    }
    assert!(other);
    assert!(above_min);
}

#[test]
fn boundaries_hit_come_right_left_top_bottom() {
    assert_eq!(boundaries_hit(&contact(0)), vec![]);
    assert_eq!(boundaries_hit(&contact(1)), vec![Boundary::Right]);
    assert_eq!(boundaries_hit(&contact(2)), vec![Boundary::Left]);
    assert_eq!(boundaries_hit(&contact(4)), vec![Boundary::Top]);
    assert_eq!(boundaries_hit(&contact(8)), vec![Boundary::Bottom]);
    assert_eq!(boundaries_hit(&contact(9)), vec![Boundary::Right, Boundary::Bottom]);
    assert_eq!(boundaries_hit(&contact(6)), vec![Boundary::Left, Boundary::Top]);
    assert_eq!(
        boundaries_hit(&contact(15)),
        vec![Boundary::Right, Boundary::Left, Boundary::Top, Boundary::Bottom]
    );
}

#[test]
fn bounce_answers_each_boundary_hit_in_order() {
    for bits in 0..16u8 {
        let hit = boundaries_hit(&contact(bits));
        let notes = bounce(&contact(bits));
        assert_eq!(notes.len(), hit.len());
        assert_eq!(notes.len(), bits.count_ones() as usize);
        for (note, edge) in notes.iter().zip(hit.iter()) {
            assert_eq!(*note, collision_note(*edge, note.dur));
            assert!(300 <= note.dur && note.dur < 2000, "{}", note.dur);
        }
    }
}

#[test]
fn bounce_in_a_corner_sends_two_notes() {
    let notes = bounce(&Contact { right: true, left: false, top: true, bottom: false });
    assert_eq!(notes.len(), 2);
    assert_eq!((notes[0].pitch, notes[0].vel), (67, 100));
    assert_eq!((notes[1].pitch, notes[1].vel), (60, 100));
}

#[test]
fn opening_chord_has_one_note_for_each_boundary() {
    assert_eq!(
        opening_chord(),
        vec![
            Note::new(60, 100, 500),
            Note::new(64, 100, 500),
            Note::new(67, 100, 500),
            Note::new(71, 100, 500),
        ]
    );
}
