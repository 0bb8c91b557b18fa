//! The producer's side: which note answers which collision.
//!
//! The simulation reports which boundaries the ball has crossed. Each
//! boundary has its pitch, the velocity is fixed, and the duration is drawn
//! at random from a bounded range.

use vstd::prelude::*;
use crate::note::Note;

verus! {

/// Velocity of every note a producer sends.
pub const VELOCITY: u8 = 100;

/// Shortest duration a collision can draw, in milliseconds.
pub const MIN_DURATION: u64 = 300;

/// Bound that every drawn duration stays below, in milliseconds.
pub const MAX_DURATION: u64 = 2000;

/// Duration of the notes of the opening chord, in milliseconds.
pub const OPENING_DURATION: u64 = 500;

/// An edge of the window.
#[derive(Clone, Copy, Debug, PartialEq, Eq, Structural)]
pub enum Boundary {
    Right,
    Left,
    Top,
    Bottom,
}

/// Which edges the ball has crossed in one frame. Opposite edges can both be
/// set when the ball is wider than the window.
#[derive(Clone, Copy, Debug, PartialEq, Eq, Structural)]
pub struct Contact {
    pub right: bool,
    pub left: bool,
    pub top: bool,
    pub bottom: bool,
}

/// The pitch that sounds for `boundary`.
pub open spec fn pitch_of(boundary: Boundary) -> u8 {
    match boundary {
        Boundary::Right => 67,
        Boundary::Left => 71,
        Boundary::Top => 60,
        Boundary::Bottom => 64,
    }
}

/// The note that answers a collision with `boundary`, held for `duration`.
pub open spec fn response(boundary: Boundary, duration: u64) -> Note {
    Note { pitch: pitch_of(boundary), vel: VELOCITY, dur: duration }
}

/// The edges set in `contact`: right, left, top, bottom, in this order.
pub open spec fn struck(contact: Contact) -> Seq<Boundary> {
    let right = if contact.right { seq![Boundary::Right] } else { seq![] };
    let left = if contact.left { seq![Boundary::Left] } else { seq![] };
    let top = if contact.top { seq![Boundary::Top] } else { seq![] };
    let bottom = if contact.bottom { seq![Boundary::Bottom] } else { seq![] };
    right + left + top + bottom
}

/// The chord sent once at startup: one note for each edge.
pub open spec fn opening() -> Seq<Note> {
    seq![
        response(Boundary::Top, OPENING_DURATION),
        response(Boundary::Bottom, OPENING_DURATION),
        response(Boundary::Right, OPENING_DURATION),
        response(Boundary::Left, OPENING_DURATION),
    ]
}

impl Boundary {
    /// The pitch that sounds for this edge.
    pub fn pitch(&self) -> (pitch: u8)
        ensures
            pitch == pitch_of(*self),
    {
        match self {
            Boundary::Right => 67,
            Boundary::Left => 71,
            Boundary::Top => 60,
            Boundary::Bottom => 64,
        }
    }
}

/// The note for a collision with `boundary`, held for `duration` milliseconds.
pub fn collision_note(boundary: Boundary, duration: u64) -> (note: Note)
    ensures
        note == response(boundary, duration),
        note.well_formed(),
        note.is_on(),
{
    Note::new(boundary.pitch(), VELOCITY, duration)
}

/// Calls `nannou_core::rand::random_range`, the function that nannou offers
/// as `random_range`: it draws from the thread's random number generator.
/// Nothing is claimed about which value comes back, only where it lies: from
/// the smaller bound up to, and not including, the larger. Equal bounds are
/// left out because the range is then empty and the draw panics.
#[verifier::external_body]
fn random_range(min: u64, max: u64) -> (drawn: u64)
    requires
        min != max,
    ensures
        min < max ==> min <= drawn < max,
        max < min ==> max <= drawn < min,
{
    nannou_core::rand::random_range(min, max)
}

/// The note for a collision with `boundary`, with a freshly drawn duration.
pub fn strike(boundary: Boundary) -> (note: Note)
    ensures
        note == response(boundary, note.dur),
        MIN_DURATION <= note.dur < MAX_DURATION,
        note.well_formed(),
        note.is_on(),
{
    collision_note(boundary, random_range(MIN_DURATION, MAX_DURATION))
}

/// The edges set in `contact`, in the order in which they are answered.
pub fn boundaries_hit(contact: &Contact) -> (hit: Vec<Boundary>)
    ensures
        hit@ == struck(*contact),
{
    let mut hit: Vec<Boundary> = Vec::new();
    if contact.right {
        hit.push(Boundary::Right);
    }
    if contact.left {
        hit.push(Boundary::Left);
    }
    if contact.top {
        hit.push(Boundary::Top);
    }
    if contact.bottom {
        hit.push(Boundary::Bottom);
    }
    assert(hit@ =~= struck(*contact));
    hit
}

/// The notes to send for one frame: one per edge crossed, each with a
/// duration of its own.
pub fn bounce(contact: &Contact) -> (notes: Vec<Note>)
    ensures
        notes.len() == struck(*contact).len(),
        forall|i: int|
            0 <= i < notes.len() ==> {
                &&& #[trigger] notes[i] == response(struck(*contact)[i], notes[i].dur)
                &&& MIN_DURATION <= notes[i].dur < MAX_DURATION
            },
{
    let hit = boundaries_hit(contact);
    let mut notes: Vec<Note> = Vec::new();
    let mut i: usize = 0;
    while i < hit.len()
        invariant
            i <= hit.len(),
            hit@ == struck(*contact),
            notes.len() == i,
            forall|j: int|
                0 <= j < i ==> {
                    &&& #[trigger] notes[j] == response(hit[j], notes[j].dur)
                    &&& MIN_DURATION <= notes[j].dur < MAX_DURATION
                },
        decreases hit.len() - i,
    {
        notes.push(strike(hit[i]));
        i += 1;
    }
    notes
}

/// The chord sent once at startup.
pub fn opening_chord() -> (notes: Vec<Note>)
    ensures
        notes@ == opening(),
{
    let mut notes: Vec<Note> = Vec::new();
    notes.push(collision_note(Boundary::Top, OPENING_DURATION));
    notes.push(collision_note(Boundary::Bottom, OPENING_DURATION));
    notes.push(collision_note(Boundary::Right, OPENING_DURATION));
    notes.push(collision_note(Boundary::Left, OPENING_DURATION));
    assert(notes@ =~= opening());
    notes
}

} // verus!
