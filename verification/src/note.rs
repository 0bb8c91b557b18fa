//! The note event that flows from producers to the delivery worker.

use vstd::prelude::*;

verus! {

/// Largest value a MIDI data byte can carry.
pub const DATA_MAX: u8 = 127;

/// A note event: which key, how hard, and for how long.
///
/// A velocity of zero marks the end of a note. The duration is counted in
/// milliseconds and only matters while the velocity is positive.
#[derive(Clone, Copy, Debug, PartialEq, Eq, Structural)]
pub struct Note {
    pub pitch: u8,
    pub vel: u8,
    pub dur: u64,
}

impl Note {
    /// Whether this event starts a note.
    pub open spec fn is_on(self) -> bool {
        self.vel > 0
    }

    /// Whether pitch and velocity both fit a MIDI data byte.
    pub open spec fn well_formed(self) -> bool {
        self.pitch <= DATA_MAX && self.vel <= DATA_MAX
    }

    /// The event that ends a note of the given pitch.
    pub open spec fn off(pitch: u8) -> Note {
        Note { pitch, vel: 0, dur: 0 }
    }

    /// An event with these three values, whatever they are.
    pub fn new(pitch: u8, vel: u8, dur: u64) -> (note: Note)
        ensures
            note == (Note { pitch, vel, dur }),
            note.well_formed() <==> pitch <= DATA_MAX && vel <= DATA_MAX,
            note.is_on() <==> vel > 0,
    {
        Note { pitch, vel, dur }
    }
}

} // verus!
