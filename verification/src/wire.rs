//! The three-byte message written to the device for each note event.

use vstd::prelude::*;
use crate::note::Note;

verus! {

/// Status byte that opens every message.
pub const NOTE_ON_MSG: u8 = 0x90;

/// Status byte of a dedicated note-off message. It is recognised and never
/// written: the end of a note goes out under `NOTE_ON_MSG` with velocity zero.
pub const NOTE_OFF_MSG: u8 = 0x80;

/// The message that stands for `note` on the wire.
pub open spec fn frame(note: Note) -> [u8; 3] {
    [NOTE_ON_MSG, note.pitch, note.vel]
}

/// Status first, then pitch, then velocity.
pub proof fn lemma_frame_bytes(note: Note)
    ensures
        frame(note)@ == seq![NOTE_ON_MSG, note.pitch, note.vel],
{
    assert(frame(note)@ =~= seq![NOTE_ON_MSG, note.pitch, note.vel]);
}

/// Puts `note` into the three bytes that the device takes.
pub fn encode(note: &Note) -> (msg: [u8; 3])
    ensures
        msg == frame(*note),
        msg@ == seq![NOTE_ON_MSG, note.pitch, note.vel],
{
    let msg = [NOTE_ON_MSG, note.pitch, note.vel];
    assert(msg =~= frame(*note));
    proof {
        lemma_frame_bytes(*note);
    }
    msg
}

} // verus!
