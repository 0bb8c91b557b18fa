//! Verified decision logic for relaying note events to a MIDI output device.
//!
//! Producers send note events into a channel. One worker takes them out in
//! order, writes each to the device as a three-byte message, and for every
//! note that starts asks for a timer that sends the matching end-of-note
//! event back into the channel once the note's duration is over.
//!
//! This crate holds the decisions and leaves the doing to its caller: the
//! worker and the timers are state machines that name the next action and
//! take its outcome as an event. Nothing here blocks, sleeps or touches a
//! device.
//!
//! - `note`: the note event
//! - `wire`: its message on the wire
//! - `worker`: the delivery worker
//! - `timer`: the timers that end notes
//! - `connect`: the choice of the output port
//! - `producer`: the notes that answer collisions
//! - `system`: a model of all of it running together
//! - `laws`: what holds of every run of that model

pub mod connect;
pub mod laws;
pub mod note;
pub mod producer;
pub mod system;
pub mod timer;
pub mod wire;
pub mod worker;
