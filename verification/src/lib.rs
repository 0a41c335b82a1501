//! A one-dimensional piano visualizer.
//!
//! The library keeps an 88-key intensity state plus a sustain-pedal level,
//! decodes raw 3-byte channel-voice messages into state changes, and projects
//! the state onto an RGBA pixel strip of a fixed width, colouring each lit key
//! by its pitch class.

pub mod color;
pub mod laws;
pub mod visualizer;
