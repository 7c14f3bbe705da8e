//! A sine-tone generator for a pull-based audio stream. The oscillator keeps
//! its phase as an integer fraction of a cycle; the stream's callback asks it
//! for the phases of each buffer and turns them into samples.

pub mod oscillator;
pub mod phase;
