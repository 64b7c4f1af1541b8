//! Playback and layout rules for a frame source that renders a vector
//! animation into video frames.
//!
//! Times and frame positions are integers in a unit that the caller picks
//! (milliseconds, a fraction of a frame, ...). Scales and offsets are exact
//! fractions, so every rule holds without rounding.
pub mod fit;
pub mod mode;
pub mod ratio;
pub mod source;
pub mod stepping;
mod text;
