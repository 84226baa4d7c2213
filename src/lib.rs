//! Core of a terminal audio player: the sample ring that taps the decoded
//! stream, the spectrum analyser that turns it into bar heights, the playback
//! transport that sequences tracks, and the volume control.

pub mod browser;
pub mod readout;
pub mod ring;
pub mod spectrum;
pub mod transport;
pub mod volume;
