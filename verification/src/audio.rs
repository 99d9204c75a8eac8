//! Audio: voice-activity decisions and channel down-mixing of captured samples.
pub mod capture;
pub mod vad;
