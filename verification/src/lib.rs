//! Verified core of an offline push-to-talk dictation tool: hotkey parsing and
//! tracking, voice-activity decisions, resampling plans, settings, history search
//! queries, the model catalogue and the dictation pipeline's state machine.
pub mod audio;
pub mod history;
pub mod input;
pub mod models;
pub mod pipeline;
pub mod platform;
pub mod settings;
pub mod state;
pub mod stt;
pub mod text;
