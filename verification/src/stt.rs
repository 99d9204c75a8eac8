//! Speech-to-text support: resampling plans and the recogniser engines' bookkeeping.
pub mod parakeet;
pub mod resample;
pub mod wav;
