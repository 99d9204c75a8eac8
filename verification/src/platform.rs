//! The operating system a decision depends on.
use vstd::prelude::*;

verus! {

/// The desktop platforms the dictation tool runs on.
#[derive(Debug, Clone, Copy, PartialEq, Eq, Structural)]
pub enum Platform {
    MacOs,
    Windows,
    Linux,
}

} // verus!
