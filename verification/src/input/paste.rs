//! Delivering a transcript: copying it, and the keystrokes that paste it.
use vstd::prelude::*;

use crate::platform::Platform;
use crate::text::str_eq;

verus! {

/// How a transcript reaches the focused window.
#[derive(Debug, Clone, Copy, PartialEq, Eq, Structural)]
pub enum PasteMethod {
    /// Copied to the clipboard and pasted with the platform's paste shortcut.
    Paste,
    /// Only copied to the clipboard.
    ClipboardOnly,
}

/// The delivery chosen by the `paste_method` setting: only "clipboard" means
/// copying alone; any other value pastes.
pub fn paste_method(setting: &str) -> (m: PasteMethod)
    ensures
        m == (if setting@ == "clipboard"@ { PasteMethod::ClipboardOnly } else { PasteMethod::Paste }),
{
    if str_eq(setting, "clipboard") {
        PasteMethod::ClipboardOnly
    } else {
        PasteMethod::Paste
    }
}

/// A key used by the paste shortcut.
#[derive(Debug, Clone, Copy, PartialEq, Eq, Structural)]
pub enum PasteKey {
    Meta,
    Control,
    V,
}

/// The modifier of the paste shortcut: Cmd on macOS, Ctrl elsewhere.
pub open spec fn paste_modifier(platform: Platform) -> PasteKey {
    if platform == Platform::MacOs { PasteKey::Meta } else { PasteKey::Control }
}

/// The key presses (`true`) and releases (`false`) that paste: the modifier down,
/// V down, V up, the modifier up.
pub fn paste_keystrokes(platform: Platform) -> (v: Vec<(PasteKey, bool)>)
    ensures
        v@ == seq![
            (paste_modifier(platform), true),
            (PasteKey::V, true),
            (PasteKey::V, false),
            (paste_modifier(platform), false),
        ],
        platform == Platform::MacOs ==> v@[0] == (PasteKey::Meta, true) && v@[3] == (PasteKey::Meta, false),
        platform != Platform::MacOs ==> v@[0] == (PasteKey::Control, true) && v@[3] == (PasteKey::Control, false),
{
    let modifier = if platform == Platform::MacOs { PasteKey::Meta } else { PasteKey::Control };
    let mut v: Vec<(PasteKey, bool)> = Vec::new();
    v.push((modifier, true));
    v.push((PasteKey::V, true));
    v.push((PasteKey::V, false));
    v.push((modifier, false));
    assert(v@ =~= seq![(modifier, true), (PasteKey::V, true), (PasteKey::V, false), (modifier, false)]);
    v
}

/// The paste shortcut is Cmd+V on macOS and Ctrl+V on every other platform: the
/// modifier goes down first and up last, around a press and release of V.
pub proof fn lemma_paste_shortcut(platform: Platform)
    ensures
        (paste_modifier(platform) == PasteKey::Meta) <==> (platform == Platform::MacOs),
        (paste_modifier(platform) == PasteKey::Control) <==> (platform != Platform::MacOs),
{
}

} // verus!
