//! User settings and their defaults.
use vstd::prelude::*;

verus! {

/// The user's settings.
#[derive(Debug, Clone)]
pub struct Settings {
    /// The dictation hotkey, such as "Alt+Left", "F13" or "Alt+Space"; none until chosen.
    pub hotkey: Option<String>,
    /// The identifier of the active speech model.
    pub model_id: String,
    /// The spoken language: "auto", "pl", "en", ...
    pub language: String,
    /// "auto" to paste with the platform's paste shortcut, "clipboard" to only copy.
    pub paste_method: String,
    /// The interface language, "pl" or "en".
    pub ui_language: String,
}

/// The view of an optional string: its characters, if present.
pub open spec fn opt_view(o: Option<String>) -> Option<Seq<char>> {
    match o {
        Some(s) => Some(s@),
        None => None,
    }
}

/// The settings as values: every field by its characters.
pub open spec fn settings_view(s: Settings) -> (Option<Seq<char>>, Seq<char>, Seq<char>, Seq<char>, Seq<char>) {
    (opt_view(s.hotkey), s.model_id@, s.language@, s.paste_method@, s.ui_language@)
}

/// The model used until the user picks another.
pub fn default_model_id() -> (s: String)
    ensures
        s@ == "parakeet-tdt-0.6b-v3"@,
{
    String::from_str("parakeet-tdt-0.6b-v3")
}

/// Recognition language detection is automatic until the user picks a language.
pub fn default_language() -> (s: String)
    ensures
        s@ == "auto"@,
{
    String::from_str("auto")
}

/// Transcripts are pasted with the paste shortcut by default.
pub fn default_paste_method() -> (s: String)
    ensures
        s@ == "auto"@,
{
    String::from_str("auto")
}

/// The interface is in Polish by default.
pub fn default_ui_language() -> (s: String)
    ensures
        s@ == "pl"@,
{
    String::from_str("pl")
}

impl Default for Settings {
    fn default() -> (s: Settings)
        ensures
            s.hotkey is None,
            s.model_id@ == "parakeet-tdt-0.6b-v3"@,
            s.language@ == "auto"@,
            s.paste_method@ == "auto"@,
            s.ui_language@ == "pl"@,
    {
        Settings {
            hotkey: None,
            model_id: default_model_id(),
            language: default_language(),
            paste_method: default_paste_method(),
            ui_language: default_ui_language(),
        }
    }
}

fn copy_opt(o: &Option<String>) -> (r: Option<String>)
    ensures
        r == *o,
{
    match o {
        Some(s) => Some(s.clone()),
        None => None,
    }
}

impl Settings {
    /// An identical copy of these settings.
    pub fn duplicate(&self) -> (r: Settings)
        ensures
            r == *self,
    {
        Settings {
            hotkey: copy_opt(&self.hotkey),
            model_id: self.model_id.clone(),
            language: self.language.clone(),
            paste_method: self.paste_method.clone(),
            ui_language: self.ui_language.clone(),
        }
    }
}

/// Whether two optional strings are equal, as `==` on `Option<String>` decides.
pub fn same_opt(a: &Option<String>, b: &Option<String>) -> (r: bool)
    ensures
        r == (opt_view(*a) == opt_view(*b)),
{
    match (a, b) {
        (Some(x), Some(y)) => *x == *y,
        (None, None) => true,
        _ => false,
    }
}

/// The hotkey to hand to the key listener after the settings changed from `prev`
/// to `next`: the new hotkey when it differs from the old one, and nothing when it
/// is unchanged or was cleared.
pub fn hotkey_to_apply(prev: &Option<String>, next: &Option<String>) -> (r: Option<String>)
    ensures
        r == (if opt_view(*prev) != opt_view(*next) { *next } else { None }),
{
    if !same_opt(prev, next) {
        copy_opt(next)
    } else {
        None
    }
}

} // verus!
