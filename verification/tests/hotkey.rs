use gadaj::input::hotkey::{listener_start, parse_hotkey, HotkeyTracker, Key, KeyEvent, ListenerStart, Mod};
use gadaj::platform::Platform;

#[test]
fn hotkey_alt_space() {
    let p = parse_hotkey("Alt+Space", Platform::Linux);
    assert_eq!(p.key, Key::Space);
    assert_eq!(p.mods, vec![Mod::Alt]);
}

#[test]
fn hotkey_pieces_are_trimmed() {
    let p = parse_hotkey(" Ctrl + Shift + k ", Platform::Windows);
    assert_eq!(p.key, Key::KeyK);
    assert_eq!(p.mods, vec![Mod::Ctrl, Mod::Shift]);
}

#[test]
fn hotkey_letters_are_case_insensitive() {
    assert_eq!(parse_hotkey("Q", Platform::Linux).key, Key::KeyQ);
    assert_eq!(parse_hotkey("q", Platform::Linux).key, Key::KeyQ);
    assert_eq!(parse_hotkey("7", Platform::Linux).key, Key::Num7);
    assert_eq!(parse_hotkey("`", Platform::Linux).key, Key::BackQuote);
}

#[test]
fn hotkey_function_keys() {
    assert_eq!(parse_hotkey("F9", Platform::Linux).key, Key::F9);
    assert_eq!(parse_hotkey("F12", Platform::Linux).key, Key::F12);
    assert_eq!(parse_hotkey("F05", Platform::Linux).key, Key::F5);
    // the keys above F12 are named too, up to F24
    assert_eq!(parse_hotkey("F13", Platform::Linux).key, Key::F13);
    assert!(parse_hotkey("F13", Platform::Linux).mods.is_empty());
    assert_eq!(parse_hotkey("F24", Platform::Linux).key, Key::F24);
    // beyond F24 and F0: the fallback
    assert_eq!(parse_hotkey("F25", Platform::Linux).key, Key::Alt);
    assert_eq!(parse_hotkey("F0", Platform::Linux).key, Key::Alt);
    // not a number: the key stays as it was
    assert_eq!(parse_hotkey("Space+Fn", Platform::Linux).key, Key::Space);
    // more than a u8: the key stays as it was
    assert_eq!(parse_hotkey("Space+F300", Platform::Linux).key, Key::Space);
    // a single F is the letter
    assert_eq!(parse_hotkey("F", Platform::Linux).key, Key::KeyF);
}

#[test]
fn hotkey_cmd_ctrl_depends_on_platform() {
    assert_eq!(parse_hotkey("Cmd/Ctrl+V", Platform::MacOs).mods, vec![Mod::Cmd]);
    assert_eq!(parse_hotkey("Cmd/Ctrl+V", Platform::Linux).mods, vec![Mod::Ctrl]);
    assert_eq!(parse_hotkey("Cmd/Ctrl+V", Platform::Windows).key, Key::KeyV);
}

#[test]
fn hotkey_fallbacks() {
    let p = parse_hotkey("", Platform::Linux);
    assert_eq!(p.key, Key::Alt);
    assert!(p.mods.is_empty());
    // a one-character piece naming no key sets the fallback key
    assert_eq!(parse_hotkey("Space+!", Platform::Linux).key, Key::Alt);
    // a non-ASCII character is not one byte long: ignored
    assert_eq!(parse_hotkey("Space+ł", Platform::Linux).key, Key::Space);
    // unknown words are ignored; the last key named wins; modifiers repeat
    let p = parse_hotkey("Meta+Win+Hyper+Left+Right", Platform::Linux);
    assert_eq!(p.key, Key::RightArrow);
    assert_eq!(p.mods, vec![Mod::Cmd, Mod::Cmd]);
}

#[test]
fn tracker_press_and_release() {
    let mut t = HotkeyTracker::new(parse_hotkey("Alt+Space", Platform::Linux));
    assert_eq!(t.handle(true, KeyEvent::Press(Key::Space)), None); // Alt not held
    assert_eq!(t.handle(true, KeyEvent::Release(Key::Space)), None);
    assert_eq!(t.handle(true, KeyEvent::Press(Key::Alt)), None);
    assert_eq!(t.handle(true, KeyEvent::Press(Key::Space)), Some(true));
    assert!(t.is_active());
    // auto-repeat does not report again
    assert_eq!(t.handle(true, KeyEvent::Press(Key::Space)), None);
    assert_eq!(t.handle(true, KeyEvent::Release(Key::Alt)), None);
    assert_eq!(t.handle(true, KeyEvent::Release(Key::Space)), Some(false));
    assert!(!t.is_active());
    assert_eq!(t.handle(true, KeyEvent::Release(Key::Space)), None);
}

#[test]
fn tracker_without_modifiers_needs_none_held() {
    let mut t = HotkeyTracker::new(parse_hotkey("F9", Platform::Linux));
    assert_eq!(t.handle(true, KeyEvent::Press(Key::ShiftLeft)), None);
    assert_eq!(t.handle(true, KeyEvent::Press(Key::F9)), None);
    assert_eq!(t.handle(true, KeyEvent::Release(Key::ShiftLeft)), None);
    assert_eq!(t.handle(true, KeyEvent::Press(Key::F9)), Some(true));
    assert_eq!(t.handle(true, KeyEvent::Other), None);
    assert_eq!(t.handle(true, KeyEvent::Release(Key::F9)), Some(false));
}

#[test]
fn tracker_stopped_reports_nothing() {
    let mut t = HotkeyTracker::new(parse_hotkey("F9", Platform::Linux));
    assert_eq!(t.handle(false, KeyEvent::Press(Key::F9)), None);
    assert!(!t.is_active());
    assert_eq!(t.handle(true, KeyEvent::Press(Key::F9)), Some(true));
    assert_eq!(t.handle(false, KeyEvent::Release(Key::F9)), None);
    assert!(t.is_active());
}

#[test]
fn tracker_reports_alternate() {
    let mut t = HotkeyTracker::new(parse_hotkey("Ctrl+K", Platform::Linux));
    let events = [
        KeyEvent::Press(Key::ControlLeft),
        KeyEvent::Press(Key::KeyK),
        KeyEvent::Press(Key::KeyK),
        KeyEvent::Release(Key::KeyK),
        KeyEvent::Release(Key::KeyK),
        KeyEvent::Press(Key::KeyK),
        KeyEvent::Release(Key::ControlLeft),
        KeyEvent::Release(Key::KeyK),
    ];
    let mut reports = Vec::new();
    for e in events {
        if let Some(b) = t.handle(true, e) {
            reports.push(b);
        }
    }
    assert_eq!(reports, vec![true, false, true, false]);
}

#[test]
fn hotkey_owned_pair() {
    let (key, mods) = gadaj::input::hotkey::parse_hotkey_owned("Shift+Alt+F1", Platform::Linux);
    assert_eq!(key, Key::F1);
    assert_eq!(mods, vec![Mod::Shift, Mod::Alt]);
}

#[test]
fn hotkey_pieces_apply_left_to_right() {
    // "a+b" is b's pieces applied after a's
    let a = parse_hotkey("Ctrl+Space", Platform::Linux);
    let ab = parse_hotkey("Ctrl+Space+Alt+Tab", Platform::Linux);
    assert_eq!(a.key, Key::Space);
    assert_eq!(ab.key, Key::Tab);
    assert_eq!(ab.mods, vec![Mod::Ctrl, Mod::Alt]);
}

#[test]
fn hotkey_spelling_does_not_matter() {
    let canonical = parse_hotkey("Cmd+Ctrl+Alt+Enter", Platform::Linux);
    let aliased = parse_hotkey(" Super +Control+ Option\t+ Return ", Platform::Linux);
    assert_eq!(aliased.key, canonical.key);
    assert_eq!(aliased.mods, canonical.mods);
    let a = parse_hotkey("Win+Esc", Platform::MacOs);
    let b = parse_hotkey("Meta+Escape", Platform::MacOs);
    assert_eq!((a.key, a.mods), (b.key, b.mods));
    let a = parse_hotkey("Shift+BackSpace", Platform::Windows);
    let b = parse_hotkey("Shift + Backspace", Platform::Windows);
    assert_eq!((a.key, a.mods), (b.key, b.mods));
    let a = parse_hotkey("Alt+K", Platform::Windows);
    let b = parse_hotkey("Alt+ k", Platform::Windows);
    assert_eq!((a.key, a.mods), (b.key, b.mods));
}

#[test]
fn listener_start_decisions() {
    let mut running = true;
    assert!(matches!(listener_start(&mut running, &Some("F9".to_string())), ListenerStart::AlreadyRunning));
    assert!(running);
    let mut running = false;
    assert!(matches!(listener_start(&mut running, &None), ListenerStart::NoKey));
    // the flag stays raised after a failed start, so a second start does nothing
    assert!(running);
    assert!(matches!(listener_start(&mut running, &Some("F9".to_string())), ListenerStart::AlreadyRunning));
    let mut running = false;
    match listener_start(&mut running, &Some("Alt+Space".to_string())) {
        ListenerStart::Listen(k) => assert_eq!(k, "Alt+Space"),
        other => panic!("expected a listener, got {:?}", other),
    }
    assert!(running);
}

#[test]
fn tracker_shared_active_flag() {
    let mut t = HotkeyTracker::new(parse_hotkey("F9", Platform::Linux));
    // another listener already reported the press: this one does not report it again
    t.set_active(true);
    assert_eq!(t.handle(true, KeyEvent::Press(Key::F9)), None);
    assert_eq!(t.handle(true, KeyEvent::Release(Key::F9)), Some(false));
    assert!(!t.is_active());
    assert_eq!(t.handle(true, KeyEvent::Press(Key::F9)), Some(true));
}
