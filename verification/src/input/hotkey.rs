//! The push-to-talk hotkey: parsing its textual form ("Alt+Space", "F9",
//! "Cmd/Ctrl+K") and tracking key events to decide when it is pressed and released.
use vstd::prelude::*;

use crate::platform::Platform;
use crate::text::{all_white, chars_of, is_white_space, lemma_trim_bounds, lemma_trim_padded, trim, trim_seq};

verus! {

/// A modifier that must be held together with the hotkey.
#[derive(Debug, Clone, Copy, PartialEq, Eq, Structural)]
pub enum Mod {
    Cmd,
    Ctrl,
    Alt,
    Shift,
}

/// The keys a hotkey can name, the modifier keys whose state is tracked, and
/// `Other` for every key of the keyboard that is neither.
#[derive(Debug, Clone, Copy, PartialEq, Eq, Structural)]
pub enum Key {
    Alt,
    AltGr,
    MetaLeft,
    MetaRight,
    ControlLeft,
    ControlRight,
    ShiftLeft,
    ShiftRight,
    Space,
    Tab,
    Return,
    Escape,
    Backspace,
    Delete,
    Home,
    End,
    PageUp,
    PageDown,
    UpArrow,
    DownArrow,
    LeftArrow,
    RightArrow,
    KeyA,
    KeyB,
    KeyC,
    KeyD,
    KeyE,
    KeyF,
    KeyG,
    KeyH,
    KeyI,
    KeyJ,
    KeyK,
    KeyL,
    KeyM,
    KeyN,
    KeyO,
    KeyP,
    KeyQ,
    KeyR,
    KeyS,
    KeyT,
    KeyU,
    KeyV,
    KeyW,
    KeyX,
    KeyY,
    KeyZ,
    Num0,
    Num1,
    Num2,
    Num3,
    Num4,
    Num5,
    Num6,
    Num7,
    Num8,
    Num9,
    BackQuote,
    F1,
    F2,
    F3,
    F4,
    F5,
    F6,
    F7,
    F8,
    F9,
    F10,
    F11,
    F12,
    F13,
    F14,
    F15,
    F16,
    F17,
    F18,
    F19,
    F20,
    F21,
    F22,
    F23,
    F24,
    Other,
}

/// A parsed hotkey: the main key and the modifiers it requires, in the order named.
pub struct ParsedHotkey {
    pub key: Key,
    pub mods: Vec<Mod>,
}

// ---------------------------------------------------------------------------
// Specification of the textual form
// ---------------------------------------------------------------------------

/// The pieces of `s` between occurrences of `sep`, as `str::split` yields them:
/// always at least one piece, empty pieces included.
pub open spec fn split_seq(s: Seq<char>, sep: char) -> Seq<Seq<char>>
    decreases s.len(),
{
    if s.len() == 0 {
        seq![Seq::<char>::empty()]
    } else {
        let r = split_seq(s.drop_last(), sep);
        if s.last() == sep {
            r.push(Seq::<char>::empty())
        } else {
            r.update(r.len() - 1, r.last().push(s.last()))
        }
    }
}

pub proof fn lemma_split_nonempty(s: Seq<char>, sep: char)
    ensures
        split_seq(s, sep).len() >= 1,
    decreases s.len(),
{
    if s.len() > 0 {
        lemma_split_nonempty(s.drop_last(), sep);
    }
}

/// `c` as `char::to_ascii_lowercase` maps it.
pub open spec fn ascii_lower(c: char) -> char {
    if 'A' <= c <= 'Z' {
        ((c as u32) + 32) as char
    } else {
        c
    }
}

/// The key named by a single (lower-cased) character; `Alt` when none is.
pub open spec fn key_for_char(c: char) -> Key {
    if c == 'a' { Key::KeyA }
    else if c == 'b' { Key::KeyB }
    else if c == 'c' { Key::KeyC }
    else if c == 'd' { Key::KeyD }
    else if c == 'e' { Key::KeyE }
    else if c == 'f' { Key::KeyF }
    else if c == 'g' { Key::KeyG }
    else if c == 'h' { Key::KeyH }
    else if c == 'i' { Key::KeyI }
    else if c == 'j' { Key::KeyJ }
    else if c == 'k' { Key::KeyK }
    else if c == 'l' { Key::KeyL }
    else if c == 'm' { Key::KeyM }
    else if c == 'n' { Key::KeyN }
    else if c == 'o' { Key::KeyO }
    else if c == 'p' { Key::KeyP }
    else if c == 'q' { Key::KeyQ }
    else if c == 'r' { Key::KeyR }
    else if c == 's' { Key::KeyS }
    else if c == 't' { Key::KeyT }
    else if c == 'u' { Key::KeyU }
    else if c == 'v' { Key::KeyV }
    else if c == 'w' { Key::KeyW }
    else if c == 'x' { Key::KeyX }
    else if c == 'y' { Key::KeyY }
    else if c == 'z' { Key::KeyZ }
    else if c == '0' { Key::Num0 }
    else if c == '1' { Key::Num1 }
    else if c == '2' { Key::Num2 }
    else if c == '3' { Key::Num3 }
    else if c == '4' { Key::Num4 }
    else if c == '5' { Key::Num5 }
    else if c == '6' { Key::Num6 }
    else if c == '7' { Key::Num7 }
    else if c == '8' { Key::Num8 }
    else if c == '9' { Key::Num9 }
    else if c == '`' { Key::BackQuote }
    else { Key::Alt }
}

/// The function key with number `n`; `Alt` outside 1..=24.
pub open spec fn function_key(n: u8) -> Key {
    if n == 1 { Key::F1 }
    else if n == 2 { Key::F2 }
    else if n == 3 { Key::F3 }
    else if n == 4 { Key::F4 }
    else if n == 5 { Key::F5 }
    else if n == 6 { Key::F6 }
    else if n == 7 { Key::F7 }
    else if n == 8 { Key::F8 }
    else if n == 9 { Key::F9 }
    else if n == 10 { Key::F10 }
    else if n == 11 { Key::F11 }
    else if n == 12 { Key::F12 }
    else if n == 13 { Key::F13 }
    else if n == 14 { Key::F14 }
    else if n == 15 { Key::F15 }
    else if n == 16 { Key::F16 }
    else if n == 17 { Key::F17 }
    else if n == 18 { Key::F18 }
    else if n == 19 { Key::F19 }
    else if n == 20 { Key::F20 }
    else if n == 21 { Key::F21 }
    else if n == 22 { Key::F22 }
    else if n == 23 { Key::F23 }
    else if n == 24 { Key::F24 }
    else { Key::Alt }
}

pub open spec fn is_digit(c: char) -> bool {
    '0' <= c <= '9'
}

pub open spec fn all_digits(d: Seq<char>) -> bool {
    forall|i: int| 0 <= i < d.len() ==> is_digit(#[trigger] d[i])
}

/// The decimal value of a string of digits.
pub open spec fn digits_value(d: Seq<char>) -> nat
    decreases d.len(),
{
    if d.len() == 0 {
        0
    } else {
        digits_value(d.drop_last()) * 10 + ((d.last() as u32) - ('0' as u32)) as nat
    }
}

/// `d` parsed as a `u8`, as `u8::from_str` does: an optional `+` sign followed by
/// one or more decimal digits whose value is at most 255.
pub open spec fn parse_u8_seq(d: Seq<char>) -> Option<u8> {
    if d.len() == 0 {
        None
    } else if d.len() == 1 && (d[0] == '+' || d[0] == '-') {
        None
    } else {
        let ds = if d[0] == '+' { d.drop_first() } else { d };
        if all_digits(ds) && digits_value(ds) <= 255 {
            Some(digits_value(ds) as u8)
        } else {
            None
        }
    }
}

/// Whether `p`, a string of characters, takes exactly one byte in UTF-8.
pub open spec fn one_byte(p: Seq<char>) -> bool {
    p.len() == 1 && (p[0] as u32) < 0x80
}

/// What one trimmed piece of the hotkey text does to the key and modifiers parsed so far.
pub open spec fn part_effect(key: Key, mods: Seq<Mod>, p: Seq<char>, platform: Platform) -> (Key, Seq<Mod>) {
    if p == "Cmd"@ || p == "Meta"@ || p == "Super"@ || p == "Win"@ {
        (key, mods.push(Mod::Cmd))
    } else if p == "Ctrl"@ || p == "Control"@ {
        (key, mods.push(Mod::Ctrl))
    } else if p == "Alt"@ || p == "Option"@ {
        (key, mods.push(Mod::Alt))
    } else if p == "Shift"@ {
        (key, mods.push(Mod::Shift))
    } else if p == "Cmd/Ctrl"@ {
        (key, mods.push(if platform == Platform::MacOs { Mod::Cmd } else { Mod::Ctrl }))
    } else if p == "Space"@ {
        (Key::Space, mods)
    } else if p == "Tab"@ {
        (Key::Tab, mods)
    } else if p == "Enter"@ || p == "Return"@ {
        (Key::Return, mods)
    } else if p == "Escape"@ || p == "Esc"@ {
        (Key::Escape, mods)
    } else if p == "BackSpace"@ || p == "Backspace"@ {
        (Key::Backspace, mods)
    } else if p == "Delete"@ {
        (Key::Delete, mods)
    } else if p == "Home"@ {
        (Key::Home, mods)
    } else if p == "End"@ {
        (Key::End, mods)
    } else if p == "PageUp"@ {
        (Key::PageUp, mods)
    } else if p == "PageDown"@ {
        (Key::PageDown, mods)
    } else if p == "Up"@ {
        (Key::UpArrow, mods)
    } else if p == "Down"@ {
        (Key::DownArrow, mods)
    } else if p == "Left"@ {
        (Key::LeftArrow, mods)
    } else if p == "Right"@ {
        (Key::RightArrow, mods)
    } else if one_byte(p) {
        (key_for_char(ascii_lower(p[0])), mods)
    } else if p.len() > 0 && p[0] == 'F' {
        match parse_u8_seq(p.drop_first()) {
            Some(n) => (function_key(n), mods),
            None => (key, mods),
        }
    } else {
        (key, mods)
    }
}

/// The one spelling that each trimmed piece of the hotkey text stands for: an alias
/// (`Meta`, `Super`, `Win`; `Control`; `Option`; `Return`; `Esc`; `BackSpace`)
/// replaced by its name, and a one-letter piece lower-cased.
pub open spec fn canonical_part(p: Seq<char>) -> Seq<char> {
    if p == "Meta"@ || p == "Super"@ || p == "Win"@ {
        "Cmd"@
    } else if p == "Control"@ {
        "Ctrl"@
    } else if p == "Option"@ {
        "Alt"@
    } else if p == "Return"@ {
        "Enter"@
    } else if p == "Esc"@ {
        "Escape"@
    } else if p == "BackSpace"@ {
        "Backspace"@
    } else if one_byte(p) {
        seq![ascii_lower(p[0])]
    } else {
        p
    }
}

/// The key and modifiers after the given pieces, each trimmed, have been applied in
/// order, starting from the fallback key `Alt` and no modifiers.
pub open spec fn parse_parts(parts: Seq<Seq<char>>, platform: Platform) -> (Key, Seq<Mod>)
    decreases parts.len(),
{
    if parts.len() == 0 {
        (Key::Alt, Seq::<Mod>::empty())
    } else {
        let (k, m) = parse_parts(parts.drop_last(), platform);
        part_effect(k, m, trim_seq(parts.last()), platform)
    }
}

/// The hotkey that the text `s` names: its pieces between `+` signs, trimmed and
/// applied left to right.
pub open spec fn spec_parse_hotkey(s: Seq<char>, platform: Platform) -> (Key, Seq<Mod>) {
    parse_parts(split_seq(s, '+'), platform)
}

/// The key and modifiers after the given pieces, each trimmed, have been applied in
/// order, starting from `key` and `mods`.
pub open spec fn parse_parts_from(key: Key, mods: Seq<Mod>, parts: Seq<Seq<char>>, platform: Platform) -> (Key, Seq<Mod>)
    decreases parts.len(),
{
    if parts.len() == 0 {
        (key, mods)
    } else {
        let (k, m) = parse_parts_from(key, mods, parts.drop_last(), platform);
        part_effect(k, m, trim_seq(parts.last()), platform)
    }
}

proof fn lemma_parse_parts_from_start(parts: Seq<Seq<char>>, platform: Platform)
    ensures
        parse_parts(parts, platform) == parse_parts_from(Key::Alt, Seq::<Mod>::empty(), parts, platform),
    decreases parts.len(),
{
    if parts.len() > 0 {
        lemma_parse_parts_from_start(parts.drop_last(), platform);
    }
}

proof fn lemma_parse_parts_from_concat(key: Key, mods: Seq<Mod>, p1: Seq<Seq<char>>, p2: Seq<Seq<char>>, platform: Platform)
    ensures
        parse_parts_from(key, mods, p1 + p2, platform) == ({
            let (k, m) = parse_parts_from(key, mods, p1, platform);
            parse_parts_from(k, m, p2, platform)
        }),
    decreases p2.len(),
{
    if p2.len() == 0 {
        assert(p1 + p2 =~= p1);
    } else {
        lemma_parse_parts_from_concat(key, mods, p1, p2.drop_last(), platform);
        assert((p1 + p2).drop_last() =~= p1 + p2.drop_last());
        assert((p1 + p2).last() == p2.last());
    }
}

proof fn lemma_split_concat(a: Seq<char>, b: Seq<char>, sep: char)
    ensures
        split_seq(a + seq![sep] + b, sep) == split_seq(a, sep) + split_seq(b, sep),
    decreases b.len(),
{
    lemma_split_nonempty(a, sep);
    if b.len() == 0 {
        assert(a + seq![sep] + b =~= a.push(sep));
        assert(a.push(sep).drop_last() =~= a);
        assert(split_seq(a, sep).push(Seq::<char>::empty()) =~= split_seq(a, sep) + split_seq(b, sep));
    } else {
        lemma_split_concat(a, b.drop_last(), sep);
        lemma_split_nonempty(b.drop_last(), sep);
        let whole = a + seq![sep] + b;
        assert(whole.drop_last() =~= a + seq![sep] + b.drop_last());
        assert(whole.last() == b.last());
        let sa = split_seq(a, sep);
        let sb = split_seq(b.drop_last(), sep);
        if b.last() == sep {
            assert((sa + sb).push(Seq::<char>::empty()) =~= sa + sb.push(Seq::<char>::empty()));
        } else {
            let r = sa + sb;
            assert(r.update(r.len() - 1, r.last().push(b.last())) =~= sa + sb.update(sb.len() - 1, sb.last().push(b.last())));
        }
    }
}

/// The pieces of a hotkey apply left to right: the text `a` + "+" + `b` parses as
/// the pieces of `b` applied, in order, to the key and modifiers that `a` parses to.
pub proof fn lemma_parse_concat(a: Seq<char>, b: Seq<char>, platform: Platform)
    ensures
        spec_parse_hotkey(a + seq!['+'] + b, platform) == ({
            let (k, m) = spec_parse_hotkey(a, platform);
            parse_parts_from(k, m, split_seq(b, '+'), platform)
        }),
{
    lemma_split_concat(a, b, '+');
    lemma_parse_parts_from_start(split_seq(a + seq!['+'] + b, '+'), platform);
    lemma_parse_parts_from_start(split_seq(a, '+'), platform);
    lemma_parse_parts_from_concat(Key::Alt, Seq::<Mod>::empty(), split_seq(a, '+'), split_seq(b, '+'), platform);
}

// ---------------------------------------------------------------------------
// Implementation
// ---------------------------------------------------------------------------

/// Whether the characters `v` spell the literal `lit`.
fn chars_are(v: &Vec<char>, lit: &str) -> (r: bool)
    ensures
        r == (v@ == lit@),
{
    let n = lit.unicode_len();
    if v.len() != n {
        return false;
    }
    let mut i: usize = 0;
    while i < n
        invariant
            n == lit@.len(),
            v.len() == n,
            i <= n,
            forall|j: int| 0 <= j < i ==> v@[j] == lit@[j],
        decreases n - i,
    {
        if v[i] != lit.get_char(i) {
            return false;
        }
        i = i + 1;
    }
    assert(v@ =~= lit@);
    true
}

fn ascii_lower_char(c: char) -> (r: char)
    ensures
        r == ascii_lower(c),
{
    match c {
        'A' => 'a',
        'B' => 'b',
        'C' => 'c',
        'D' => 'd',
        'E' => 'e',
        'F' => 'f',
        'G' => 'g',
        'H' => 'h',
        'I' => 'i',
        'J' => 'j',
        'K' => 'k',
        'L' => 'l',
        'M' => 'm',
        'N' => 'n',
        'O' => 'o',
        'P' => 'p',
        'Q' => 'q',
        'R' => 'r',
        'S' => 's',
        'T' => 't',
        'U' => 'u',
        'V' => 'v',
        'W' => 'w',
        'X' => 'x',
        'Y' => 'y',
        'Z' => 'z',
        _ => c,
    }
}

fn key_for(c: char) -> (k: Key)
    ensures
        k == key_for_char(c),
{
    match c {
        'a' => Key::KeyA,
        'b' => Key::KeyB,
        'c' => Key::KeyC,
        'd' => Key::KeyD,
        'e' => Key::KeyE,
        'f' => Key::KeyF,
        'g' => Key::KeyG,
        'h' => Key::KeyH,
        'i' => Key::KeyI,
        'j' => Key::KeyJ,
        'k' => Key::KeyK,
        'l' => Key::KeyL,
        'm' => Key::KeyM,
        'n' => Key::KeyN,
        'o' => Key::KeyO,
        'p' => Key::KeyP,
        'q' => Key::KeyQ,
        'r' => Key::KeyR,
        's' => Key::KeyS,
        't' => Key::KeyT,
        'u' => Key::KeyU,
        'v' => Key::KeyV,
        'w' => Key::KeyW,
        'x' => Key::KeyX,
        'y' => Key::KeyY,
        'z' => Key::KeyZ,
        '0' => Key::Num0,
        '1' => Key::Num1,
        '2' => Key::Num2,
        '3' => Key::Num3,
        '4' => Key::Num4,
        '5' => Key::Num5,
        '6' => Key::Num6,
        '7' => Key::Num7,
        '8' => Key::Num8,
        '9' => Key::Num9,
        '`' => Key::BackQuote,
        _ => Key::Alt,
    }
}

fn function_key_for(n: u8) -> (k: Key)
    ensures
        k == function_key(n),
{
    match n {
        1 => Key::F1,
        2 => Key::F2,
        3 => Key::F3,
        4 => Key::F4,
        5 => Key::F5,
        6 => Key::F6,
        7 => Key::F7,
        8 => Key::F8,
        9 => Key::F9,
        10 => Key::F10,
        11 => Key::F11,
        12 => Key::F12,
        13 => Key::F13,
        14 => Key::F14,
        15 => Key::F15,
        16 => Key::F16,
        17 => Key::F17,
        18 => Key::F18,
        19 => Key::F19,
        20 => Key::F20,
        21 => Key::F21,
        22 => Key::F22,
        23 => Key::F23,
        24 => Key::F24,
        _ => Key::Alt,
    }
}

proof fn lemma_digits_value_grows(d: Seq<char>, i: int)
    requires
        0 <= i <= d.len(),
        all_digits(d),
    ensures
        digits_value(d.subrange(0, i)) <= digits_value(d),
    decreases d.len() - i,
{
    if i < d.len() {
        lemma_digits_value_grows(d, i + 1);
        assert(d.subrange(0, i + 1).drop_last() =~= d.subrange(0, i));
    } else {
        assert(d.subrange(0, i) =~= d);
    }
}

/// `v[from..]` parsed as a `u8` by the rules of `u8::from_str`.
fn parse_u8_from(v: &Vec<char>, from: usize) -> (r: Option<u8>)
    requires
        from <= v.len(),
    ensures
        r == parse_u8_seq(v@.subrange(from as int, v.len() as int)),
{
    let ghost d = v@.subrange(from as int, v.len() as int);
    let n = v.len();
    if from == n {
        return None;
    }
    if n - from == 1 && (v[from] == '+' || v[from] == '-') {
        return None;
    }
    let start = if v[from] == '+' { from + 1 } else { from };
    let ghost ds = if d[0] == '+' { d.drop_first() } else { d };
    assert(ds =~= v@.subrange(start as int, n as int));
    let mut value: u32 = 0;
    let mut i: usize = start;
    while i < n
        invariant
            start <= i <= n,
            n == v.len(),
            from <= start,
            d == v@.subrange(from as int, n as int),
            d.len() > 0,
            !(d.len() == 1 && (d[0] == '+' || d[0] == '-')),
            ds == (if d[0] == '+' { d.drop_first() } else { d }),
            ds == v@.subrange(start as int, n as int),
            all_digits(ds.subrange(0, i - start)),
            value == digits_value(ds.subrange(0, i - start)),
            value <= 255,
        decreases n - i,
    {
        let c = v[i];
        if !('0' <= c && c <= '9') {
            assert(ds[i - start] == c);
            return None;
        }
        let digit = (c as u32) - ('0' as u32);
        let ghost pre = ds.subrange(0, i - start);
        assert(ds.subrange(0, i + 1 - start).drop_last() =~= pre);
        assert(ds.subrange(0, i + 1 - start).last() == c);
        value = value * 10 + digit;
        assert forall|j: int| 0 <= j < i + 1 - start implies is_digit(
            #[trigger] ds.subrange(0, i + 1 - start)[j],
        ) by {
            if j < i - start {
                assert(ds.subrange(0, i + 1 - start)[j] == pre[j]);
            }
        }
        i = i + 1;
        if value > 255 {
            proof {
                if all_digits(ds) {
                    lemma_digits_value_grows(ds, i - start);
                }
            }
            return None;
        }
    }
    assert(ds.subrange(0, n - start) =~= ds);
    Some(value as u8)
}

/// What the trimmed piece `p` does to `key` and `mods`.
fn apply_part(key: Key, mods: &mut Vec<Mod>, p: &Vec<char>, platform: Platform) -> (k: Key)
    ensures
        (k, final(mods)@) == part_effect(key, old(mods)@, p@, platform),
{
    if chars_are(p, "Cmd") || chars_are(p, "Meta") || chars_are(p, "Super") || chars_are(p, "Win") {
        mods.push(Mod::Cmd);
        key
    } else if chars_are(p, "Ctrl") || chars_are(p, "Control") {
        mods.push(Mod::Ctrl);
        key
    } else if chars_are(p, "Alt") || chars_are(p, "Option") {
        mods.push(Mod::Alt);
        key
    } else if chars_are(p, "Shift") {
        mods.push(Mod::Shift);
        key
    } else if chars_are(p, "Cmd/Ctrl") {
        if platform == Platform::MacOs {
            mods.push(Mod::Cmd);
        } else {
            mods.push(Mod::Ctrl);
        }
        key
    } else if chars_are(p, "Space") {
        Key::Space
    } else if chars_are(p, "Tab") {
        Key::Tab
    } else if chars_are(p, "Enter") || chars_are(p, "Return") {
        Key::Return
    } else if chars_are(p, "Escape") || chars_are(p, "Esc") {
        Key::Escape
    } else if chars_are(p, "BackSpace") || chars_are(p, "Backspace") {
        Key::Backspace
    } else if chars_are(p, "Delete") {
        Key::Delete
    } else if chars_are(p, "Home") {
        Key::Home
    } else if chars_are(p, "End") {
        Key::End
    } else if chars_are(p, "PageUp") {
        Key::PageUp
    } else if chars_are(p, "PageDown") {
        Key::PageDown
    } else if chars_are(p, "Up") {
        Key::UpArrow
    } else if chars_are(p, "Down") {
        Key::DownArrow
    } else if chars_are(p, "Left") {
        Key::LeftArrow
    } else if chars_are(p, "Right") {
        Key::RightArrow
    } else if p.len() == 1 && (p[0] as u32) < 0x80 {
        key_for(ascii_lower_char(p[0]))
    } else if p.len() > 0 && p[0] == 'F' {
        match parse_u8_from(p, 1) {
            Some(n) => {
                assert(p@.subrange(1, p@.len() as int) =~= p@.drop_first());
                function_key_for(n)
            },
            None => {
                assert(p@.subrange(1, p@.len() as int) =~= p@.drop_first());
                key
            },
        }
    } else {
        key
    }
}

/// Parses the textual form of a hotkey, such as "Alt+Space" or "Cmd/Ctrl+F9".
///
/// The text is split at every `+`; each piece is trimmed and then names either a
/// modifier (which is added, repeats included) or the main key (the last one named
/// wins). A single one-byte character names a letter, digit or backquote key, and
/// `F` followed by a number names a function key; anything unrecognised leaves the
/// result unchanged, and a number or character that names no key sets the fallback
/// key `Alt`. "Cmd/Ctrl" means Cmd on macOS and Ctrl elsewhere.
pub fn parse_hotkey(s: &str, platform: Platform) -> (r: ParsedHotkey)
    ensures
        (r.key, r.mods@) == spec_parse_hotkey(s@, platform),
{
    let v = chars_of(s);
    let n = v.len();
    let mut key = Key::Alt;
    let mut mods: Vec<Mod> = Vec::new();
    let mut start: usize = 0;
    let mut i: usize = 0;
    proof {
        assert(v@.subrange(0, 0) =~= Seq::<char>::empty());
    }
    while i < n
        invariant
            v@ == s@,
            n == v.len(),
            start <= i <= n,
            split_seq(v@.subrange(0, i as int), '+').len() >= 1,
            split_seq(v@.subrange(0, i as int), '+').last() == v@.subrange(start as int, i as int),
            (key, mods@) == parse_parts(split_seq(v@.subrange(0, i as int), '+').drop_last(), platform),
        decreases n - i,
    {
        let ghost sp = split_seq(v@.subrange(0, i as int), '+');
        let ghost t = v@.subrange(0, i + 1);
        assert(t.drop_last() =~= v@.subrange(0, i as int));
        assert(t.last() == v@[i as int]);
        if v[i] == '+' {
            let piece = trim(s.substring_char(start, i));
            let pv = chars_of(piece.as_str());
            key = apply_part(key, &mut mods, &pv, platform);
            proof {
                assert(split_seq(t, '+') == sp.push(Seq::<char>::empty()));
                assert(split_seq(t, '+').drop_last() =~= sp);
                assert(sp =~= sp.drop_last().push(sp.last()));
            }
            start = i + 1;
            assert(v@.subrange(start as int, i + 1) =~= Seq::<char>::empty());
        } else {
            proof {
                assert(split_seq(t, '+') == sp.update(sp.len() - 1, sp.last().push(v@[i as int])));
                assert(split_seq(t, '+').drop_last() =~= sp.drop_last());
                assert(v@.subrange(start as int, i + 1) =~= v@.subrange(start as int, i as int).push(v@[i as int]));
            }
        }
        i = i + 1;
    }
    let piece = trim(s.substring_char(start, n));
    let pv = chars_of(piece.as_str());
    key = apply_part(key, &mut mods, &pv, platform);
    proof {
        let sp = split_seq(v@.subrange(0, n as int), '+');
        assert(v@.subrange(0, n as int) =~= s@);
        assert(sp =~= sp.drop_last().push(sp.last()));
    }
    ParsedHotkey { key, mods }
}


/// The parsed hotkey as a pair of its key and modifiers.
pub fn parse_hotkey_owned(s: &str, platform: Platform) -> (r: (Key, Vec<Mod>))
    ensures
        (r.0, r.1@) == spec_parse_hotkey(s@, platform),
{
    let p = parse_hotkey(s, platform);
    (p.key, p.mods)
}

// ---------------------------------------------------------------------------
// Tracking key events
// ---------------------------------------------------------------------------

/// A keyboard event as the global listener reports it.
#[derive(Debug, Clone, Copy, PartialEq, Eq, Structural)]
pub enum KeyEvent {
    Press(Key),
    Release(Key),
    /// Mouse and wheel events, which the tracker ignores.
    Other,
}

/// Which modifier keys are held, and whether the hotkey is currently reported as
/// pressed.
#[derive(Debug, Clone, Copy, PartialEq, Eq, Structural)]
pub struct KeyState {
    pub meta: bool,
    pub ctrl: bool,
    pub alt: bool,
    pub shift: bool,
    pub active: bool,
}

/// Whether the modifier `m` is held in `st`.
pub open spec fn mod_down(st: KeyState, m: Mod) -> bool {
    match m {
        Mod::Cmd => st.meta,
        Mod::Ctrl => st.ctrl,
        Mod::Alt => st.alt,
        Mod::Shift => st.shift,
    }
}

/// Whether the held modifiers match what the hotkey requires: with no modifiers
/// required, none may be held; otherwise each required one must be held.
pub open spec fn mods_match(mods: Seq<Mod>, st: KeyState) -> bool {
    if mods.len() == 0 {
        !st.meta && !st.ctrl && !st.alt && !st.shift
    } else {
        forall|i: int| 0 <= i < mods.len() ==> mod_down(st, #[trigger] mods[i])
    }
}

/// `st` after the key `k` went down (`down`) or up, as far as modifiers go.
pub open spec fn track_modifier(st: KeyState, k: Key, down: bool) -> KeyState {
    if k == Key::MetaLeft || k == Key::MetaRight {
        KeyState { meta: down, ..st }
    } else if k == Key::ControlLeft || k == Key::ControlRight {
        KeyState { ctrl: down, ..st }
    } else if k == Key::Alt || k == Key::AltGr {
        KeyState { alt: down, ..st }
    } else if k == Key::ShiftLeft || k == Key::ShiftRight {
        KeyState { shift: down, ..st }
    } else {
        st
    }
}

/// One event handled: the next state, and `Some(true)` when the hotkey is reported
/// pressed, `Some(false)` when it is reported released.
pub open spec fn key_step(hot: Key, mods: Seq<Mod>, st: KeyState, running: bool, ev: KeyEvent) -> (KeyState, Option<bool>) {
    if !running {
        (st, None)
    } else {
        match ev {
            KeyEvent::Press(k) => {
                let st1 = track_modifier(st, k, true);
                if k == hot && mods_match(mods, st1) && !st1.active {
                    (KeyState { active: true, ..st1 }, Some(true))
                } else {
                    (st1, None)
                }
            },
            KeyEvent::Release(k) => {
                let st1 = track_modifier(st, k, false);
                if k == hot && st1.active {
                    (KeyState { active: false, ..st1 }, Some(false))
                } else {
                    (st1, None)
                }
            },
            KeyEvent::Other => (st, None),
        }
    }
}

/// A sequence of events handled from `st`, each with the listener's running flag at
/// that moment: the final state and every report made, in order.
pub open spec fn key_run(hot: Key, mods: Seq<Mod>, st: KeyState, evs: Seq<(bool, KeyEvent)>) -> (KeyState, Seq<bool>)
    decreases evs.len(),
{
    if evs.len() == 0 {
        (st, Seq::<bool>::empty())
    } else {
        let (s, outs) = key_run(hot, mods, st, evs.drop_last());
        let (s2, out) = key_step(hot, mods, s, evs.last().0, evs.last().1);
        match out {
            Some(b) => (s2, outs.push(b)),
            None => (s2, outs),
        }
    }
}

/// What a request to start the hotkey listener comes to.
#[derive(Debug)]
pub enum ListenerStart {
    /// A listener is already running: nothing more is started.
    AlreadyRunning,
    /// No hotkey is configured: nothing is started, and the running flag stays
    /// raised.
    NoKey,
    /// A listener is to be started for this hotkey text.
    Listen(String),
}

/// Starting the hotkey listener: the running flag is raised in every case; a
/// listener that was already running is left alone; otherwise the configured
/// hotkey text is listened for, or the start fails when there is none.
pub fn listener_start(running: &mut bool, key: &Option<String>) -> (r: ListenerStart)
    ensures
        *final(running),
        r is AlreadyRunning <==> *old(running),
        r is NoKey <==> (!*old(running) && key is None),
        r matches ListenerStart::Listen(k) ==> (key matches Some(k0) && k@ == k0@),
{
    let was_running = *running;
    *running = true;
    if was_running {
        ListenerStart::AlreadyRunning
    } else {
        match key {
            Some(k) => ListenerStart::Listen(k.clone()),
            None => ListenerStart::NoKey,
        }
    }
}

/// Decides, event by event, when the push-to-talk hotkey goes down and up.
pub struct HotkeyTracker {
    hot: Key,
    mods: Vec<Mod>,
    st: KeyState,
}

impl HotkeyTracker {
    pub closed spec fn hot(&self) -> Key {
        self.hot
    }

    pub closed spec fn mods(&self) -> Seq<Mod> {
        self.mods@
    }

    pub closed spec fn state(&self) -> KeyState {
        self.st
    }

    /// A tracker for `parsed`, with no key held and the hotkey not active.
    pub fn new(parsed: ParsedHotkey) -> (t: HotkeyTracker)
        ensures
            t.hot() == parsed.key,
            t.mods() == parsed.mods@,
            t.state() == (KeyState { meta: false, ctrl: false, alt: false, shift: false, active: false }),
    {
        HotkeyTracker {
            hot: parsed.key,
            mods: parsed.mods,
            st: KeyState { meta: false, ctrl: false, alt: false, shift: false, active: false },
        }
    }

    /// Sets whether the hotkey is reported as pressed, leaving the modifiers as they
    /// are: listeners started one after another share this flag.
    pub fn set_active(&mut self, active: bool)
        ensures
            final(self).hot() == old(self).hot(),
            final(self).mods() == old(self).mods(),
            final(self).state() == (KeyState { active, ..old(self).state() }),
    {
        self.st.active = active;
    }

    /// Whether the hotkey is currently reported as pressed.
    pub fn is_active(&self) -> (b: bool)
        ensures
            b == self.state().active,
    {
        self.st.active
    }

    fn mods_hold(&self, st: KeyState) -> (b: bool)
        ensures
            b == mods_match(self.mods(), st),
    {
        let n = self.mods.len();
        if n == 0 {
            return !st.meta && !st.ctrl && !st.alt && !st.shift;
        }
        let mut i: usize = 0;
        while i < n
            invariant
                n == self.mods@.len(),
                i <= n,
                forall|j: int| 0 <= j < i ==> mod_down(st, #[trigger] self.mods@[j]),
            decreases n - i,
        {
            let down = match self.mods[i] {
                Mod::Cmd => st.meta,
                Mod::Ctrl => st.ctrl,
                Mod::Alt => st.alt,
                Mod::Shift => st.shift,
            };
            if !down {
                return false;
            }
            i = i + 1;
        }
        true
    }

    /// Handles one event while the listener is `running`. Returns `Some(true)` when
    /// the hotkey has just been pressed with its modifiers, `Some(false)` when it has
    /// just been released after such a press, and `None` otherwise.
    pub fn handle(&mut self, running: bool, ev: KeyEvent) -> (out: Option<bool>)
        ensures
            final(self).hot() == old(self).hot(),
            final(self).mods() == old(self).mods(),
            (final(self).state(), out) == key_step(old(self).hot(), old(self).mods(), old(self).state(), running, ev),
    {
        if !running {
            return None;
        }
        match ev {
            KeyEvent::Press(k) => {
                self.st = track(self.st, k, true);
                if k == self.hot && self.mods_hold(self.st) && !self.st.active {
                    self.st.active = true;
                    Some(true)
                } else {
                    None
                }
            },
            KeyEvent::Release(k) => {
                self.st = track(self.st, k, false);
                if k == self.hot && self.st.active {
                    self.st.active = false;
                    Some(false)
                } else {
                    None
                }
            },
            KeyEvent::Other => None,
        }
    }
}

fn track(st: KeyState, k: Key, down: bool) -> (r: KeyState)
    ensures
        r == track_modifier(st, k, down),
{
    match k {
        Key::MetaLeft | Key::MetaRight => KeyState { meta: down, ..st },
        Key::ControlLeft | Key::ControlRight => KeyState { ctrl: down, ..st },
        Key::Alt | Key::AltGr => KeyState { alt: down, ..st },
        Key::ShiftLeft | Key::ShiftRight => KeyState { shift: down, ..st },
        _ => st,
    }
}

/// The reports alternate: starting from a state whose hotkey is `active` or not,
/// the first report is the opposite of `active`, each later report is the opposite
/// of the one before, and at the end the hotkey is active exactly when the last
/// report said "pressed" (or, with no report, when it was active to begin with).
pub proof fn lemma_reports_alternate(hot: Key, mods: Seq<Mod>, st: KeyState, evs: Seq<(bool, KeyEvent)>)
    ensures
        ({
            let (fin, outs) = key_run(hot, mods, st, evs);
            &&& forall|j: int| 0 <= j < outs.len() ==> #[trigger] outs[j] == (if j % 2 == 0 { !st.active } else { st.active })
            &&& fin.active == (if outs.len() % 2 == 0 { st.active } else { !st.active })
        }),
    decreases evs.len(),
{
    if evs.len() > 0 {
        lemma_reports_alternate(hot, mods, st, evs.drop_last());
    }
}

/// Pressing the hotkey while it is not active and with the held modifiers matching
/// reports a press and makes it active; releasing it while it is active reports a
/// release and makes it inactive. A listener that is not running reports nothing
/// and changes nothing.
pub proof fn lemma_press_release_reported(hot: Key, mods: Seq<Mod>, st: KeyState)
    ensures
        !st.active && mods_match(mods, track_modifier(st, hot, true))
            ==> key_step(hot, mods, st, true, KeyEvent::Press(hot)) == (KeyState { active: true, ..track_modifier(st, hot, true) }, Some(true)),
        st.active
            ==> key_step(hot, mods, st, true, KeyEvent::Release(hot)) == (KeyState { active: false, ..track_modifier(st, hot, false) }, Some(false)),
        forall|ev: KeyEvent| #[trigger] key_step(hot, mods, st, false, ev) == (st, None::<bool>),
{
}

// ---------------------------------------------------------------------------
// Spelling laws
// ---------------------------------------------------------------------------

proof fn lemma_ascii_lower_idempotent(c: char)
    requires
        (c as u32) < 0x80,
    ensures
        (ascii_lower(c) as u32) < 0x80,
        ascii_lower(ascii_lower(c)) == ascii_lower(c),
{
}

/// A piece of the hotkey text does what its canonical spelling does: an alias acts
/// as the name it stands for, and a one-letter piece as its lower-case letter.
pub proof fn lemma_part_effect_canonical(key: Key, mods: Seq<Mod>, p: Seq<char>, platform: Platform)
    ensures
        part_effect(key, mods, p, platform) == part_effect(key, mods, canonical_part(p), platform),
{
    reveal_strlit("Cmd");
    reveal_strlit("Meta");
    reveal_strlit("Super");
    reveal_strlit("Win");
    reveal_strlit("Ctrl");
    reveal_strlit("Control");
    reveal_strlit("Alt");
    reveal_strlit("Option");
    reveal_strlit("Shift");
    reveal_strlit("Cmd/Ctrl");
    reveal_strlit("Space");
    reveal_strlit("Tab");
    reveal_strlit("Enter");
    reveal_strlit("Return");
    reveal_strlit("Escape");
    reveal_strlit("Esc");
    reveal_strlit("BackSpace");
    reveal_strlit("Backspace");
    reveal_strlit("Delete");
    reveal_strlit("Home");
    reveal_strlit("End");
    reveal_strlit("PageUp");
    reveal_strlit("PageDown");
    reveal_strlit("Up");
    reveal_strlit("Down");
    reveal_strlit("Left");
    reveal_strlit("Right");
    if one_byte(p) {
        lemma_ascii_lower_idempotent(p[0]);
        let q: Seq<char> = seq![ascii_lower(p[0])];
        assert(one_byte(q));
        assert(q[0] == ascii_lower(p[0]));
    }
}

/// Two lists of pieces that agree one by one up to surrounding whitespace, aliases
/// and the case of one-letter pieces give the same key and modifiers.
pub proof fn lemma_parse_parts_canonical(a: Seq<Seq<char>>, b: Seq<Seq<char>>, platform: Platform)
    requires
        a.len() == b.len(),
        forall|i: int| 0 <= i < a.len()
            ==> canonical_part(trim_seq(#[trigger] a[i])) == canonical_part(trim_seq(b[i])),
    ensures
        parse_parts(a, platform) == parse_parts(b, platform),
    decreases a.len(),
{
    if a.len() > 0 {
        let a0 = a.drop_last();
        let b0 = b.drop_last();
        assert forall|i: int| 0 <= i < a0.len()
            implies canonical_part(trim_seq(#[trigger] a0[i])) == canonical_part(trim_seq(b0[i])) by {
            assert(a0[i] == a[i]);
            assert(b0[i] == b[i]);
        }
        lemma_parse_parts_canonical(a0, b0, platform);
        let (k, m) = parse_parts(a0, platform);
        let last = a.len() - 1;
        assert(canonical_part(trim_seq(a[last])) == canonical_part(trim_seq(b[last])));
        lemma_part_effect_canonical(k, m, trim_seq(a.last()), platform);
        lemma_part_effect_canonical(k, m, trim_seq(b.last()), platform);
    }
}

/// Two hotkey texts whose `+`-separated pieces agree one by one, up to whitespace
/// around a piece, aliases (`Cmd`/`Meta`/`Super`/`Win`, `Ctrl`/`Control`,
/// `Alt`/`Option`, `Enter`/`Return`, `Escape`/`Esc`, `Backspace`/`BackSpace`) and
/// the case of one-letter pieces, name the same key and modifiers.
pub proof fn lemma_parse_ignores_spelling(s: Seq<char>, t: Seq<char>, platform: Platform)
    requires
        split_seq(s, '+').len() == split_seq(t, '+').len(),
        forall|i: int| 0 <= i < split_seq(s, '+').len()
            ==> canonical_part(trim_seq(#[trigger] split_seq(s, '+')[i]))
                == canonical_part(trim_seq(split_seq(t, '+')[i])),
    ensures
        spec_parse_hotkey(s, platform) == spec_parse_hotkey(t, platform),
{
    lemma_parse_parts_canonical(split_seq(s, '+'), split_seq(t, '+'), platform);
}

/// A piece padded with whitespace has the canonical spelling of the bare piece.
pub proof fn lemma_padded_piece_canonical(w1: Seq<char>, p: Seq<char>, w2: Seq<char>)
    requires
        all_white(w1),
        all_white(w2),
    ensures
        canonical_part(trim_seq(w1 + p + w2)) == canonical_part(trim_seq(p)),
{
    lemma_trim_padded(w1, p, w2);
}

// ---------------------------------------------------------------------------
// The names of keys
// ---------------------------------------------------------------------------

/// Whether `n` holds neither a `+` nor whitespace: a piece that stands as written.
pub open spec fn plain_piece(n: Seq<char>) -> bool {
    forall|i: int| 0 <= i < n.len() ==> #[trigger] n[i] != '+' && !is_white_space(n[i])
}

proof fn lemma_split_without_sep(s: Seq<char>, sep: char)
    requires
        forall|i: int| 0 <= i < s.len() ==> #[trigger] s[i] != sep,
    ensures
        split_seq(s, sep) == seq![s],
    decreases s.len(),
{
    if s.len() == 0 {
        assert(s =~= Seq::<char>::empty());
    } else {
        let t = s.drop_last();
        assert forall|i: int| 0 <= i < t.len() implies #[trigger] t[i] != sep by {
            assert(t[i] == s[i]);
        }
        lemma_split_without_sep(t, sep);
        assert(s.last() == s[s.len() - 1]);
        assert(t.push(s.last()) =~= s);
        assert(seq![t].update(0, t.push(s.last())) =~= seq![s]);
    }
}

proof fn lemma_trim_plain(n: Seq<char>)
    requires
        plain_piece(n),
    ensures
        trim_seq(n) == n,
{
    assert(all_white(n.subrange(0, 0)));
    assert(all_white(n.subrange(n.len() as int, n.len() as int)));
    if n.len() > 0 {
        assert(!is_white_space(n[0]));
        assert(!is_white_space(n[n.len() - 1]));
    }
    lemma_trim_bounds(n, 0, n.len() as int);
    assert(n.subrange(0, n.len() as int) =~= n);
}

/// A plain piece at the end of a hotkey text, or alone, acts on what comes before it
/// as that piece does.
proof fn lemma_plain_piece(a: Seq<char>, n: Seq<char>, platform: Platform)
    requires
        plain_piece(n),
    ensures
        spec_parse_hotkey(a + seq!['+'] + n, platform)
            == part_effect(spec_parse_hotkey(a, platform).0, spec_parse_hotkey(a, platform).1, n, platform),
        spec_parse_hotkey(n, platform) == part_effect(Key::Alt, Seq::<Mod>::empty(), n, platform),
{
    assert forall|i: int| 0 <= i < n.len() implies #[trigger] n[i] != '+' by {}
    lemma_split_without_sep(n, '+');
    lemma_trim_plain(n);
    lemma_parse_concat(a, n, platform);
    let (k, m) = spec_parse_hotkey(a, platform);
    let e = Seq::<Seq<char>>::empty();
    assert(seq![n].drop_last() =~= e);
    assert(seq![n].last() == n);
    assert(parse_parts_from(k, m, e, platform) == (k, m));
    assert(parse_parts(e, platform) == (Key::Alt, Seq::<Mod>::empty()));
    assert(parse_parts_from(k, m, seq![n], platform) == part_effect(k, m, n, platform));
    assert(parse_parts(seq![n], platform) == part_effect(Key::Alt, Seq::<Mod>::empty(), n, platform));
}

proof fn lemma_name_space(key: Key, mods: Seq<Mod>, platform: Platform)
    ensures
        part_effect(key, mods, "Space"@, platform) == (Key::Space, mods),
        plain_piece("Space"@),
{
    reveal_strlit("Cmd");
    reveal_strlit("Meta");
    reveal_strlit("Super");
    reveal_strlit("Win");
    reveal_strlit("Ctrl");
    reveal_strlit("Control");
    reveal_strlit("Alt");
    reveal_strlit("Option");
    reveal_strlit("Shift");
    reveal_strlit("Cmd/Ctrl");
    reveal_strlit("Space");
    assert("Space"@.len() != "Cmd"@.len());
    assert("Space"@.len() != "Meta"@.len());
    assert("Space"@[1] != "Super"@[1]);
    assert("Space"@.len() != "Win"@.len());
    assert("Space"@.len() != "Ctrl"@.len());
    assert("Space"@.len() != "Control"@.len());
    assert("Space"@.len() != "Alt"@.len());
    assert("Space"@.len() != "Option"@.len());
    assert("Space"@[1] != "Shift"@[1]);
    assert("Space"@.len() != "Cmd/Ctrl"@.len());
}

proof fn lemma_name_tab(key: Key, mods: Seq<Mod>, platform: Platform)
    ensures
        part_effect(key, mods, "Tab"@, platform) == (Key::Tab, mods),
        plain_piece("Tab"@),
{
    reveal_strlit("Cmd");
    reveal_strlit("Meta");
    reveal_strlit("Super");
    reveal_strlit("Win");
    reveal_strlit("Ctrl");
    reveal_strlit("Control");
    reveal_strlit("Alt");
    reveal_strlit("Option");
    reveal_strlit("Shift");
    reveal_strlit("Cmd/Ctrl");
    reveal_strlit("Space");
    reveal_strlit("Tab");
    assert("Tab"@[0] != "Cmd"@[0]);
    assert("Tab"@.len() != "Meta"@.len());
    assert("Tab"@.len() != "Super"@.len());
    assert("Tab"@[0] != "Win"@[0]);
    assert("Tab"@.len() != "Ctrl"@.len());
    assert("Tab"@.len() != "Control"@.len());
    assert("Tab"@[0] != "Alt"@[0]);
    assert("Tab"@.len() != "Option"@.len());
    assert("Tab"@.len() != "Shift"@.len());
    assert("Tab"@.len() != "Cmd/Ctrl"@.len());
    assert("Tab"@.len() != "Space"@.len());
}

proof fn lemma_name_enter(key: Key, mods: Seq<Mod>, platform: Platform)
    ensures
        part_effect(key, mods, "Enter"@, platform) == (Key::Return, mods),
        plain_piece("Enter"@),
{
    reveal_strlit("Cmd");
    reveal_strlit("Meta");
    reveal_strlit("Super");
    reveal_strlit("Win");
    reveal_strlit("Ctrl");
    reveal_strlit("Control");
    reveal_strlit("Alt");
    reveal_strlit("Option");
    reveal_strlit("Shift");
    reveal_strlit("Cmd/Ctrl");
    reveal_strlit("Space");
    reveal_strlit("Tab");
    reveal_strlit("Enter");
    assert("Enter"@.len() != "Cmd"@.len());
    assert("Enter"@.len() != "Meta"@.len());
    assert("Enter"@[0] != "Super"@[0]);
    assert("Enter"@.len() != "Win"@.len());
    assert("Enter"@.len() != "Ctrl"@.len());
    assert("Enter"@.len() != "Control"@.len());
    assert("Enter"@.len() != "Alt"@.len());
    assert("Enter"@.len() != "Option"@.len());
    assert("Enter"@[0] != "Shift"@[0]);
    assert("Enter"@.len() != "Cmd/Ctrl"@.len());
    assert("Enter"@[0] != "Space"@[0]);
    assert("Enter"@.len() != "Tab"@.len());
}

proof fn lemma_name_return(key: Key, mods: Seq<Mod>, platform: Platform)
    ensures
        part_effect(key, mods, "Return"@, platform) == (Key::Return, mods),
        plain_piece("Return"@),
{
    reveal_strlit("Cmd");
    reveal_strlit("Meta");
    reveal_strlit("Super");
    reveal_strlit("Win");
    reveal_strlit("Ctrl");
    reveal_strlit("Control");
    reveal_strlit("Alt");
    reveal_strlit("Option");
    reveal_strlit("Shift");
    reveal_strlit("Cmd/Ctrl");
    reveal_strlit("Space");
    reveal_strlit("Tab");
    reveal_strlit("Enter");
    reveal_strlit("Return");
    assert("Return"@.len() != "Cmd"@.len());
    assert("Return"@.len() != "Meta"@.len());
    assert("Return"@.len() != "Super"@.len());
    assert("Return"@.len() != "Win"@.len());
    assert("Return"@.len() != "Ctrl"@.len());
    assert("Return"@.len() != "Control"@.len());
    assert("Return"@.len() != "Alt"@.len());
    assert("Return"@[0] != "Option"@[0]);
    assert("Return"@.len() != "Shift"@.len());
    assert("Return"@.len() != "Cmd/Ctrl"@.len());
    assert("Return"@.len() != "Space"@.len());
    assert("Return"@.len() != "Tab"@.len());
    assert("Return"@.len() != "Enter"@.len());
}

proof fn lemma_name_escape(key: Key, mods: Seq<Mod>, platform: Platform)
    ensures
        part_effect(key, mods, "Escape"@, platform) == (Key::Escape, mods),
        plain_piece("Escape"@),
{
    reveal_strlit("Cmd");
    reveal_strlit("Meta");
    reveal_strlit("Super");
    reveal_strlit("Win");
    reveal_strlit("Ctrl");
    reveal_strlit("Control");
    reveal_strlit("Alt");
    reveal_strlit("Option");
    reveal_strlit("Shift");
    reveal_strlit("Cmd/Ctrl");
    reveal_strlit("Space");
    reveal_strlit("Tab");
    reveal_strlit("Enter");
    reveal_strlit("Return");
    reveal_strlit("Escape");
    assert("Escape"@.len() != "Cmd"@.len());
    assert("Escape"@.len() != "Meta"@.len());
    assert("Escape"@.len() != "Super"@.len());
    assert("Escape"@.len() != "Win"@.len());
    assert("Escape"@.len() != "Ctrl"@.len());
    assert("Escape"@.len() != "Control"@.len());
    assert("Escape"@.len() != "Alt"@.len());
    assert("Escape"@[0] != "Option"@[0]);
    assert("Escape"@.len() != "Shift"@.len());
    assert("Escape"@.len() != "Cmd/Ctrl"@.len());
    assert("Escape"@.len() != "Space"@.len());
    assert("Escape"@.len() != "Tab"@.len());
    assert("Escape"@.len() != "Enter"@.len());
    assert("Escape"@[0] != "Return"@[0]);
}

proof fn lemma_name_esc(key: Key, mods: Seq<Mod>, platform: Platform)
    ensures
        part_effect(key, mods, "Esc"@, platform) == (Key::Escape, mods),
        plain_piece("Esc"@),
{
    reveal_strlit("Cmd");
    reveal_strlit("Meta");
    reveal_strlit("Super");
    reveal_strlit("Win");
    reveal_strlit("Ctrl");
    reveal_strlit("Control");
    reveal_strlit("Alt");
    reveal_strlit("Option");
    reveal_strlit("Shift");
    reveal_strlit("Cmd/Ctrl");
    reveal_strlit("Space");
    reveal_strlit("Tab");
    reveal_strlit("Enter");
    reveal_strlit("Return");
    reveal_strlit("Escape");
    reveal_strlit("Esc");
    assert("Esc"@[0] != "Cmd"@[0]);
    assert("Esc"@.len() != "Meta"@.len());
    assert("Esc"@.len() != "Super"@.len());
    assert("Esc"@[0] != "Win"@[0]);
    assert("Esc"@.len() != "Ctrl"@.len());
    assert("Esc"@.len() != "Control"@.len());
    assert("Esc"@[0] != "Alt"@[0]);
    assert("Esc"@.len() != "Option"@.len());
    assert("Esc"@.len() != "Shift"@.len());
    assert("Esc"@.len() != "Cmd/Ctrl"@.len());
    assert("Esc"@.len() != "Space"@.len());
    assert("Esc"@[0] != "Tab"@[0]);
    assert("Esc"@.len() != "Enter"@.len());
    assert("Esc"@.len() != "Return"@.len());
    assert("Esc"@.len() != "Escape"@.len());
}

proof fn lemma_name_backspace_upper(key: Key, mods: Seq<Mod>, platform: Platform)
    ensures
        part_effect(key, mods, "BackSpace"@, platform) == (Key::Backspace, mods),
        plain_piece("BackSpace"@),
{
    reveal_strlit("Cmd");
    reveal_strlit("Meta");
    reveal_strlit("Super");
    reveal_strlit("Win");
    reveal_strlit("Ctrl");
    reveal_strlit("Control");
    reveal_strlit("Alt");
    reveal_strlit("Option");
    reveal_strlit("Shift");
    reveal_strlit("Cmd/Ctrl");
    reveal_strlit("Space");
    reveal_strlit("Tab");
    reveal_strlit("Enter");
    reveal_strlit("Return");
    reveal_strlit("Escape");
    reveal_strlit("Esc");
    reveal_strlit("BackSpace");
    assert("BackSpace"@.len() != "Cmd"@.len());
    assert("BackSpace"@.len() != "Meta"@.len());
    assert("BackSpace"@.len() != "Super"@.len());
    assert("BackSpace"@.len() != "Win"@.len());
    assert("BackSpace"@.len() != "Ctrl"@.len());
    assert("BackSpace"@.len() != "Control"@.len());
    assert("BackSpace"@.len() != "Alt"@.len());
    assert("BackSpace"@.len() != "Option"@.len());
    assert("BackSpace"@.len() != "Shift"@.len());
    assert("BackSpace"@.len() != "Cmd/Ctrl"@.len());
    assert("BackSpace"@.len() != "Space"@.len());
    assert("BackSpace"@.len() != "Tab"@.len());
    assert("BackSpace"@.len() != "Enter"@.len());
    assert("BackSpace"@.len() != "Return"@.len());
    assert("BackSpace"@.len() != "Escape"@.len());
    assert("BackSpace"@.len() != "Esc"@.len());
}

proof fn lemma_name_backspace_lower(key: Key, mods: Seq<Mod>, platform: Platform)
    ensures
        part_effect(key, mods, "Backspace"@, platform) == (Key::Backspace, mods),
        plain_piece("Backspace"@),
{
    reveal_strlit("Cmd");
    reveal_strlit("Meta");
    reveal_strlit("Super");
    reveal_strlit("Win");
    reveal_strlit("Ctrl");
    reveal_strlit("Control");
    reveal_strlit("Alt");
    reveal_strlit("Option");
    reveal_strlit("Shift");
    reveal_strlit("Cmd/Ctrl");
    reveal_strlit("Space");
    reveal_strlit("Tab");
    reveal_strlit("Enter");
    reveal_strlit("Return");
    reveal_strlit("Escape");
    reveal_strlit("Esc");
    reveal_strlit("BackSpace");
    reveal_strlit("Backspace");
    assert("Backspace"@.len() != "Cmd"@.len());
    assert("Backspace"@.len() != "Meta"@.len());
    assert("Backspace"@.len() != "Super"@.len());
    assert("Backspace"@.len() != "Win"@.len());
    assert("Backspace"@.len() != "Ctrl"@.len());
    assert("Backspace"@.len() != "Control"@.len());
    assert("Backspace"@.len() != "Alt"@.len());
    assert("Backspace"@.len() != "Option"@.len());
    assert("Backspace"@.len() != "Shift"@.len());
    assert("Backspace"@.len() != "Cmd/Ctrl"@.len());
    assert("Backspace"@.len() != "Space"@.len());
    assert("Backspace"@.len() != "Tab"@.len());
    assert("Backspace"@.len() != "Enter"@.len());
    assert("Backspace"@.len() != "Return"@.len());
    assert("Backspace"@.len() != "Escape"@.len());
    assert("Backspace"@.len() != "Esc"@.len());
    assert("Backspace"@[4] != "BackSpace"@[4]);
}

proof fn lemma_name_delete(key: Key, mods: Seq<Mod>, platform: Platform)
    ensures
        part_effect(key, mods, "Delete"@, platform) == (Key::Delete, mods),
        plain_piece("Delete"@),
{
    reveal_strlit("Cmd");
    reveal_strlit("Meta");
    reveal_strlit("Super");
    reveal_strlit("Win");
    reveal_strlit("Ctrl");
    reveal_strlit("Control");
    reveal_strlit("Alt");
    reveal_strlit("Option");
    reveal_strlit("Shift");
    reveal_strlit("Cmd/Ctrl");
    reveal_strlit("Space");
    reveal_strlit("Tab");
    reveal_strlit("Enter");
    reveal_strlit("Return");
    reveal_strlit("Escape");
    reveal_strlit("Esc");
    reveal_strlit("BackSpace");
    reveal_strlit("Backspace");
    reveal_strlit("Delete");
    assert("Delete"@.len() != "Cmd"@.len());
    assert("Delete"@.len() != "Meta"@.len());
    assert("Delete"@.len() != "Super"@.len());
    assert("Delete"@.len() != "Win"@.len());
    assert("Delete"@.len() != "Ctrl"@.len());
    assert("Delete"@.len() != "Control"@.len());
    assert("Delete"@.len() != "Alt"@.len());
    assert("Delete"@[0] != "Option"@[0]);
    assert("Delete"@.len() != "Shift"@.len());
    assert("Delete"@.len() != "Cmd/Ctrl"@.len());
    assert("Delete"@.len() != "Space"@.len());
    assert("Delete"@.len() != "Tab"@.len());
    assert("Delete"@.len() != "Enter"@.len());
    assert("Delete"@[0] != "Return"@[0]);
    assert("Delete"@[0] != "Escape"@[0]);
    assert("Delete"@.len() != "Esc"@.len());
    assert("Delete"@.len() != "BackSpace"@.len());
    assert("Delete"@.len() != "Backspace"@.len());
}

proof fn lemma_name_home(key: Key, mods: Seq<Mod>, platform: Platform)
    ensures
        part_effect(key, mods, "Home"@, platform) == (Key::Home, mods),
        plain_piece("Home"@),
{
    reveal_strlit("Cmd");
    reveal_strlit("Meta");
    reveal_strlit("Super");
    reveal_strlit("Win");
    reveal_strlit("Ctrl");
    reveal_strlit("Control");
    reveal_strlit("Alt");
    reveal_strlit("Option");
    reveal_strlit("Shift");
    reveal_strlit("Cmd/Ctrl");
    reveal_strlit("Space");
    reveal_strlit("Tab");
    reveal_strlit("Enter");
    reveal_strlit("Return");
    reveal_strlit("Escape");
    reveal_strlit("Esc");
    reveal_strlit("BackSpace");
    reveal_strlit("Backspace");
    reveal_strlit("Delete");
    reveal_strlit("Home");
    assert("Home"@.len() != "Cmd"@.len());
    assert("Home"@[0] != "Meta"@[0]);
    assert("Home"@.len() != "Super"@.len());
    assert("Home"@.len() != "Win"@.len());
    assert("Home"@[0] != "Ctrl"@[0]);
    assert("Home"@.len() != "Control"@.len());
    assert("Home"@.len() != "Alt"@.len());
    assert("Home"@.len() != "Option"@.len());
    assert("Home"@.len() != "Shift"@.len());
    assert("Home"@.len() != "Cmd/Ctrl"@.len());
    assert("Home"@.len() != "Space"@.len());
    assert("Home"@.len() != "Tab"@.len());
    assert("Home"@.len() != "Enter"@.len());
    assert("Home"@.len() != "Return"@.len());
    assert("Home"@.len() != "Escape"@.len());
    assert("Home"@.len() != "Esc"@.len());
    assert("Home"@.len() != "BackSpace"@.len());
    assert("Home"@.len() != "Backspace"@.len());
    assert("Home"@.len() != "Delete"@.len());
}

proof fn lemma_name_end(key: Key, mods: Seq<Mod>, platform: Platform)
    ensures
        part_effect(key, mods, "End"@, platform) == (Key::End, mods),
        plain_piece("End"@),
{
    reveal_strlit("Cmd");
    reveal_strlit("Meta");
    reveal_strlit("Super");
    reveal_strlit("Win");
    reveal_strlit("Ctrl");
    reveal_strlit("Control");
    reveal_strlit("Alt");
    reveal_strlit("Option");
    reveal_strlit("Shift");
    reveal_strlit("Cmd/Ctrl");
    reveal_strlit("Space");
    reveal_strlit("Tab");
    reveal_strlit("Enter");
    reveal_strlit("Return");
    reveal_strlit("Escape");
    reveal_strlit("Esc");
    reveal_strlit("BackSpace");
    reveal_strlit("Backspace");
    reveal_strlit("Delete");
    reveal_strlit("Home");
    reveal_strlit("End");
    assert("End"@[0] != "Cmd"@[0]);
    assert("End"@.len() != "Meta"@.len());
    assert("End"@.len() != "Super"@.len());
    assert("End"@[0] != "Win"@[0]);
    assert("End"@.len() != "Ctrl"@.len());
    assert("End"@.len() != "Control"@.len());
    assert("End"@[0] != "Alt"@[0]);
    assert("End"@.len() != "Option"@.len());
    assert("End"@.len() != "Shift"@.len());
    assert("End"@.len() != "Cmd/Ctrl"@.len());
    assert("End"@.len() != "Space"@.len());
    assert("End"@[0] != "Tab"@[0]);
    assert("End"@.len() != "Enter"@.len());
    assert("End"@.len() != "Return"@.len());
    assert("End"@.len() != "Escape"@.len());
    assert("End"@[1] != "Esc"@[1]);
    assert("End"@.len() != "BackSpace"@.len());
    assert("End"@.len() != "Backspace"@.len());
    assert("End"@.len() != "Delete"@.len());
    assert("End"@.len() != "Home"@.len());
}

proof fn lemma_name_pageup(key: Key, mods: Seq<Mod>, platform: Platform)
    ensures
        part_effect(key, mods, "PageUp"@, platform) == (Key::PageUp, mods),
        plain_piece("PageUp"@),
{
    reveal_strlit("Cmd");
    reveal_strlit("Meta");
    reveal_strlit("Super");
    reveal_strlit("Win");
    reveal_strlit("Ctrl");
    reveal_strlit("Control");
    reveal_strlit("Alt");
    reveal_strlit("Option");
    reveal_strlit("Shift");
    reveal_strlit("Cmd/Ctrl");
    reveal_strlit("Space");
    reveal_strlit("Tab");
    reveal_strlit("Enter");
    reveal_strlit("Return");
    reveal_strlit("Escape");
    reveal_strlit("Esc");
    reveal_strlit("BackSpace");
    reveal_strlit("Backspace");
    reveal_strlit("Delete");
    reveal_strlit("Home");
    reveal_strlit("End");
    reveal_strlit("PageUp");
    assert("PageUp"@.len() != "Cmd"@.len());
    assert("PageUp"@.len() != "Meta"@.len());
    assert("PageUp"@.len() != "Super"@.len());
    assert("PageUp"@.len() != "Win"@.len());
    assert("PageUp"@.len() != "Ctrl"@.len());
    assert("PageUp"@.len() != "Control"@.len());
    assert("PageUp"@.len() != "Alt"@.len());
    assert("PageUp"@[0] != "Option"@[0]);
    assert("PageUp"@.len() != "Shift"@.len());
    assert("PageUp"@.len() != "Cmd/Ctrl"@.len());
    assert("PageUp"@.len() != "Space"@.len());
    assert("PageUp"@.len() != "Tab"@.len());
    assert("PageUp"@.len() != "Enter"@.len());
    assert("PageUp"@[0] != "Return"@[0]);
    assert("PageUp"@[0] != "Escape"@[0]);
    assert("PageUp"@.len() != "Esc"@.len());
    assert("PageUp"@.len() != "BackSpace"@.len());
    assert("PageUp"@.len() != "Backspace"@.len());
    assert("PageUp"@[0] != "Delete"@[0]);
    assert("PageUp"@.len() != "Home"@.len());
    assert("PageUp"@.len() != "End"@.len());
}

proof fn lemma_name_pagedown(key: Key, mods: Seq<Mod>, platform: Platform)
    ensures
        part_effect(key, mods, "PageDown"@, platform) == (Key::PageDown, mods),
        plain_piece("PageDown"@),
{
    reveal_strlit("Cmd");
    reveal_strlit("Meta");
    reveal_strlit("Super");
    reveal_strlit("Win");
    reveal_strlit("Ctrl");
    reveal_strlit("Control");
    reveal_strlit("Alt");
    reveal_strlit("Option");
    reveal_strlit("Shift");
    reveal_strlit("Cmd/Ctrl");
    reveal_strlit("Space");
    reveal_strlit("Tab");
    reveal_strlit("Enter");
    reveal_strlit("Return");
    reveal_strlit("Escape");
    reveal_strlit("Esc");
    reveal_strlit("BackSpace");
    reveal_strlit("Backspace");
    reveal_strlit("Delete");
    reveal_strlit("Home");
    reveal_strlit("End");
    reveal_strlit("PageUp");
    reveal_strlit("PageDown");
    assert("PageDown"@.len() != "Cmd"@.len());
    assert("PageDown"@.len() != "Meta"@.len());
    assert("PageDown"@.len() != "Super"@.len());
    assert("PageDown"@.len() != "Win"@.len());
    assert("PageDown"@.len() != "Ctrl"@.len());
    assert("PageDown"@.len() != "Control"@.len());
    assert("PageDown"@.len() != "Alt"@.len());
    assert("PageDown"@.len() != "Option"@.len());
    assert("PageDown"@.len() != "Shift"@.len());
    assert("PageDown"@[0] != "Cmd/Ctrl"@[0]);
    assert("PageDown"@.len() != "Space"@.len());
    assert("PageDown"@.len() != "Tab"@.len());
    assert("PageDown"@.len() != "Enter"@.len());
    assert("PageDown"@.len() != "Return"@.len());
    assert("PageDown"@.len() != "Escape"@.len());
    assert("PageDown"@.len() != "Esc"@.len());
    assert("PageDown"@.len() != "BackSpace"@.len());
    assert("PageDown"@.len() != "Backspace"@.len());
    assert("PageDown"@.len() != "Delete"@.len());
    assert("PageDown"@.len() != "Home"@.len());
    assert("PageDown"@.len() != "End"@.len());
    assert("PageDown"@.len() != "PageUp"@.len());
}

proof fn lemma_name_up(key: Key, mods: Seq<Mod>, platform: Platform)
    ensures
        part_effect(key, mods, "Up"@, platform) == (Key::UpArrow, mods),
        plain_piece("Up"@),
{
    reveal_strlit("Cmd");
    reveal_strlit("Meta");
    reveal_strlit("Super");
    reveal_strlit("Win");
    reveal_strlit("Ctrl");
    reveal_strlit("Control");
    reveal_strlit("Alt");
    reveal_strlit("Option");
    reveal_strlit("Shift");
    reveal_strlit("Cmd/Ctrl");
    reveal_strlit("Space");
    reveal_strlit("Tab");
    reveal_strlit("Enter");
    reveal_strlit("Return");
    reveal_strlit("Escape");
    reveal_strlit("Esc");
    reveal_strlit("BackSpace");
    reveal_strlit("Backspace");
    reveal_strlit("Delete");
    reveal_strlit("Home");
    reveal_strlit("End");
    reveal_strlit("PageUp");
    reveal_strlit("PageDown");
    reveal_strlit("Up");
    assert("Up"@.len() != "Cmd"@.len());
    assert("Up"@.len() != "Meta"@.len());
    assert("Up"@.len() != "Super"@.len());
    assert("Up"@.len() != "Win"@.len());
    assert("Up"@.len() != "Ctrl"@.len());
    assert("Up"@.len() != "Control"@.len());
    assert("Up"@.len() != "Alt"@.len());
    assert("Up"@.len() != "Option"@.len());
    assert("Up"@.len() != "Shift"@.len());
    assert("Up"@.len() != "Cmd/Ctrl"@.len());
    assert("Up"@.len() != "Space"@.len());
    assert("Up"@.len() != "Tab"@.len());
    assert("Up"@.len() != "Enter"@.len());
    assert("Up"@.len() != "Return"@.len());
    assert("Up"@.len() != "Escape"@.len());
    assert("Up"@.len() != "Esc"@.len());
    assert("Up"@.len() != "BackSpace"@.len());
    assert("Up"@.len() != "Backspace"@.len());
    assert("Up"@.len() != "Delete"@.len());
    assert("Up"@.len() != "Home"@.len());
    assert("Up"@.len() != "End"@.len());
    assert("Up"@.len() != "PageUp"@.len());
    assert("Up"@.len() != "PageDown"@.len());
}

proof fn lemma_name_down(key: Key, mods: Seq<Mod>, platform: Platform)
    ensures
        part_effect(key, mods, "Down"@, platform) == (Key::DownArrow, mods),
        plain_piece("Down"@),
{
    reveal_strlit("Cmd");
    reveal_strlit("Meta");
    reveal_strlit("Super");
    reveal_strlit("Win");
    reveal_strlit("Ctrl");
    reveal_strlit("Control");
    reveal_strlit("Alt");
    reveal_strlit("Option");
    reveal_strlit("Shift");
    reveal_strlit("Cmd/Ctrl");
    reveal_strlit("Space");
    reveal_strlit("Tab");
    reveal_strlit("Enter");
    reveal_strlit("Return");
    reveal_strlit("Escape");
    reveal_strlit("Esc");
    reveal_strlit("BackSpace");
    reveal_strlit("Backspace");
    reveal_strlit("Delete");
    reveal_strlit("Home");
    reveal_strlit("End");
    reveal_strlit("PageUp");
    reveal_strlit("PageDown");
    reveal_strlit("Up");
    reveal_strlit("Down");
    assert("Down"@.len() != "Cmd"@.len());
    assert("Down"@[0] != "Meta"@[0]);
    assert("Down"@.len() != "Super"@.len());
    assert("Down"@.len() != "Win"@.len());
    assert("Down"@[0] != "Ctrl"@[0]);
    assert("Down"@.len() != "Control"@.len());
    assert("Down"@.len() != "Alt"@.len());
    assert("Down"@.len() != "Option"@.len());
    assert("Down"@.len() != "Shift"@.len());
    assert("Down"@.len() != "Cmd/Ctrl"@.len());
    assert("Down"@.len() != "Space"@.len());
    assert("Down"@.len() != "Tab"@.len());
    assert("Down"@.len() != "Enter"@.len());
    assert("Down"@.len() != "Return"@.len());
    assert("Down"@.len() != "Escape"@.len());
    assert("Down"@.len() != "Esc"@.len());
    assert("Down"@.len() != "BackSpace"@.len());
    assert("Down"@.len() != "Backspace"@.len());
    assert("Down"@.len() != "Delete"@.len());
    assert("Down"@[0] != "Home"@[0]);
    assert("Down"@.len() != "End"@.len());
    assert("Down"@.len() != "PageUp"@.len());
    assert("Down"@.len() != "PageDown"@.len());
    assert("Down"@.len() != "Up"@.len());
}

proof fn lemma_name_left(key: Key, mods: Seq<Mod>, platform: Platform)
    ensures
        part_effect(key, mods, "Left"@, platform) == (Key::LeftArrow, mods),
        plain_piece("Left"@),
{
    reveal_strlit("Cmd");
    reveal_strlit("Meta");
    reveal_strlit("Super");
    reveal_strlit("Win");
    reveal_strlit("Ctrl");
    reveal_strlit("Control");
    reveal_strlit("Alt");
    reveal_strlit("Option");
    reveal_strlit("Shift");
    reveal_strlit("Cmd/Ctrl");
    reveal_strlit("Space");
    reveal_strlit("Tab");
    reveal_strlit("Enter");
    reveal_strlit("Return");
    reveal_strlit("Escape");
    reveal_strlit("Esc");
    reveal_strlit("BackSpace");
    reveal_strlit("Backspace");
    reveal_strlit("Delete");
    reveal_strlit("Home");
    reveal_strlit("End");
    reveal_strlit("PageUp");
    reveal_strlit("PageDown");
    reveal_strlit("Up");
    reveal_strlit("Down");
    reveal_strlit("Left");
    assert("Left"@.len() != "Cmd"@.len());
    assert("Left"@[0] != "Meta"@[0]);
    assert("Left"@.len() != "Super"@.len());
    assert("Left"@.len() != "Win"@.len());
    assert("Left"@[0] != "Ctrl"@[0]);
    assert("Left"@.len() != "Control"@.len());
    assert("Left"@.len() != "Alt"@.len());
    assert("Left"@.len() != "Option"@.len());
    assert("Left"@.len() != "Shift"@.len());
    assert("Left"@.len() != "Cmd/Ctrl"@.len());
    assert("Left"@.len() != "Space"@.len());
    assert("Left"@.len() != "Tab"@.len());
    assert("Left"@.len() != "Enter"@.len());
    assert("Left"@.len() != "Return"@.len());
    assert("Left"@.len() != "Escape"@.len());
    assert("Left"@.len() != "Esc"@.len());
    assert("Left"@.len() != "BackSpace"@.len());
    assert("Left"@.len() != "Backspace"@.len());
    assert("Left"@.len() != "Delete"@.len());
    assert("Left"@[0] != "Home"@[0]);
    assert("Left"@.len() != "End"@.len());
    assert("Left"@.len() != "PageUp"@.len());
    assert("Left"@.len() != "PageDown"@.len());
    assert("Left"@.len() != "Up"@.len());
    assert("Left"@[0] != "Down"@[0]);
}

proof fn lemma_name_right(key: Key, mods: Seq<Mod>, platform: Platform)
    ensures
        part_effect(key, mods, "Right"@, platform) == (Key::RightArrow, mods),
        plain_piece("Right"@),
{
    reveal_strlit("Cmd");
    reveal_strlit("Meta");
    reveal_strlit("Super");
    reveal_strlit("Win");
    reveal_strlit("Ctrl");
    reveal_strlit("Control");
    reveal_strlit("Alt");
    reveal_strlit("Option");
    reveal_strlit("Shift");
    reveal_strlit("Cmd/Ctrl");
    reveal_strlit("Space");
    reveal_strlit("Tab");
    reveal_strlit("Enter");
    reveal_strlit("Return");
    reveal_strlit("Escape");
    reveal_strlit("Esc");
    reveal_strlit("BackSpace");
    reveal_strlit("Backspace");
    reveal_strlit("Delete");
    reveal_strlit("Home");
    reveal_strlit("End");
    reveal_strlit("PageUp");
    reveal_strlit("PageDown");
    reveal_strlit("Up");
    reveal_strlit("Down");
    reveal_strlit("Left");
    reveal_strlit("Right");
    assert("Right"@.len() != "Cmd"@.len());
    assert("Right"@.len() != "Meta"@.len());
    assert("Right"@[0] != "Super"@[0]);
    assert("Right"@.len() != "Win"@.len());
    assert("Right"@.len() != "Ctrl"@.len());
    assert("Right"@.len() != "Control"@.len());
    assert("Right"@.len() != "Alt"@.len());
    assert("Right"@.len() != "Option"@.len());
    assert("Right"@[0] != "Shift"@[0]);
    assert("Right"@.len() != "Cmd/Ctrl"@.len());
    assert("Right"@[0] != "Space"@[0]);
    assert("Right"@.len() != "Tab"@.len());
    assert("Right"@[0] != "Enter"@[0]);
    assert("Right"@.len() != "Return"@.len());
    assert("Right"@.len() != "Escape"@.len());
    assert("Right"@.len() != "Esc"@.len());
    assert("Right"@.len() != "BackSpace"@.len());
    assert("Right"@.len() != "Backspace"@.len());
    assert("Right"@.len() != "Delete"@.len());
    assert("Right"@.len() != "Home"@.len());
    assert("Right"@.len() != "End"@.len());
    assert("Right"@.len() != "PageUp"@.len());
    assert("Right"@.len() != "PageDown"@.len());
    assert("Right"@.len() != "Up"@.len());
    assert("Right"@.len() != "Down"@.len());
    assert("Right"@.len() != "Left"@.len());
}

proof fn lemma_name_effect(key: Key, mods: Seq<Mod>, platform: Platform)
    ensures
        part_effect(key, mods, "Space"@, platform) == (Key::Space, mods),
        part_effect(key, mods, "Tab"@, platform) == (Key::Tab, mods),
        part_effect(key, mods, "Enter"@, platform) == (Key::Return, mods),
        part_effect(key, mods, "Return"@, platform) == (Key::Return, mods),
        part_effect(key, mods, "Escape"@, platform) == (Key::Escape, mods),
        part_effect(key, mods, "Esc"@, platform) == (Key::Escape, mods),
        part_effect(key, mods, "BackSpace"@, platform) == (Key::Backspace, mods),
        part_effect(key, mods, "Backspace"@, platform) == (Key::Backspace, mods),
        part_effect(key, mods, "Delete"@, platform) == (Key::Delete, mods),
        part_effect(key, mods, "Home"@, platform) == (Key::Home, mods),
        part_effect(key, mods, "End"@, platform) == (Key::End, mods),
        part_effect(key, mods, "PageUp"@, platform) == (Key::PageUp, mods),
        part_effect(key, mods, "PageDown"@, platform) == (Key::PageDown, mods),
        part_effect(key, mods, "Up"@, platform) == (Key::UpArrow, mods),
        part_effect(key, mods, "Down"@, platform) == (Key::DownArrow, mods),
        part_effect(key, mods, "Left"@, platform) == (Key::LeftArrow, mods),
        part_effect(key, mods, "Right"@, platform) == (Key::RightArrow, mods),
        plain_piece("Space"@),
        plain_piece("Tab"@),
        plain_piece("Enter"@),
        plain_piece("Return"@),
        plain_piece("Escape"@),
        plain_piece("Esc"@),
        plain_piece("BackSpace"@),
        plain_piece("Backspace"@),
        plain_piece("Delete"@),
        plain_piece("Home"@),
        plain_piece("End"@),
        plain_piece("PageUp"@),
        plain_piece("PageDown"@),
        plain_piece("Up"@),
        plain_piece("Down"@),
        plain_piece("Left"@),
        plain_piece("Right"@),
{
    lemma_name_space(key, mods, platform);
    lemma_name_tab(key, mods, platform);
    lemma_name_enter(key, mods, platform);
    lemma_name_return(key, mods, platform);
    lemma_name_escape(key, mods, platform);
    lemma_name_esc(key, mods, platform);
    lemma_name_backspace_upper(key, mods, platform);
    lemma_name_backspace_lower(key, mods, platform);
    lemma_name_delete(key, mods, platform);
    lemma_name_home(key, mods, platform);
    lemma_name_end(key, mods, platform);
    lemma_name_pageup(key, mods, platform);
    lemma_name_pagedown(key, mods, platform);
    lemma_name_up(key, mods, platform);
    lemma_name_down(key, mods, platform);
    lemma_name_left(key, mods, platform);
    lemma_name_right(key, mods, platform);
}

/// Each name of a key, as the last piece of a hotkey text or alone, sets that key:
/// the modifiers named before it stay as they were.
pub proof fn lemma_named_keys(a: Seq<char>, platform: Platform)
    ensures
        spec_parse_hotkey(a + seq!['+'] + "Space"@, platform) == (Key::Space, spec_parse_hotkey(a, platform).1),
        spec_parse_hotkey("Space"@, platform) == (Key::Space, Seq::<Mod>::empty()),
        spec_parse_hotkey(a + seq!['+'] + "Tab"@, platform) == (Key::Tab, spec_parse_hotkey(a, platform).1),
        spec_parse_hotkey("Tab"@, platform) == (Key::Tab, Seq::<Mod>::empty()),
        spec_parse_hotkey(a + seq!['+'] + "Enter"@, platform) == (Key::Return, spec_parse_hotkey(a, platform).1),
        spec_parse_hotkey("Enter"@, platform) == (Key::Return, Seq::<Mod>::empty()),
        spec_parse_hotkey(a + seq!['+'] + "Return"@, platform) == (Key::Return, spec_parse_hotkey(a, platform).1),
        spec_parse_hotkey("Return"@, platform) == (Key::Return, Seq::<Mod>::empty()),
        spec_parse_hotkey(a + seq!['+'] + "Escape"@, platform) == (Key::Escape, spec_parse_hotkey(a, platform).1),
        spec_parse_hotkey("Escape"@, platform) == (Key::Escape, Seq::<Mod>::empty()),
        spec_parse_hotkey(a + seq!['+'] + "Esc"@, platform) == (Key::Escape, spec_parse_hotkey(a, platform).1),
        spec_parse_hotkey("Esc"@, platform) == (Key::Escape, Seq::<Mod>::empty()),
        spec_parse_hotkey(a + seq!['+'] + "BackSpace"@, platform) == (Key::Backspace, spec_parse_hotkey(a, platform).1),
        spec_parse_hotkey("BackSpace"@, platform) == (Key::Backspace, Seq::<Mod>::empty()),
        spec_parse_hotkey(a + seq!['+'] + "Backspace"@, platform) == (Key::Backspace, spec_parse_hotkey(a, platform).1),
        spec_parse_hotkey("Backspace"@, platform) == (Key::Backspace, Seq::<Mod>::empty()),
        spec_parse_hotkey(a + seq!['+'] + "Delete"@, platform) == (Key::Delete, spec_parse_hotkey(a, platform).1),
        spec_parse_hotkey("Delete"@, platform) == (Key::Delete, Seq::<Mod>::empty()),
        spec_parse_hotkey(a + seq!['+'] + "Home"@, platform) == (Key::Home, spec_parse_hotkey(a, platform).1),
        spec_parse_hotkey("Home"@, platform) == (Key::Home, Seq::<Mod>::empty()),
        spec_parse_hotkey(a + seq!['+'] + "End"@, platform) == (Key::End, spec_parse_hotkey(a, platform).1),
        spec_parse_hotkey("End"@, platform) == (Key::End, Seq::<Mod>::empty()),
        spec_parse_hotkey(a + seq!['+'] + "PageUp"@, platform) == (Key::PageUp, spec_parse_hotkey(a, platform).1),
        spec_parse_hotkey("PageUp"@, platform) == (Key::PageUp, Seq::<Mod>::empty()),
        spec_parse_hotkey(a + seq!['+'] + "PageDown"@, platform) == (Key::PageDown, spec_parse_hotkey(a, platform).1),
        spec_parse_hotkey("PageDown"@, platform) == (Key::PageDown, Seq::<Mod>::empty()),
        spec_parse_hotkey(a + seq!['+'] + "Up"@, platform) == (Key::UpArrow, spec_parse_hotkey(a, platform).1),
        spec_parse_hotkey("Up"@, platform) == (Key::UpArrow, Seq::<Mod>::empty()),
        spec_parse_hotkey(a + seq!['+'] + "Down"@, platform) == (Key::DownArrow, spec_parse_hotkey(a, platform).1),
        spec_parse_hotkey("Down"@, platform) == (Key::DownArrow, Seq::<Mod>::empty()),
        spec_parse_hotkey(a + seq!['+'] + "Left"@, platform) == (Key::LeftArrow, spec_parse_hotkey(a, platform).1),
        spec_parse_hotkey("Left"@, platform) == (Key::LeftArrow, Seq::<Mod>::empty()),
        spec_parse_hotkey(a + seq!['+'] + "Right"@, platform) == (Key::RightArrow, spec_parse_hotkey(a, platform).1),
        spec_parse_hotkey("Right"@, platform) == (Key::RightArrow, Seq::<Mod>::empty()),
{
    lemma_name_effect(spec_parse_hotkey(a, platform).0, spec_parse_hotkey(a, platform).1, platform);
    lemma_name_effect(Key::Alt, Seq::<Mod>::empty(), platform);
    lemma_plain_piece(a, "Space"@, platform);
    lemma_plain_piece(a, "Tab"@, platform);
    lemma_plain_piece(a, "Enter"@, platform);
    lemma_plain_piece(a, "Return"@, platform);
    lemma_plain_piece(a, "Escape"@, platform);
    lemma_plain_piece(a, "Esc"@, platform);
    lemma_plain_piece(a, "BackSpace"@, platform);
    lemma_plain_piece(a, "Backspace"@, platform);
    lemma_plain_piece(a, "Delete"@, platform);
    lemma_plain_piece(a, "Home"@, platform);
    lemma_plain_piece(a, "End"@, platform);
    lemma_plain_piece(a, "PageUp"@, platform);
    lemma_plain_piece(a, "PageDown"@, platform);
    lemma_plain_piece(a, "Up"@, platform);
    lemma_plain_piece(a, "Down"@, platform);
    lemma_plain_piece(a, "Left"@, platform);
    lemma_plain_piece(a, "Right"@, platform);
}

proof fn lemma_mod_name_cmd(key: Key, mods: Seq<Mod>, platform: Platform)
    ensures
        part_effect(key, mods, "Cmd"@, platform) == (key, mods.push(Mod::Cmd)),
        plain_piece("Cmd"@),
{
    reveal_strlit("Cmd");
}

proof fn lemma_mod_name_meta(key: Key, mods: Seq<Mod>, platform: Platform)
    ensures
        part_effect(key, mods, "Meta"@, platform) == (key, mods.push(Mod::Cmd)),
        plain_piece("Meta"@),
{
    reveal_strlit("Cmd");
    reveal_strlit("Meta");
    assert("Meta"@.len() != "Cmd"@.len());
}

proof fn lemma_mod_name_super(key: Key, mods: Seq<Mod>, platform: Platform)
    ensures
        part_effect(key, mods, "Super"@, platform) == (key, mods.push(Mod::Cmd)),
        plain_piece("Super"@),
{
    reveal_strlit("Cmd");
    reveal_strlit("Meta");
    reveal_strlit("Super");
    assert("Super"@.len() != "Cmd"@.len());
    assert("Super"@.len() != "Meta"@.len());
}

proof fn lemma_mod_name_win(key: Key, mods: Seq<Mod>, platform: Platform)
    ensures
        part_effect(key, mods, "Win"@, platform) == (key, mods.push(Mod::Cmd)),
        plain_piece("Win"@),
{
    reveal_strlit("Cmd");
    reveal_strlit("Meta");
    reveal_strlit("Super");
    reveal_strlit("Win");
    assert("Win"@[0] != "Cmd"@[0]);
    assert("Win"@.len() != "Meta"@.len());
    assert("Win"@.len() != "Super"@.len());
}

proof fn lemma_mod_name_ctrl(key: Key, mods: Seq<Mod>, platform: Platform)
    ensures
        part_effect(key, mods, "Ctrl"@, platform) == (key, mods.push(Mod::Ctrl)),
        plain_piece("Ctrl"@),
{
    reveal_strlit("Cmd");
    reveal_strlit("Meta");
    reveal_strlit("Super");
    reveal_strlit("Win");
    reveal_strlit("Ctrl");
    assert("Ctrl"@.len() != "Cmd"@.len());
    assert("Ctrl"@[0] != "Meta"@[0]);
    assert("Ctrl"@.len() != "Super"@.len());
    assert("Ctrl"@.len() != "Win"@.len());
}

proof fn lemma_mod_name_control(key: Key, mods: Seq<Mod>, platform: Platform)
    ensures
        part_effect(key, mods, "Control"@, platform) == (key, mods.push(Mod::Ctrl)),
        plain_piece("Control"@),
{
    reveal_strlit("Cmd");
    reveal_strlit("Meta");
    reveal_strlit("Super");
    reveal_strlit("Win");
    reveal_strlit("Ctrl");
    reveal_strlit("Control");
    assert("Control"@.len() != "Cmd"@.len());
    assert("Control"@.len() != "Meta"@.len());
    assert("Control"@.len() != "Super"@.len());
    assert("Control"@.len() != "Win"@.len());
    assert("Control"@.len() != "Ctrl"@.len());
}

proof fn lemma_mod_name_alt(key: Key, mods: Seq<Mod>, platform: Platform)
    ensures
        part_effect(key, mods, "Alt"@, platform) == (key, mods.push(Mod::Alt)),
        plain_piece("Alt"@),
{
    reveal_strlit("Cmd");
    reveal_strlit("Meta");
    reveal_strlit("Super");
    reveal_strlit("Win");
    reveal_strlit("Ctrl");
    reveal_strlit("Control");
    reveal_strlit("Alt");
    assert("Alt"@[0] != "Cmd"@[0]);
    assert("Alt"@.len() != "Meta"@.len());
    assert("Alt"@.len() != "Super"@.len());
    assert("Alt"@[0] != "Win"@[0]);
    assert("Alt"@.len() != "Ctrl"@.len());
    assert("Alt"@.len() != "Control"@.len());
}

proof fn lemma_mod_name_option(key: Key, mods: Seq<Mod>, platform: Platform)
    ensures
        part_effect(key, mods, "Option"@, platform) == (key, mods.push(Mod::Alt)),
        plain_piece("Option"@),
{
    reveal_strlit("Cmd");
    reveal_strlit("Meta");
    reveal_strlit("Super");
    reveal_strlit("Win");
    reveal_strlit("Ctrl");
    reveal_strlit("Control");
    reveal_strlit("Alt");
    reveal_strlit("Option");
    assert("Option"@.len() != "Cmd"@.len());
    assert("Option"@.len() != "Meta"@.len());
    assert("Option"@.len() != "Super"@.len());
    assert("Option"@.len() != "Win"@.len());
    assert("Option"@.len() != "Ctrl"@.len());
    assert("Option"@.len() != "Control"@.len());
    assert("Option"@.len() != "Alt"@.len());
}

proof fn lemma_mod_name_shift(key: Key, mods: Seq<Mod>, platform: Platform)
    ensures
        part_effect(key, mods, "Shift"@, platform) == (key, mods.push(Mod::Shift)),
        plain_piece("Shift"@),
{
    reveal_strlit("Cmd");
    reveal_strlit("Meta");
    reveal_strlit("Super");
    reveal_strlit("Win");
    reveal_strlit("Ctrl");
    reveal_strlit("Control");
    reveal_strlit("Alt");
    reveal_strlit("Option");
    reveal_strlit("Shift");
    assert("Shift"@.len() != "Cmd"@.len());
    assert("Shift"@.len() != "Meta"@.len());
    assert("Shift"@[1] != "Super"@[1]);
    assert("Shift"@.len() != "Win"@.len());
    assert("Shift"@.len() != "Ctrl"@.len());
    assert("Shift"@.len() != "Control"@.len());
    assert("Shift"@.len() != "Alt"@.len());
    assert("Shift"@.len() != "Option"@.len());
}

proof fn lemma_mod_name_cmd_ctrl(key: Key, mods: Seq<Mod>, platform: Platform)
    ensures
        part_effect(key, mods, "Cmd/Ctrl"@, platform) == (key, mods.push((if platform == Platform::MacOs { Mod::Cmd } else { Mod::Ctrl }))),
        plain_piece("Cmd/Ctrl"@),
{
    reveal_strlit("Cmd");
    reveal_strlit("Meta");
    reveal_strlit("Super");
    reveal_strlit("Win");
    reveal_strlit("Ctrl");
    reveal_strlit("Control");
    reveal_strlit("Alt");
    reveal_strlit("Option");
    reveal_strlit("Shift");
    reveal_strlit("Cmd/Ctrl");
    assert("Cmd/Ctrl"@.len() != "Cmd"@.len());
    assert("Cmd/Ctrl"@.len() != "Meta"@.len());
    assert("Cmd/Ctrl"@.len() != "Super"@.len());
    assert("Cmd/Ctrl"@.len() != "Win"@.len());
    assert("Cmd/Ctrl"@.len() != "Ctrl"@.len());
    assert("Cmd/Ctrl"@.len() != "Control"@.len());
    assert("Cmd/Ctrl"@.len() != "Alt"@.len());
    assert("Cmd/Ctrl"@.len() != "Option"@.len());
    assert("Cmd/Ctrl"@.len() != "Shift"@.len());
}

/// Each name of a modifier, as the last piece of a hotkey text or alone, adds that
/// modifier and leaves the key as it was; "Cmd/Ctrl" is Cmd on macOS and Ctrl
/// elsewhere.
pub proof fn lemma_named_modifiers(a: Seq<char>, platform: Platform)
    ensures
        spec_parse_hotkey(a + seq!['+'] + "Cmd"@, platform)
            == (spec_parse_hotkey(a, platform).0, spec_parse_hotkey(a, platform).1.push(Mod::Cmd)),
        spec_parse_hotkey("Cmd"@, platform) == (Key::Alt, seq![Mod::Cmd]),
        spec_parse_hotkey(a + seq!['+'] + "Meta"@, platform)
            == (spec_parse_hotkey(a, platform).0, spec_parse_hotkey(a, platform).1.push(Mod::Cmd)),
        spec_parse_hotkey("Meta"@, platform) == (Key::Alt, seq![Mod::Cmd]),
        spec_parse_hotkey(a + seq!['+'] + "Super"@, platform)
            == (spec_parse_hotkey(a, platform).0, spec_parse_hotkey(a, platform).1.push(Mod::Cmd)),
        spec_parse_hotkey("Super"@, platform) == (Key::Alt, seq![Mod::Cmd]),
        spec_parse_hotkey(a + seq!['+'] + "Win"@, platform)
            == (spec_parse_hotkey(a, platform).0, spec_parse_hotkey(a, platform).1.push(Mod::Cmd)),
        spec_parse_hotkey("Win"@, platform) == (Key::Alt, seq![Mod::Cmd]),
        spec_parse_hotkey(a + seq!['+'] + "Ctrl"@, platform)
            == (spec_parse_hotkey(a, platform).0, spec_parse_hotkey(a, platform).1.push(Mod::Ctrl)),
        spec_parse_hotkey("Ctrl"@, platform) == (Key::Alt, seq![Mod::Ctrl]),
        spec_parse_hotkey(a + seq!['+'] + "Control"@, platform)
            == (spec_parse_hotkey(a, platform).0, spec_parse_hotkey(a, platform).1.push(Mod::Ctrl)),
        spec_parse_hotkey("Control"@, platform) == (Key::Alt, seq![Mod::Ctrl]),
        spec_parse_hotkey(a + seq!['+'] + "Alt"@, platform)
            == (spec_parse_hotkey(a, platform).0, spec_parse_hotkey(a, platform).1.push(Mod::Alt)),
        spec_parse_hotkey("Alt"@, platform) == (Key::Alt, seq![Mod::Alt]),
        spec_parse_hotkey(a + seq!['+'] + "Option"@, platform)
            == (spec_parse_hotkey(a, platform).0, spec_parse_hotkey(a, platform).1.push(Mod::Alt)),
        spec_parse_hotkey("Option"@, platform) == (Key::Alt, seq![Mod::Alt]),
        spec_parse_hotkey(a + seq!['+'] + "Shift"@, platform)
            == (spec_parse_hotkey(a, platform).0, spec_parse_hotkey(a, platform).1.push(Mod::Shift)),
        spec_parse_hotkey("Shift"@, platform) == (Key::Alt, seq![Mod::Shift]),
        spec_parse_hotkey(a + seq!['+'] + "Cmd/Ctrl"@, platform)
            == (spec_parse_hotkey(a, platform).0, spec_parse_hotkey(a, platform).1.push((if platform == Platform::MacOs { Mod::Cmd } else { Mod::Ctrl }))),
        spec_parse_hotkey("Cmd/Ctrl"@, platform) == (Key::Alt, seq![(if platform == Platform::MacOs { Mod::Cmd } else { Mod::Ctrl })]),
{
    lemma_mod_name_cmd(spec_parse_hotkey(a, platform).0, spec_parse_hotkey(a, platform).1, platform);
    lemma_mod_name_cmd(Key::Alt, Seq::<Mod>::empty(), platform);
    lemma_plain_piece(a, "Cmd"@, platform);
    lemma_mod_name_meta(spec_parse_hotkey(a, platform).0, spec_parse_hotkey(a, platform).1, platform);
    lemma_mod_name_meta(Key::Alt, Seq::<Mod>::empty(), platform);
    lemma_plain_piece(a, "Meta"@, platform);
    lemma_mod_name_super(spec_parse_hotkey(a, platform).0, spec_parse_hotkey(a, platform).1, platform);
    lemma_mod_name_super(Key::Alt, Seq::<Mod>::empty(), platform);
    lemma_plain_piece(a, "Super"@, platform);
    lemma_mod_name_win(spec_parse_hotkey(a, platform).0, spec_parse_hotkey(a, platform).1, platform);
    lemma_mod_name_win(Key::Alt, Seq::<Mod>::empty(), platform);
    lemma_plain_piece(a, "Win"@, platform);
    lemma_mod_name_ctrl(spec_parse_hotkey(a, platform).0, spec_parse_hotkey(a, platform).1, platform);
    lemma_mod_name_ctrl(Key::Alt, Seq::<Mod>::empty(), platform);
    lemma_plain_piece(a, "Ctrl"@, platform);
    lemma_mod_name_control(spec_parse_hotkey(a, platform).0, spec_parse_hotkey(a, platform).1, platform);
    lemma_mod_name_control(Key::Alt, Seq::<Mod>::empty(), platform);
    lemma_plain_piece(a, "Control"@, platform);
    lemma_mod_name_alt(spec_parse_hotkey(a, platform).0, spec_parse_hotkey(a, platform).1, platform);
    lemma_mod_name_alt(Key::Alt, Seq::<Mod>::empty(), platform);
    lemma_plain_piece(a, "Alt"@, platform);
    lemma_mod_name_option(spec_parse_hotkey(a, platform).0, spec_parse_hotkey(a, platform).1, platform);
    lemma_mod_name_option(Key::Alt, Seq::<Mod>::empty(), platform);
    lemma_plain_piece(a, "Option"@, platform);
    lemma_mod_name_shift(spec_parse_hotkey(a, platform).0, spec_parse_hotkey(a, platform).1, platform);
    lemma_mod_name_shift(Key::Alt, Seq::<Mod>::empty(), platform);
    lemma_plain_piece(a, "Shift"@, platform);
    lemma_mod_name_cmd_ctrl(spec_parse_hotkey(a, platform).0, spec_parse_hotkey(a, platform).1, platform);
    lemma_mod_name_cmd_ctrl(Key::Alt, Seq::<Mod>::empty(), platform);
    lemma_plain_piece(a, "Cmd/Ctrl"@, platform);
    assert(Seq::<Mod>::empty().push(Mod::Cmd) == seq![Mod::Cmd]);
    assert(Seq::<Mod>::empty().push(Mod::Ctrl) == seq![Mod::Ctrl]);
    assert(Seq::<Mod>::empty().push(Mod::Alt) == seq![Mod::Alt]);
    assert(Seq::<Mod>::empty().push(Mod::Shift) == seq![Mod::Shift]);
}

proof fn lemma_one_char_piece(key: Key, mods: Seq<Mod>, c: char, platform: Platform)
    requires
        (c as u32) < 0x80,
    ensures
        part_effect(key, mods, seq![c], platform) == (key_for_char(ascii_lower(c)), mods),
{
    reveal_strlit("Cmd");
    reveal_strlit("Meta");
    reveal_strlit("Super");
    reveal_strlit("Win");
    reveal_strlit("Ctrl");
    reveal_strlit("Control");
    reveal_strlit("Alt");
    reveal_strlit("Option");
    reveal_strlit("Shift");
    reveal_strlit("Cmd/Ctrl");
    reveal_strlit("Space");
    reveal_strlit("Tab");
    reveal_strlit("Enter");
    reveal_strlit("Return");
    reveal_strlit("Escape");
    reveal_strlit("Esc");
    reveal_strlit("BackSpace");
    reveal_strlit("Backspace");
    reveal_strlit("Delete");
    reveal_strlit("Home");
    reveal_strlit("End");
    reveal_strlit("PageUp");
    reveal_strlit("PageDown");
    reveal_strlit("Up");
    reveal_strlit("Down");
    reveal_strlit("Left");
    reveal_strlit("Right");
    assert("Cmd"@.len() >= 2);
    assert("Meta"@.len() >= 2);
    assert("Super"@.len() >= 2);
    assert("Win"@.len() >= 2);
    assert("Ctrl"@.len() >= 2);
    assert("Control"@.len() >= 2);
    assert("Alt"@.len() >= 2);
    assert("Option"@.len() >= 2);
    assert("Shift"@.len() >= 2);
    assert("Cmd/Ctrl"@.len() >= 2);
    assert("Space"@.len() >= 2);
    assert("Tab"@.len() >= 2);
    assert("Enter"@.len() >= 2);
    assert("Return"@.len() >= 2);
    assert("Escape"@.len() >= 2);
    assert("Esc"@.len() >= 2);
    assert("BackSpace"@.len() >= 2);
    assert("Backspace"@.len() >= 2);
    assert("Delete"@.len() >= 2);
    assert("Home"@.len() >= 2);
    assert("End"@.len() >= 2);
    assert("PageUp"@.len() >= 2);
    assert("PageDown"@.len() >= 2);
    assert("Up"@.len() >= 2);
    assert("Down"@.len() >= 2);
    assert("Left"@.len() >= 2);
    assert("Right"@.len() >= 2);
    assert(one_byte(seq![c]));
}

proof fn lemma_function_piece(key: Key, mods: Seq<Mod>, p: Seq<char>, platform: Platform)
    requires
        p.len() >= 2,
        p[0] == 'F',
    ensures
        part_effect(key, mods, p, platform) == (match parse_u8_seq(p.drop_first()) {
            Some(n) => (function_key(n), mods),
            None => (key, mods),
        }),
{
    reveal_strlit("Cmd");
    reveal_strlit("Meta");
    reveal_strlit("Super");
    reveal_strlit("Win");
    reveal_strlit("Ctrl");
    reveal_strlit("Control");
    reveal_strlit("Alt");
    reveal_strlit("Option");
    reveal_strlit("Shift");
    reveal_strlit("Cmd/Ctrl");
    reveal_strlit("Space");
    reveal_strlit("Tab");
    reveal_strlit("Enter");
    reveal_strlit("Return");
    reveal_strlit("Escape");
    reveal_strlit("Esc");
    reveal_strlit("BackSpace");
    reveal_strlit("Backspace");
    reveal_strlit("Delete");
    reveal_strlit("Home");
    reveal_strlit("End");
    reveal_strlit("PageUp");
    reveal_strlit("PageDown");
    reveal_strlit("Up");
    reveal_strlit("Down");
    reveal_strlit("Left");
    reveal_strlit("Right");
    assert("Cmd"@[0] != 'F');
    assert("Meta"@[0] != 'F');
    assert("Super"@[0] != 'F');
    assert("Win"@[0] != 'F');
    assert("Ctrl"@[0] != 'F');
    assert("Control"@[0] != 'F');
    assert("Alt"@[0] != 'F');
    assert("Option"@[0] != 'F');
    assert("Shift"@[0] != 'F');
    assert("Cmd/Ctrl"@[0] != 'F');
    assert("Space"@[0] != 'F');
    assert("Tab"@[0] != 'F');
    assert("Enter"@[0] != 'F');
    assert("Return"@[0] != 'F');
    assert("Escape"@[0] != 'F');
    assert("Esc"@[0] != 'F');
    assert("BackSpace"@[0] != 'F');
    assert("Backspace"@[0] != 'F');
    assert("Delete"@[0] != 'F');
    assert("Home"@[0] != 'F');
    assert("End"@[0] != 'F');
    assert("PageUp"@[0] != 'F');
    assert("PageDown"@[0] != 'F');
    assert("Up"@[0] != 'F');
    assert("Down"@[0] != 'F');
    assert("Left"@[0] != 'F');
    assert("Right"@[0] != 'F');
}

proof fn lemma_char_key_lower_a(a: Seq<char>, platform: Platform)
    ensures
        spec_parse_hotkey(a + seq!['+'] + seq!['a'], platform) == (Key::KeyA, spec_parse_hotkey(a, platform).1),
        spec_parse_hotkey(seq!['a'], platform) == (Key::KeyA, Seq::<Mod>::empty()),
{
    lemma_one_char_piece(spec_parse_hotkey(a, platform).0, spec_parse_hotkey(a, platform).1, 'a', platform);
    lemma_one_char_piece(Key::Alt, Seq::<Mod>::empty(), 'a', platform);
    lemma_plain_piece(a, seq!['a'], platform);
}

proof fn lemma_char_key_lower_b(a: Seq<char>, platform: Platform)
    ensures
        spec_parse_hotkey(a + seq!['+'] + seq!['b'], platform) == (Key::KeyB, spec_parse_hotkey(a, platform).1),
        spec_parse_hotkey(seq!['b'], platform) == (Key::KeyB, Seq::<Mod>::empty()),
{
    lemma_one_char_piece(spec_parse_hotkey(a, platform).0, spec_parse_hotkey(a, platform).1, 'b', platform);
    lemma_one_char_piece(Key::Alt, Seq::<Mod>::empty(), 'b', platform);
    lemma_plain_piece(a, seq!['b'], platform);
}

proof fn lemma_char_key_lower_c(a: Seq<char>, platform: Platform)
    ensures
        spec_parse_hotkey(a + seq!['+'] + seq!['c'], platform) == (Key::KeyC, spec_parse_hotkey(a, platform).1),
        spec_parse_hotkey(seq!['c'], platform) == (Key::KeyC, Seq::<Mod>::empty()),
{
    lemma_one_char_piece(spec_parse_hotkey(a, platform).0, spec_parse_hotkey(a, platform).1, 'c', platform);
    lemma_one_char_piece(Key::Alt, Seq::<Mod>::empty(), 'c', platform);
    lemma_plain_piece(a, seq!['c'], platform);
}

proof fn lemma_char_key_lower_d(a: Seq<char>, platform: Platform)
    ensures
        spec_parse_hotkey(a + seq!['+'] + seq!['d'], platform) == (Key::KeyD, spec_parse_hotkey(a, platform).1),
        spec_parse_hotkey(seq!['d'], platform) == (Key::KeyD, Seq::<Mod>::empty()),
{
    lemma_one_char_piece(spec_parse_hotkey(a, platform).0, spec_parse_hotkey(a, platform).1, 'd', platform);
    lemma_one_char_piece(Key::Alt, Seq::<Mod>::empty(), 'd', platform);
    lemma_plain_piece(a, seq!['d'], platform);
}

proof fn lemma_char_key_lower_e(a: Seq<char>, platform: Platform)
    ensures
        spec_parse_hotkey(a + seq!['+'] + seq!['e'], platform) == (Key::KeyE, spec_parse_hotkey(a, platform).1),
        spec_parse_hotkey(seq!['e'], platform) == (Key::KeyE, Seq::<Mod>::empty()),
{
    lemma_one_char_piece(spec_parse_hotkey(a, platform).0, spec_parse_hotkey(a, platform).1, 'e', platform);
    lemma_one_char_piece(Key::Alt, Seq::<Mod>::empty(), 'e', platform);
    lemma_plain_piece(a, seq!['e'], platform);
}

proof fn lemma_char_key_lower_f(a: Seq<char>, platform: Platform)
    ensures
        spec_parse_hotkey(a + seq!['+'] + seq!['f'], platform) == (Key::KeyF, spec_parse_hotkey(a, platform).1),
        spec_parse_hotkey(seq!['f'], platform) == (Key::KeyF, Seq::<Mod>::empty()),
{
    lemma_one_char_piece(spec_parse_hotkey(a, platform).0, spec_parse_hotkey(a, platform).1, 'f', platform);
    lemma_one_char_piece(Key::Alt, Seq::<Mod>::empty(), 'f', platform);
    lemma_plain_piece(a, seq!['f'], platform);
}

proof fn lemma_char_key_lower_g(a: Seq<char>, platform: Platform)
    ensures
        spec_parse_hotkey(a + seq!['+'] + seq!['g'], platform) == (Key::KeyG, spec_parse_hotkey(a, platform).1),
        spec_parse_hotkey(seq!['g'], platform) == (Key::KeyG, Seq::<Mod>::empty()),
{
    lemma_one_char_piece(spec_parse_hotkey(a, platform).0, spec_parse_hotkey(a, platform).1, 'g', platform);
    lemma_one_char_piece(Key::Alt, Seq::<Mod>::empty(), 'g', platform);
    lemma_plain_piece(a, seq!['g'], platform);
}

proof fn lemma_char_key_lower_h(a: Seq<char>, platform: Platform)
    ensures
        spec_parse_hotkey(a + seq!['+'] + seq!['h'], platform) == (Key::KeyH, spec_parse_hotkey(a, platform).1),
        spec_parse_hotkey(seq!['h'], platform) == (Key::KeyH, Seq::<Mod>::empty()),
{
    lemma_one_char_piece(spec_parse_hotkey(a, platform).0, spec_parse_hotkey(a, platform).1, 'h', platform);
    lemma_one_char_piece(Key::Alt, Seq::<Mod>::empty(), 'h', platform);
    lemma_plain_piece(a, seq!['h'], platform);
}

proof fn lemma_char_key_lower_i(a: Seq<char>, platform: Platform)
    ensures
        spec_parse_hotkey(a + seq!['+'] + seq!['i'], platform) == (Key::KeyI, spec_parse_hotkey(a, platform).1),
        spec_parse_hotkey(seq!['i'], platform) == (Key::KeyI, Seq::<Mod>::empty()),
{
    lemma_one_char_piece(spec_parse_hotkey(a, platform).0, spec_parse_hotkey(a, platform).1, 'i', platform);
    lemma_one_char_piece(Key::Alt, Seq::<Mod>::empty(), 'i', platform);
    lemma_plain_piece(a, seq!['i'], platform);
}

proof fn lemma_char_key_lower_j(a: Seq<char>, platform: Platform)
    ensures
        spec_parse_hotkey(a + seq!['+'] + seq!['j'], platform) == (Key::KeyJ, spec_parse_hotkey(a, platform).1),
        spec_parse_hotkey(seq!['j'], platform) == (Key::KeyJ, Seq::<Mod>::empty()),
{
    lemma_one_char_piece(spec_parse_hotkey(a, platform).0, spec_parse_hotkey(a, platform).1, 'j', platform);
    lemma_one_char_piece(Key::Alt, Seq::<Mod>::empty(), 'j', platform);
    lemma_plain_piece(a, seq!['j'], platform);
}

proof fn lemma_char_key_lower_k(a: Seq<char>, platform: Platform)
    ensures
        spec_parse_hotkey(a + seq!['+'] + seq!['k'], platform) == (Key::KeyK, spec_parse_hotkey(a, platform).1),
        spec_parse_hotkey(seq!['k'], platform) == (Key::KeyK, Seq::<Mod>::empty()),
{
    lemma_one_char_piece(spec_parse_hotkey(a, platform).0, spec_parse_hotkey(a, platform).1, 'k', platform);
    lemma_one_char_piece(Key::Alt, Seq::<Mod>::empty(), 'k', platform);
    lemma_plain_piece(a, seq!['k'], platform);
}

proof fn lemma_char_key_lower_l(a: Seq<char>, platform: Platform)
    ensures
        spec_parse_hotkey(a + seq!['+'] + seq!['l'], platform) == (Key::KeyL, spec_parse_hotkey(a, platform).1),
        spec_parse_hotkey(seq!['l'], platform) == (Key::KeyL, Seq::<Mod>::empty()),
{
    lemma_one_char_piece(spec_parse_hotkey(a, platform).0, spec_parse_hotkey(a, platform).1, 'l', platform);
    lemma_one_char_piece(Key::Alt, Seq::<Mod>::empty(), 'l', platform);
    lemma_plain_piece(a, seq!['l'], platform);
}

proof fn lemma_char_key_lower_m(a: Seq<char>, platform: Platform)
    ensures
        spec_parse_hotkey(a + seq!['+'] + seq!['m'], platform) == (Key::KeyM, spec_parse_hotkey(a, platform).1),
        spec_parse_hotkey(seq!['m'], platform) == (Key::KeyM, Seq::<Mod>::empty()),
{
    lemma_one_char_piece(spec_parse_hotkey(a, platform).0, spec_parse_hotkey(a, platform).1, 'm', platform);
    lemma_one_char_piece(Key::Alt, Seq::<Mod>::empty(), 'm', platform);
    lemma_plain_piece(a, seq!['m'], platform);
}

proof fn lemma_char_key_lower_n(a: Seq<char>, platform: Platform)
    ensures
        spec_parse_hotkey(a + seq!['+'] + seq!['n'], platform) == (Key::KeyN, spec_parse_hotkey(a, platform).1),
        spec_parse_hotkey(seq!['n'], platform) == (Key::KeyN, Seq::<Mod>::empty()),
{
    lemma_one_char_piece(spec_parse_hotkey(a, platform).0, spec_parse_hotkey(a, platform).1, 'n', platform);
    lemma_one_char_piece(Key::Alt, Seq::<Mod>::empty(), 'n', platform);
    lemma_plain_piece(a, seq!['n'], platform);
}

proof fn lemma_char_key_lower_o(a: Seq<char>, platform: Platform)
    ensures
        spec_parse_hotkey(a + seq!['+'] + seq!['o'], platform) == (Key::KeyO, spec_parse_hotkey(a, platform).1),
        spec_parse_hotkey(seq!['o'], platform) == (Key::KeyO, Seq::<Mod>::empty()),
{
    lemma_one_char_piece(spec_parse_hotkey(a, platform).0, spec_parse_hotkey(a, platform).1, 'o', platform);
    lemma_one_char_piece(Key::Alt, Seq::<Mod>::empty(), 'o', platform);
    lemma_plain_piece(a, seq!['o'], platform);
}

proof fn lemma_char_key_lower_p(a: Seq<char>, platform: Platform)
    ensures
        spec_parse_hotkey(a + seq!['+'] + seq!['p'], platform) == (Key::KeyP, spec_parse_hotkey(a, platform).1),
        spec_parse_hotkey(seq!['p'], platform) == (Key::KeyP, Seq::<Mod>::empty()),
{
    lemma_one_char_piece(spec_parse_hotkey(a, platform).0, spec_parse_hotkey(a, platform).1, 'p', platform);
    lemma_one_char_piece(Key::Alt, Seq::<Mod>::empty(), 'p', platform);
    lemma_plain_piece(a, seq!['p'], platform);
}

proof fn lemma_char_key_lower_q(a: Seq<char>, platform: Platform)
    ensures
        spec_parse_hotkey(a + seq!['+'] + seq!['q'], platform) == (Key::KeyQ, spec_parse_hotkey(a, platform).1),
        spec_parse_hotkey(seq!['q'], platform) == (Key::KeyQ, Seq::<Mod>::empty()),
{
    lemma_one_char_piece(spec_parse_hotkey(a, platform).0, spec_parse_hotkey(a, platform).1, 'q', platform);
    lemma_one_char_piece(Key::Alt, Seq::<Mod>::empty(), 'q', platform);
    lemma_plain_piece(a, seq!['q'], platform);
}

proof fn lemma_char_key_lower_r(a: Seq<char>, platform: Platform)
    ensures
        spec_parse_hotkey(a + seq!['+'] + seq!['r'], platform) == (Key::KeyR, spec_parse_hotkey(a, platform).1),
        spec_parse_hotkey(seq!['r'], platform) == (Key::KeyR, Seq::<Mod>::empty()),
{
    lemma_one_char_piece(spec_parse_hotkey(a, platform).0, spec_parse_hotkey(a, platform).1, 'r', platform);
    lemma_one_char_piece(Key::Alt, Seq::<Mod>::empty(), 'r', platform);
    lemma_plain_piece(a, seq!['r'], platform);
}

proof fn lemma_char_key_lower_s(a: Seq<char>, platform: Platform)
    ensures
        spec_parse_hotkey(a + seq!['+'] + seq!['s'], platform) == (Key::KeyS, spec_parse_hotkey(a, platform).1),
        spec_parse_hotkey(seq!['s'], platform) == (Key::KeyS, Seq::<Mod>::empty()),
{
    lemma_one_char_piece(spec_parse_hotkey(a, platform).0, spec_parse_hotkey(a, platform).1, 's', platform);
    lemma_one_char_piece(Key::Alt, Seq::<Mod>::empty(), 's', platform);
    lemma_plain_piece(a, seq!['s'], platform);
}

proof fn lemma_char_key_lower_t(a: Seq<char>, platform: Platform)
    ensures
        spec_parse_hotkey(a + seq!['+'] + seq!['t'], platform) == (Key::KeyT, spec_parse_hotkey(a, platform).1),
        spec_parse_hotkey(seq!['t'], platform) == (Key::KeyT, Seq::<Mod>::empty()),
{
    lemma_one_char_piece(spec_parse_hotkey(a, platform).0, spec_parse_hotkey(a, platform).1, 't', platform);
    lemma_one_char_piece(Key::Alt, Seq::<Mod>::empty(), 't', platform);
    lemma_plain_piece(a, seq!['t'], platform);
}

proof fn lemma_char_key_lower_u(a: Seq<char>, platform: Platform)
    ensures
        spec_parse_hotkey(a + seq!['+'] + seq!['u'], platform) == (Key::KeyU, spec_parse_hotkey(a, platform).1),
        spec_parse_hotkey(seq!['u'], platform) == (Key::KeyU, Seq::<Mod>::empty()),
{
    lemma_one_char_piece(spec_parse_hotkey(a, platform).0, spec_parse_hotkey(a, platform).1, 'u', platform);
    lemma_one_char_piece(Key::Alt, Seq::<Mod>::empty(), 'u', platform);
    lemma_plain_piece(a, seq!['u'], platform);
}

proof fn lemma_char_key_lower_v(a: Seq<char>, platform: Platform)
    ensures
        spec_parse_hotkey(a + seq!['+'] + seq!['v'], platform) == (Key::KeyV, spec_parse_hotkey(a, platform).1),
        spec_parse_hotkey(seq!['v'], platform) == (Key::KeyV, Seq::<Mod>::empty()),
{
    lemma_one_char_piece(spec_parse_hotkey(a, platform).0, spec_parse_hotkey(a, platform).1, 'v', platform);
    lemma_one_char_piece(Key::Alt, Seq::<Mod>::empty(), 'v', platform);
    lemma_plain_piece(a, seq!['v'], platform);
}

proof fn lemma_char_key_lower_w(a: Seq<char>, platform: Platform)
    ensures
        spec_parse_hotkey(a + seq!['+'] + seq!['w'], platform) == (Key::KeyW, spec_parse_hotkey(a, platform).1),
        spec_parse_hotkey(seq!['w'], platform) == (Key::KeyW, Seq::<Mod>::empty()),
{
    lemma_one_char_piece(spec_parse_hotkey(a, platform).0, spec_parse_hotkey(a, platform).1, 'w', platform);
    lemma_one_char_piece(Key::Alt, Seq::<Mod>::empty(), 'w', platform);
    lemma_plain_piece(a, seq!['w'], platform);
}

proof fn lemma_char_key_lower_x(a: Seq<char>, platform: Platform)
    ensures
        spec_parse_hotkey(a + seq!['+'] + seq!['x'], platform) == (Key::KeyX, spec_parse_hotkey(a, platform).1),
        spec_parse_hotkey(seq!['x'], platform) == (Key::KeyX, Seq::<Mod>::empty()),
{
    lemma_one_char_piece(spec_parse_hotkey(a, platform).0, spec_parse_hotkey(a, platform).1, 'x', platform);
    lemma_one_char_piece(Key::Alt, Seq::<Mod>::empty(), 'x', platform);
    lemma_plain_piece(a, seq!['x'], platform);
}

proof fn lemma_char_key_lower_y(a: Seq<char>, platform: Platform)
    ensures
        spec_parse_hotkey(a + seq!['+'] + seq!['y'], platform) == (Key::KeyY, spec_parse_hotkey(a, platform).1),
        spec_parse_hotkey(seq!['y'], platform) == (Key::KeyY, Seq::<Mod>::empty()),
{
    lemma_one_char_piece(spec_parse_hotkey(a, platform).0, spec_parse_hotkey(a, platform).1, 'y', platform);
    lemma_one_char_piece(Key::Alt, Seq::<Mod>::empty(), 'y', platform);
    lemma_plain_piece(a, seq!['y'], platform);
}

proof fn lemma_char_key_lower_z(a: Seq<char>, platform: Platform)
    ensures
        spec_parse_hotkey(a + seq!['+'] + seq!['z'], platform) == (Key::KeyZ, spec_parse_hotkey(a, platform).1),
        spec_parse_hotkey(seq!['z'], platform) == (Key::KeyZ, Seq::<Mod>::empty()),
{
    lemma_one_char_piece(spec_parse_hotkey(a, platform).0, spec_parse_hotkey(a, platform).1, 'z', platform);
    lemma_one_char_piece(Key::Alt, Seq::<Mod>::empty(), 'z', platform);
    lemma_plain_piece(a, seq!['z'], platform);
}

proof fn lemma_char_key_upper_a(a: Seq<char>, platform: Platform)
    ensures
        spec_parse_hotkey(a + seq!['+'] + seq!['A'], platform) == (Key::KeyA, spec_parse_hotkey(a, platform).1),
        spec_parse_hotkey(seq!['A'], platform) == (Key::KeyA, Seq::<Mod>::empty()),
{
    lemma_one_char_piece(spec_parse_hotkey(a, platform).0, spec_parse_hotkey(a, platform).1, 'A', platform);
    lemma_one_char_piece(Key::Alt, Seq::<Mod>::empty(), 'A', platform);
    lemma_plain_piece(a, seq!['A'], platform);
}

proof fn lemma_char_key_upper_b(a: Seq<char>, platform: Platform)
    ensures
        spec_parse_hotkey(a + seq!['+'] + seq!['B'], platform) == (Key::KeyB, spec_parse_hotkey(a, platform).1),
        spec_parse_hotkey(seq!['B'], platform) == (Key::KeyB, Seq::<Mod>::empty()),
{
    lemma_one_char_piece(spec_parse_hotkey(a, platform).0, spec_parse_hotkey(a, platform).1, 'B', platform);
    lemma_one_char_piece(Key::Alt, Seq::<Mod>::empty(), 'B', platform);
    lemma_plain_piece(a, seq!['B'], platform);
}

proof fn lemma_char_key_upper_c(a: Seq<char>, platform: Platform)
    ensures
        spec_parse_hotkey(a + seq!['+'] + seq!['C'], platform) == (Key::KeyC, spec_parse_hotkey(a, platform).1),
        spec_parse_hotkey(seq!['C'], platform) == (Key::KeyC, Seq::<Mod>::empty()),
{
    lemma_one_char_piece(spec_parse_hotkey(a, platform).0, spec_parse_hotkey(a, platform).1, 'C', platform);
    lemma_one_char_piece(Key::Alt, Seq::<Mod>::empty(), 'C', platform);
    lemma_plain_piece(a, seq!['C'], platform);
}

proof fn lemma_char_key_upper_d(a: Seq<char>, platform: Platform)
    ensures
        spec_parse_hotkey(a + seq!['+'] + seq!['D'], platform) == (Key::KeyD, spec_parse_hotkey(a, platform).1),
        spec_parse_hotkey(seq!['D'], platform) == (Key::KeyD, Seq::<Mod>::empty()),
{
    lemma_one_char_piece(spec_parse_hotkey(a, platform).0, spec_parse_hotkey(a, platform).1, 'D', platform);
    lemma_one_char_piece(Key::Alt, Seq::<Mod>::empty(), 'D', platform);
    lemma_plain_piece(a, seq!['D'], platform);
}

proof fn lemma_char_key_upper_e(a: Seq<char>, platform: Platform)
    ensures
        spec_parse_hotkey(a + seq!['+'] + seq!['E'], platform) == (Key::KeyE, spec_parse_hotkey(a, platform).1),
        spec_parse_hotkey(seq!['E'], platform) == (Key::KeyE, Seq::<Mod>::empty()),
{
    lemma_one_char_piece(spec_parse_hotkey(a, platform).0, spec_parse_hotkey(a, platform).1, 'E', platform);
    lemma_one_char_piece(Key::Alt, Seq::<Mod>::empty(), 'E', platform);
    lemma_plain_piece(a, seq!['E'], platform);
}

proof fn lemma_char_key_upper_f(a: Seq<char>, platform: Platform)
    ensures
        spec_parse_hotkey(a + seq!['+'] + seq!['F'], platform) == (Key::KeyF, spec_parse_hotkey(a, platform).1),
        spec_parse_hotkey(seq!['F'], platform) == (Key::KeyF, Seq::<Mod>::empty()),
{
    lemma_one_char_piece(spec_parse_hotkey(a, platform).0, spec_parse_hotkey(a, platform).1, 'F', platform);
    lemma_one_char_piece(Key::Alt, Seq::<Mod>::empty(), 'F', platform);
    lemma_plain_piece(a, seq!['F'], platform);
}

proof fn lemma_char_key_upper_g(a: Seq<char>, platform: Platform)
    ensures
        spec_parse_hotkey(a + seq!['+'] + seq!['G'], platform) == (Key::KeyG, spec_parse_hotkey(a, platform).1),
        spec_parse_hotkey(seq!['G'], platform) == (Key::KeyG, Seq::<Mod>::empty()),
{
    lemma_one_char_piece(spec_parse_hotkey(a, platform).0, spec_parse_hotkey(a, platform).1, 'G', platform);
    lemma_one_char_piece(Key::Alt, Seq::<Mod>::empty(), 'G', platform);
    lemma_plain_piece(a, seq!['G'], platform);
}

proof fn lemma_char_key_upper_h(a: Seq<char>, platform: Platform)
    ensures
        spec_parse_hotkey(a + seq!['+'] + seq!['H'], platform) == (Key::KeyH, spec_parse_hotkey(a, platform).1),
        spec_parse_hotkey(seq!['H'], platform) == (Key::KeyH, Seq::<Mod>::empty()),
{
    lemma_one_char_piece(spec_parse_hotkey(a, platform).0, spec_parse_hotkey(a, platform).1, 'H', platform);
    lemma_one_char_piece(Key::Alt, Seq::<Mod>::empty(), 'H', platform);
    lemma_plain_piece(a, seq!['H'], platform);
}

proof fn lemma_char_key_upper_i(a: Seq<char>, platform: Platform)
    ensures
        spec_parse_hotkey(a + seq!['+'] + seq!['I'], platform) == (Key::KeyI, spec_parse_hotkey(a, platform).1),
        spec_parse_hotkey(seq!['I'], platform) == (Key::KeyI, Seq::<Mod>::empty()),
{
    lemma_one_char_piece(spec_parse_hotkey(a, platform).0, spec_parse_hotkey(a, platform).1, 'I', platform);
    lemma_one_char_piece(Key::Alt, Seq::<Mod>::empty(), 'I', platform);
    lemma_plain_piece(a, seq!['I'], platform);
}

proof fn lemma_char_key_upper_j(a: Seq<char>, platform: Platform)
    ensures
        spec_parse_hotkey(a + seq!['+'] + seq!['J'], platform) == (Key::KeyJ, spec_parse_hotkey(a, platform).1),
        spec_parse_hotkey(seq!['J'], platform) == (Key::KeyJ, Seq::<Mod>::empty()),
{
    lemma_one_char_piece(spec_parse_hotkey(a, platform).0, spec_parse_hotkey(a, platform).1, 'J', platform);
    lemma_one_char_piece(Key::Alt, Seq::<Mod>::empty(), 'J', platform);
    lemma_plain_piece(a, seq!['J'], platform);
}

proof fn lemma_char_key_upper_k(a: Seq<char>, platform: Platform)
    ensures
        spec_parse_hotkey(a + seq!['+'] + seq!['K'], platform) == (Key::KeyK, spec_parse_hotkey(a, platform).1),
        spec_parse_hotkey(seq!['K'], platform) == (Key::KeyK, Seq::<Mod>::empty()),
{
    lemma_one_char_piece(spec_parse_hotkey(a, platform).0, spec_parse_hotkey(a, platform).1, 'K', platform);
    lemma_one_char_piece(Key::Alt, Seq::<Mod>::empty(), 'K', platform);
    lemma_plain_piece(a, seq!['K'], platform);
}

proof fn lemma_char_key_upper_l(a: Seq<char>, platform: Platform)
    ensures
        spec_parse_hotkey(a + seq!['+'] + seq!['L'], platform) == (Key::KeyL, spec_parse_hotkey(a, platform).1),
        spec_parse_hotkey(seq!['L'], platform) == (Key::KeyL, Seq::<Mod>::empty()),
{
    lemma_one_char_piece(spec_parse_hotkey(a, platform).0, spec_parse_hotkey(a, platform).1, 'L', platform);
    lemma_one_char_piece(Key::Alt, Seq::<Mod>::empty(), 'L', platform);
    lemma_plain_piece(a, seq!['L'], platform);
}

proof fn lemma_char_key_upper_m(a: Seq<char>, platform: Platform)
    ensures
        spec_parse_hotkey(a + seq!['+'] + seq!['M'], platform) == (Key::KeyM, spec_parse_hotkey(a, platform).1),
        spec_parse_hotkey(seq!['M'], platform) == (Key::KeyM, Seq::<Mod>::empty()),
{
    lemma_one_char_piece(spec_parse_hotkey(a, platform).0, spec_parse_hotkey(a, platform).1, 'M', platform);
    lemma_one_char_piece(Key::Alt, Seq::<Mod>::empty(), 'M', platform);
    lemma_plain_piece(a, seq!['M'], platform);
}

proof fn lemma_char_key_upper_n(a: Seq<char>, platform: Platform)
    ensures
        spec_parse_hotkey(a + seq!['+'] + seq!['N'], platform) == (Key::KeyN, spec_parse_hotkey(a, platform).1),
        spec_parse_hotkey(seq!['N'], platform) == (Key::KeyN, Seq::<Mod>::empty()),
{
    lemma_one_char_piece(spec_parse_hotkey(a, platform).0, spec_parse_hotkey(a, platform).1, 'N', platform);
    lemma_one_char_piece(Key::Alt, Seq::<Mod>::empty(), 'N', platform);
    lemma_plain_piece(a, seq!['N'], platform);
}

proof fn lemma_char_key_upper_o(a: Seq<char>, platform: Platform)
    ensures
        spec_parse_hotkey(a + seq!['+'] + seq!['O'], platform) == (Key::KeyO, spec_parse_hotkey(a, platform).1),
        spec_parse_hotkey(seq!['O'], platform) == (Key::KeyO, Seq::<Mod>::empty()),
{
    lemma_one_char_piece(spec_parse_hotkey(a, platform).0, spec_parse_hotkey(a, platform).1, 'O', platform);
    lemma_one_char_piece(Key::Alt, Seq::<Mod>::empty(), 'O', platform);
    lemma_plain_piece(a, seq!['O'], platform);
}

proof fn lemma_char_key_upper_p(a: Seq<char>, platform: Platform)
    ensures
        spec_parse_hotkey(a + seq!['+'] + seq!['P'], platform) == (Key::KeyP, spec_parse_hotkey(a, platform).1),
        spec_parse_hotkey(seq!['P'], platform) == (Key::KeyP, Seq::<Mod>::empty()),
{
    lemma_one_char_piece(spec_parse_hotkey(a, platform).0, spec_parse_hotkey(a, platform).1, 'P', platform);
    lemma_one_char_piece(Key::Alt, Seq::<Mod>::empty(), 'P', platform);
    lemma_plain_piece(a, seq!['P'], platform);
}

proof fn lemma_char_key_upper_q(a: Seq<char>, platform: Platform)
    ensures
        spec_parse_hotkey(a + seq!['+'] + seq!['Q'], platform) == (Key::KeyQ, spec_parse_hotkey(a, platform).1),
        spec_parse_hotkey(seq!['Q'], platform) == (Key::KeyQ, Seq::<Mod>::empty()),
{
    lemma_one_char_piece(spec_parse_hotkey(a, platform).0, spec_parse_hotkey(a, platform).1, 'Q', platform);
    lemma_one_char_piece(Key::Alt, Seq::<Mod>::empty(), 'Q', platform);
    lemma_plain_piece(a, seq!['Q'], platform);
}

proof fn lemma_char_key_upper_r(a: Seq<char>, platform: Platform)
    ensures
        spec_parse_hotkey(a + seq!['+'] + seq!['R'], platform) == (Key::KeyR, spec_parse_hotkey(a, platform).1),
        spec_parse_hotkey(seq!['R'], platform) == (Key::KeyR, Seq::<Mod>::empty()),
{
    lemma_one_char_piece(spec_parse_hotkey(a, platform).0, spec_parse_hotkey(a, platform).1, 'R', platform);
    lemma_one_char_piece(Key::Alt, Seq::<Mod>::empty(), 'R', platform);
    lemma_plain_piece(a, seq!['R'], platform);
}

proof fn lemma_char_key_upper_s(a: Seq<char>, platform: Platform)
    ensures
        spec_parse_hotkey(a + seq!['+'] + seq!['S'], platform) == (Key::KeyS, spec_parse_hotkey(a, platform).1),
        spec_parse_hotkey(seq!['S'], platform) == (Key::KeyS, Seq::<Mod>::empty()),
{
    lemma_one_char_piece(spec_parse_hotkey(a, platform).0, spec_parse_hotkey(a, platform).1, 'S', platform);
    lemma_one_char_piece(Key::Alt, Seq::<Mod>::empty(), 'S', platform);
    lemma_plain_piece(a, seq!['S'], platform);
}

proof fn lemma_char_key_upper_t(a: Seq<char>, platform: Platform)
    ensures
        spec_parse_hotkey(a + seq!['+'] + seq!['T'], platform) == (Key::KeyT, spec_parse_hotkey(a, platform).1),
        spec_parse_hotkey(seq!['T'], platform) == (Key::KeyT, Seq::<Mod>::empty()),
{
    lemma_one_char_piece(spec_parse_hotkey(a, platform).0, spec_parse_hotkey(a, platform).1, 'T', platform);
    lemma_one_char_piece(Key::Alt, Seq::<Mod>::empty(), 'T', platform);
    lemma_plain_piece(a, seq!['T'], platform);
}

proof fn lemma_char_key_upper_u(a: Seq<char>, platform: Platform)
    ensures
        spec_parse_hotkey(a + seq!['+'] + seq!['U'], platform) == (Key::KeyU, spec_parse_hotkey(a, platform).1),
        spec_parse_hotkey(seq!['U'], platform) == (Key::KeyU, Seq::<Mod>::empty()),
{
    lemma_one_char_piece(spec_parse_hotkey(a, platform).0, spec_parse_hotkey(a, platform).1, 'U', platform);
    lemma_one_char_piece(Key::Alt, Seq::<Mod>::empty(), 'U', platform);
    lemma_plain_piece(a, seq!['U'], platform);
}

proof fn lemma_char_key_upper_v(a: Seq<char>, platform: Platform)
    ensures
        spec_parse_hotkey(a + seq!['+'] + seq!['V'], platform) == (Key::KeyV, spec_parse_hotkey(a, platform).1),
        spec_parse_hotkey(seq!['V'], platform) == (Key::KeyV, Seq::<Mod>::empty()),
{
    lemma_one_char_piece(spec_parse_hotkey(a, platform).0, spec_parse_hotkey(a, platform).1, 'V', platform);
    lemma_one_char_piece(Key::Alt, Seq::<Mod>::empty(), 'V', platform);
    lemma_plain_piece(a, seq!['V'], platform);
}

proof fn lemma_char_key_upper_w(a: Seq<char>, platform: Platform)
    ensures
        spec_parse_hotkey(a + seq!['+'] + seq!['W'], platform) == (Key::KeyW, spec_parse_hotkey(a, platform).1),
        spec_parse_hotkey(seq!['W'], platform) == (Key::KeyW, Seq::<Mod>::empty()),
{
    lemma_one_char_piece(spec_parse_hotkey(a, platform).0, spec_parse_hotkey(a, platform).1, 'W', platform);
    lemma_one_char_piece(Key::Alt, Seq::<Mod>::empty(), 'W', platform);
    lemma_plain_piece(a, seq!['W'], platform);
}

proof fn lemma_char_key_upper_x(a: Seq<char>, platform: Platform)
    ensures
        spec_parse_hotkey(a + seq!['+'] + seq!['X'], platform) == (Key::KeyX, spec_parse_hotkey(a, platform).1),
        spec_parse_hotkey(seq!['X'], platform) == (Key::KeyX, Seq::<Mod>::empty()),
{
    lemma_one_char_piece(spec_parse_hotkey(a, platform).0, spec_parse_hotkey(a, platform).1, 'X', platform);
    lemma_one_char_piece(Key::Alt, Seq::<Mod>::empty(), 'X', platform);
    lemma_plain_piece(a, seq!['X'], platform);
}

proof fn lemma_char_key_upper_y(a: Seq<char>, platform: Platform)
    ensures
        spec_parse_hotkey(a + seq!['+'] + seq!['Y'], platform) == (Key::KeyY, spec_parse_hotkey(a, platform).1),
        spec_parse_hotkey(seq!['Y'], platform) == (Key::KeyY, Seq::<Mod>::empty()),
{
    lemma_one_char_piece(spec_parse_hotkey(a, platform).0, spec_parse_hotkey(a, platform).1, 'Y', platform);
    lemma_one_char_piece(Key::Alt, Seq::<Mod>::empty(), 'Y', platform);
    lemma_plain_piece(a, seq!['Y'], platform);
}

proof fn lemma_char_key_upper_z(a: Seq<char>, platform: Platform)
    ensures
        spec_parse_hotkey(a + seq!['+'] + seq!['Z'], platform) == (Key::KeyZ, spec_parse_hotkey(a, platform).1),
        spec_parse_hotkey(seq!['Z'], platform) == (Key::KeyZ, Seq::<Mod>::empty()),
{
    lemma_one_char_piece(spec_parse_hotkey(a, platform).0, spec_parse_hotkey(a, platform).1, 'Z', platform);
    lemma_one_char_piece(Key::Alt, Seq::<Mod>::empty(), 'Z', platform);
    lemma_plain_piece(a, seq!['Z'], platform);
}

proof fn lemma_char_key_digit_0(a: Seq<char>, platform: Platform)
    ensures
        spec_parse_hotkey(a + seq!['+'] + seq!['0'], platform) == (Key::Num0, spec_parse_hotkey(a, platform).1),
        spec_parse_hotkey(seq!['0'], platform) == (Key::Num0, Seq::<Mod>::empty()),
{
    lemma_one_char_piece(spec_parse_hotkey(a, platform).0, spec_parse_hotkey(a, platform).1, '0', platform);
    lemma_one_char_piece(Key::Alt, Seq::<Mod>::empty(), '0', platform);
    lemma_plain_piece(a, seq!['0'], platform);
}

proof fn lemma_char_key_digit_1(a: Seq<char>, platform: Platform)
    ensures
        spec_parse_hotkey(a + seq!['+'] + seq!['1'], platform) == (Key::Num1, spec_parse_hotkey(a, platform).1),
        spec_parse_hotkey(seq!['1'], platform) == (Key::Num1, Seq::<Mod>::empty()),
{
    lemma_one_char_piece(spec_parse_hotkey(a, platform).0, spec_parse_hotkey(a, platform).1, '1', platform);
    lemma_one_char_piece(Key::Alt, Seq::<Mod>::empty(), '1', platform);
    lemma_plain_piece(a, seq!['1'], platform);
}

proof fn lemma_char_key_digit_2(a: Seq<char>, platform: Platform)
    ensures
        spec_parse_hotkey(a + seq!['+'] + seq!['2'], platform) == (Key::Num2, spec_parse_hotkey(a, platform).1),
        spec_parse_hotkey(seq!['2'], platform) == (Key::Num2, Seq::<Mod>::empty()),
{
    lemma_one_char_piece(spec_parse_hotkey(a, platform).0, spec_parse_hotkey(a, platform).1, '2', platform);
    lemma_one_char_piece(Key::Alt, Seq::<Mod>::empty(), '2', platform);
    lemma_plain_piece(a, seq!['2'], platform);
}

proof fn lemma_char_key_digit_3(a: Seq<char>, platform: Platform)
    ensures
        spec_parse_hotkey(a + seq!['+'] + seq!['3'], platform) == (Key::Num3, spec_parse_hotkey(a, platform).1),
        spec_parse_hotkey(seq!['3'], platform) == (Key::Num3, Seq::<Mod>::empty()),
{
    lemma_one_char_piece(spec_parse_hotkey(a, platform).0, spec_parse_hotkey(a, platform).1, '3', platform);
    lemma_one_char_piece(Key::Alt, Seq::<Mod>::empty(), '3', platform);
    lemma_plain_piece(a, seq!['3'], platform);
}

proof fn lemma_char_key_digit_4(a: Seq<char>, platform: Platform)
    ensures
        spec_parse_hotkey(a + seq!['+'] + seq!['4'], platform) == (Key::Num4, spec_parse_hotkey(a, platform).1),
        spec_parse_hotkey(seq!['4'], platform) == (Key::Num4, Seq::<Mod>::empty()),
{
    lemma_one_char_piece(spec_parse_hotkey(a, platform).0, spec_parse_hotkey(a, platform).1, '4', platform);
    lemma_one_char_piece(Key::Alt, Seq::<Mod>::empty(), '4', platform);
    lemma_plain_piece(a, seq!['4'], platform);
}

proof fn lemma_char_key_digit_5(a: Seq<char>, platform: Platform)
    ensures
        spec_parse_hotkey(a + seq!['+'] + seq!['5'], platform) == (Key::Num5, spec_parse_hotkey(a, platform).1),
        spec_parse_hotkey(seq!['5'], platform) == (Key::Num5, Seq::<Mod>::empty()),
{
    lemma_one_char_piece(spec_parse_hotkey(a, platform).0, spec_parse_hotkey(a, platform).1, '5', platform);
    lemma_one_char_piece(Key::Alt, Seq::<Mod>::empty(), '5', platform);
    lemma_plain_piece(a, seq!['5'], platform);
}

proof fn lemma_char_key_digit_6(a: Seq<char>, platform: Platform)
    ensures
        spec_parse_hotkey(a + seq!['+'] + seq!['6'], platform) == (Key::Num6, spec_parse_hotkey(a, platform).1),
        spec_parse_hotkey(seq!['6'], platform) == (Key::Num6, Seq::<Mod>::empty()),
{
    lemma_one_char_piece(spec_parse_hotkey(a, platform).0, spec_parse_hotkey(a, platform).1, '6', platform);
    lemma_one_char_piece(Key::Alt, Seq::<Mod>::empty(), '6', platform);
    lemma_plain_piece(a, seq!['6'], platform);
}

proof fn lemma_char_key_digit_7(a: Seq<char>, platform: Platform)
    ensures
        spec_parse_hotkey(a + seq!['+'] + seq!['7'], platform) == (Key::Num7, spec_parse_hotkey(a, platform).1),
        spec_parse_hotkey(seq!['7'], platform) == (Key::Num7, Seq::<Mod>::empty()),
{
    lemma_one_char_piece(spec_parse_hotkey(a, platform).0, spec_parse_hotkey(a, platform).1, '7', platform);
    lemma_one_char_piece(Key::Alt, Seq::<Mod>::empty(), '7', platform);
    lemma_plain_piece(a, seq!['7'], platform);
}

proof fn lemma_char_key_digit_8(a: Seq<char>, platform: Platform)
    ensures
        spec_parse_hotkey(a + seq!['+'] + seq!['8'], platform) == (Key::Num8, spec_parse_hotkey(a, platform).1),
        spec_parse_hotkey(seq!['8'], platform) == (Key::Num8, Seq::<Mod>::empty()),
{
    lemma_one_char_piece(spec_parse_hotkey(a, platform).0, spec_parse_hotkey(a, platform).1, '8', platform);
    lemma_one_char_piece(Key::Alt, Seq::<Mod>::empty(), '8', platform);
    lemma_plain_piece(a, seq!['8'], platform);
}

proof fn lemma_char_key_digit_9(a: Seq<char>, platform: Platform)
    ensures
        spec_parse_hotkey(a + seq!['+'] + seq!['9'], platform) == (Key::Num9, spec_parse_hotkey(a, platform).1),
        spec_parse_hotkey(seq!['9'], platform) == (Key::Num9, Seq::<Mod>::empty()),
{
    lemma_one_char_piece(spec_parse_hotkey(a, platform).0, spec_parse_hotkey(a, platform).1, '9', platform);
    lemma_one_char_piece(Key::Alt, Seq::<Mod>::empty(), '9', platform);
    lemma_plain_piece(a, seq!['9'], platform);
}

proof fn lemma_char_key_backquote(a: Seq<char>, platform: Platform)
    ensures
        spec_parse_hotkey(a + seq!['+'] + seq!['`'], platform) == (Key::BackQuote, spec_parse_hotkey(a, platform).1),
        spec_parse_hotkey(seq!['`'], platform) == (Key::BackQuote, Seq::<Mod>::empty()),
{
    lemma_one_char_piece(spec_parse_hotkey(a, platform).0, spec_parse_hotkey(a, platform).1, '`', platform);
    lemma_one_char_piece(Key::Alt, Seq::<Mod>::empty(), '`', platform);
    lemma_plain_piece(a, seq!['`'], platform);
}

/// Each one-character piece that names a key, as the last piece of a hotkey text or
/// alone, sets that key, a letter in either case: the modifiers stay as they were.
pub proof fn lemma_character_keys(a: Seq<char>, platform: Platform)
    ensures
        spec_parse_hotkey(a + seq!['+'] + seq!['a'], platform) == (Key::KeyA, spec_parse_hotkey(a, platform).1),
        spec_parse_hotkey(seq!['a'], platform) == (Key::KeyA, Seq::<Mod>::empty()),
        spec_parse_hotkey(a + seq!['+'] + seq!['b'], platform) == (Key::KeyB, spec_parse_hotkey(a, platform).1),
        spec_parse_hotkey(seq!['b'], platform) == (Key::KeyB, Seq::<Mod>::empty()),
        spec_parse_hotkey(a + seq!['+'] + seq!['c'], platform) == (Key::KeyC, spec_parse_hotkey(a, platform).1),
        spec_parse_hotkey(seq!['c'], platform) == (Key::KeyC, Seq::<Mod>::empty()),
        spec_parse_hotkey(a + seq!['+'] + seq!['d'], platform) == (Key::KeyD, spec_parse_hotkey(a, platform).1),
        spec_parse_hotkey(seq!['d'], platform) == (Key::KeyD, Seq::<Mod>::empty()),
        spec_parse_hotkey(a + seq!['+'] + seq!['e'], platform) == (Key::KeyE, spec_parse_hotkey(a, platform).1),
        spec_parse_hotkey(seq!['e'], platform) == (Key::KeyE, Seq::<Mod>::empty()),
        spec_parse_hotkey(a + seq!['+'] + seq!['f'], platform) == (Key::KeyF, spec_parse_hotkey(a, platform).1),
        spec_parse_hotkey(seq!['f'], platform) == (Key::KeyF, Seq::<Mod>::empty()),
        spec_parse_hotkey(a + seq!['+'] + seq!['g'], platform) == (Key::KeyG, spec_parse_hotkey(a, platform).1),
        spec_parse_hotkey(seq!['g'], platform) == (Key::KeyG, Seq::<Mod>::empty()),
        spec_parse_hotkey(a + seq!['+'] + seq!['h'], platform) == (Key::KeyH, spec_parse_hotkey(a, platform).1),
        spec_parse_hotkey(seq!['h'], platform) == (Key::KeyH, Seq::<Mod>::empty()),
        spec_parse_hotkey(a + seq!['+'] + seq!['i'], platform) == (Key::KeyI, spec_parse_hotkey(a, platform).1),
        spec_parse_hotkey(seq!['i'], platform) == (Key::KeyI, Seq::<Mod>::empty()),
        spec_parse_hotkey(a + seq!['+'] + seq!['j'], platform) == (Key::KeyJ, spec_parse_hotkey(a, platform).1),
        spec_parse_hotkey(seq!['j'], platform) == (Key::KeyJ, Seq::<Mod>::empty()),
        spec_parse_hotkey(a + seq!['+'] + seq!['k'], platform) == (Key::KeyK, spec_parse_hotkey(a, platform).1),
        spec_parse_hotkey(seq!['k'], platform) == (Key::KeyK, Seq::<Mod>::empty()),
        spec_parse_hotkey(a + seq!['+'] + seq!['l'], platform) == (Key::KeyL, spec_parse_hotkey(a, platform).1),
        spec_parse_hotkey(seq!['l'], platform) == (Key::KeyL, Seq::<Mod>::empty()),
        spec_parse_hotkey(a + seq!['+'] + seq!['m'], platform) == (Key::KeyM, spec_parse_hotkey(a, platform).1),
        spec_parse_hotkey(seq!['m'], platform) == (Key::KeyM, Seq::<Mod>::empty()),
        spec_parse_hotkey(a + seq!['+'] + seq!['n'], platform) == (Key::KeyN, spec_parse_hotkey(a, platform).1),
        spec_parse_hotkey(seq!['n'], platform) == (Key::KeyN, Seq::<Mod>::empty()),
        spec_parse_hotkey(a + seq!['+'] + seq!['o'], platform) == (Key::KeyO, spec_parse_hotkey(a, platform).1),
        spec_parse_hotkey(seq!['o'], platform) == (Key::KeyO, Seq::<Mod>::empty()),
        spec_parse_hotkey(a + seq!['+'] + seq!['p'], platform) == (Key::KeyP, spec_parse_hotkey(a, platform).1),
        spec_parse_hotkey(seq!['p'], platform) == (Key::KeyP, Seq::<Mod>::empty()),
        spec_parse_hotkey(a + seq!['+'] + seq!['q'], platform) == (Key::KeyQ, spec_parse_hotkey(a, platform).1),
        spec_parse_hotkey(seq!['q'], platform) == (Key::KeyQ, Seq::<Mod>::empty()),
        spec_parse_hotkey(a + seq!['+'] + seq!['r'], platform) == (Key::KeyR, spec_parse_hotkey(a, platform).1),
        spec_parse_hotkey(seq!['r'], platform) == (Key::KeyR, Seq::<Mod>::empty()),
        spec_parse_hotkey(a + seq!['+'] + seq!['s'], platform) == (Key::KeyS, spec_parse_hotkey(a, platform).1),
        spec_parse_hotkey(seq!['s'], platform) == (Key::KeyS, Seq::<Mod>::empty()),
        spec_parse_hotkey(a + seq!['+'] + seq!['t'], platform) == (Key::KeyT, spec_parse_hotkey(a, platform).1),
        spec_parse_hotkey(seq!['t'], platform) == (Key::KeyT, Seq::<Mod>::empty()),
        spec_parse_hotkey(a + seq!['+'] + seq!['u'], platform) == (Key::KeyU, spec_parse_hotkey(a, platform).1),
        spec_parse_hotkey(seq!['u'], platform) == (Key::KeyU, Seq::<Mod>::empty()),
        spec_parse_hotkey(a + seq!['+'] + seq!['v'], platform) == (Key::KeyV, spec_parse_hotkey(a, platform).1),
        spec_parse_hotkey(seq!['v'], platform) == (Key::KeyV, Seq::<Mod>::empty()),
        spec_parse_hotkey(a + seq!['+'] + seq!['w'], platform) == (Key::KeyW, spec_parse_hotkey(a, platform).1),
        spec_parse_hotkey(seq!['w'], platform) == (Key::KeyW, Seq::<Mod>::empty()),
        spec_parse_hotkey(a + seq!['+'] + seq!['x'], platform) == (Key::KeyX, spec_parse_hotkey(a, platform).1),
        spec_parse_hotkey(seq!['x'], platform) == (Key::KeyX, Seq::<Mod>::empty()),
        spec_parse_hotkey(a + seq!['+'] + seq!['y'], platform) == (Key::KeyY, spec_parse_hotkey(a, platform).1),
        spec_parse_hotkey(seq!['y'], platform) == (Key::KeyY, Seq::<Mod>::empty()),
        spec_parse_hotkey(a + seq!['+'] + seq!['z'], platform) == (Key::KeyZ, spec_parse_hotkey(a, platform).1),
        spec_parse_hotkey(seq!['z'], platform) == (Key::KeyZ, Seq::<Mod>::empty()),
        spec_parse_hotkey(a + seq!['+'] + seq!['A'], platform) == (Key::KeyA, spec_parse_hotkey(a, platform).1),
        spec_parse_hotkey(seq!['A'], platform) == (Key::KeyA, Seq::<Mod>::empty()),
        spec_parse_hotkey(a + seq!['+'] + seq!['B'], platform) == (Key::KeyB, spec_parse_hotkey(a, platform).1),
        spec_parse_hotkey(seq!['B'], platform) == (Key::KeyB, Seq::<Mod>::empty()),
        spec_parse_hotkey(a + seq!['+'] + seq!['C'], platform) == (Key::KeyC, spec_parse_hotkey(a, platform).1),
        spec_parse_hotkey(seq!['C'], platform) == (Key::KeyC, Seq::<Mod>::empty()),
        spec_parse_hotkey(a + seq!['+'] + seq!['D'], platform) == (Key::KeyD, spec_parse_hotkey(a, platform).1),
        spec_parse_hotkey(seq!['D'], platform) == (Key::KeyD, Seq::<Mod>::empty()),
        spec_parse_hotkey(a + seq!['+'] + seq!['E'], platform) == (Key::KeyE, spec_parse_hotkey(a, platform).1),
        spec_parse_hotkey(seq!['E'], platform) == (Key::KeyE, Seq::<Mod>::empty()),
        spec_parse_hotkey(a + seq!['+'] + seq!['F'], platform) == (Key::KeyF, spec_parse_hotkey(a, platform).1),
        spec_parse_hotkey(seq!['F'], platform) == (Key::KeyF, Seq::<Mod>::empty()),
        spec_parse_hotkey(a + seq!['+'] + seq!['G'], platform) == (Key::KeyG, spec_parse_hotkey(a, platform).1),
        spec_parse_hotkey(seq!['G'], platform) == (Key::KeyG, Seq::<Mod>::empty()),
        spec_parse_hotkey(a + seq!['+'] + seq!['H'], platform) == (Key::KeyH, spec_parse_hotkey(a, platform).1),
        spec_parse_hotkey(seq!['H'], platform) == (Key::KeyH, Seq::<Mod>::empty()),
        spec_parse_hotkey(a + seq!['+'] + seq!['I'], platform) == (Key::KeyI, spec_parse_hotkey(a, platform).1),
        spec_parse_hotkey(seq!['I'], platform) == (Key::KeyI, Seq::<Mod>::empty()),
        spec_parse_hotkey(a + seq!['+'] + seq!['J'], platform) == (Key::KeyJ, spec_parse_hotkey(a, platform).1),
        spec_parse_hotkey(seq!['J'], platform) == (Key::KeyJ, Seq::<Mod>::empty()),
        spec_parse_hotkey(a + seq!['+'] + seq!['K'], platform) == (Key::KeyK, spec_parse_hotkey(a, platform).1),
        spec_parse_hotkey(seq!['K'], platform) == (Key::KeyK, Seq::<Mod>::empty()),
        spec_parse_hotkey(a + seq!['+'] + seq!['L'], platform) == (Key::KeyL, spec_parse_hotkey(a, platform).1),
        spec_parse_hotkey(seq!['L'], platform) == (Key::KeyL, Seq::<Mod>::empty()),
        spec_parse_hotkey(a + seq!['+'] + seq!['M'], platform) == (Key::KeyM, spec_parse_hotkey(a, platform).1),
        spec_parse_hotkey(seq!['M'], platform) == (Key::KeyM, Seq::<Mod>::empty()),
        spec_parse_hotkey(a + seq!['+'] + seq!['N'], platform) == (Key::KeyN, spec_parse_hotkey(a, platform).1),
        spec_parse_hotkey(seq!['N'], platform) == (Key::KeyN, Seq::<Mod>::empty()),
        spec_parse_hotkey(a + seq!['+'] + seq!['O'], platform) == (Key::KeyO, spec_parse_hotkey(a, platform).1),
        spec_parse_hotkey(seq!['O'], platform) == (Key::KeyO, Seq::<Mod>::empty()),
        spec_parse_hotkey(a + seq!['+'] + seq!['P'], platform) == (Key::KeyP, spec_parse_hotkey(a, platform).1),
        spec_parse_hotkey(seq!['P'], platform) == (Key::KeyP, Seq::<Mod>::empty()),
        spec_parse_hotkey(a + seq!['+'] + seq!['Q'], platform) == (Key::KeyQ, spec_parse_hotkey(a, platform).1),
        spec_parse_hotkey(seq!['Q'], platform) == (Key::KeyQ, Seq::<Mod>::empty()),
        spec_parse_hotkey(a + seq!['+'] + seq!['R'], platform) == (Key::KeyR, spec_parse_hotkey(a, platform).1),
        spec_parse_hotkey(seq!['R'], platform) == (Key::KeyR, Seq::<Mod>::empty()),
        spec_parse_hotkey(a + seq!['+'] + seq!['S'], platform) == (Key::KeyS, spec_parse_hotkey(a, platform).1),
        spec_parse_hotkey(seq!['S'], platform) == (Key::KeyS, Seq::<Mod>::empty()),
        spec_parse_hotkey(a + seq!['+'] + seq!['T'], platform) == (Key::KeyT, spec_parse_hotkey(a, platform).1),
        spec_parse_hotkey(seq!['T'], platform) == (Key::KeyT, Seq::<Mod>::empty()),
        spec_parse_hotkey(a + seq!['+'] + seq!['U'], platform) == (Key::KeyU, spec_parse_hotkey(a, platform).1),
        spec_parse_hotkey(seq!['U'], platform) == (Key::KeyU, Seq::<Mod>::empty()),
        spec_parse_hotkey(a + seq!['+'] + seq!['V'], platform) == (Key::KeyV, spec_parse_hotkey(a, platform).1),
        spec_parse_hotkey(seq!['V'], platform) == (Key::KeyV, Seq::<Mod>::empty()),
        spec_parse_hotkey(a + seq!['+'] + seq!['W'], platform) == (Key::KeyW, spec_parse_hotkey(a, platform).1),
        spec_parse_hotkey(seq!['W'], platform) == (Key::KeyW, Seq::<Mod>::empty()),
        spec_parse_hotkey(a + seq!['+'] + seq!['X'], platform) == (Key::KeyX, spec_parse_hotkey(a, platform).1),
        spec_parse_hotkey(seq!['X'], platform) == (Key::KeyX, Seq::<Mod>::empty()),
        spec_parse_hotkey(a + seq!['+'] + seq!['Y'], platform) == (Key::KeyY, spec_parse_hotkey(a, platform).1),
        spec_parse_hotkey(seq!['Y'], platform) == (Key::KeyY, Seq::<Mod>::empty()),
        spec_parse_hotkey(a + seq!['+'] + seq!['Z'], platform) == (Key::KeyZ, spec_parse_hotkey(a, platform).1),
        spec_parse_hotkey(seq!['Z'], platform) == (Key::KeyZ, Seq::<Mod>::empty()),
        spec_parse_hotkey(a + seq!['+'] + seq!['0'], platform) == (Key::Num0, spec_parse_hotkey(a, platform).1),
        spec_parse_hotkey(seq!['0'], platform) == (Key::Num0, Seq::<Mod>::empty()),
        spec_parse_hotkey(a + seq!['+'] + seq!['1'], platform) == (Key::Num1, spec_parse_hotkey(a, platform).1),
        spec_parse_hotkey(seq!['1'], platform) == (Key::Num1, Seq::<Mod>::empty()),
        spec_parse_hotkey(a + seq!['+'] + seq!['2'], platform) == (Key::Num2, spec_parse_hotkey(a, platform).1),
        spec_parse_hotkey(seq!['2'], platform) == (Key::Num2, Seq::<Mod>::empty()),
        spec_parse_hotkey(a + seq!['+'] + seq!['3'], platform) == (Key::Num3, spec_parse_hotkey(a, platform).1),
        spec_parse_hotkey(seq!['3'], platform) == (Key::Num3, Seq::<Mod>::empty()),
        spec_parse_hotkey(a + seq!['+'] + seq!['4'], platform) == (Key::Num4, spec_parse_hotkey(a, platform).1),
        spec_parse_hotkey(seq!['4'], platform) == (Key::Num4, Seq::<Mod>::empty()),
        spec_parse_hotkey(a + seq!['+'] + seq!['5'], platform) == (Key::Num5, spec_parse_hotkey(a, platform).1),
        spec_parse_hotkey(seq!['5'], platform) == (Key::Num5, Seq::<Mod>::empty()),
        spec_parse_hotkey(a + seq!['+'] + seq!['6'], platform) == (Key::Num6, spec_parse_hotkey(a, platform).1),
        spec_parse_hotkey(seq!['6'], platform) == (Key::Num6, Seq::<Mod>::empty()),
        spec_parse_hotkey(a + seq!['+'] + seq!['7'], platform) == (Key::Num7, spec_parse_hotkey(a, platform).1),
        spec_parse_hotkey(seq!['7'], platform) == (Key::Num7, Seq::<Mod>::empty()),
        spec_parse_hotkey(a + seq!['+'] + seq!['8'], platform) == (Key::Num8, spec_parse_hotkey(a, platform).1),
        spec_parse_hotkey(seq!['8'], platform) == (Key::Num8, Seq::<Mod>::empty()),
        spec_parse_hotkey(a + seq!['+'] + seq!['9'], platform) == (Key::Num9, spec_parse_hotkey(a, platform).1),
        spec_parse_hotkey(seq!['9'], platform) == (Key::Num9, Seq::<Mod>::empty()),
        spec_parse_hotkey(a + seq!['+'] + seq!['`'], platform) == (Key::BackQuote, spec_parse_hotkey(a, platform).1),
        spec_parse_hotkey(seq!['`'], platform) == (Key::BackQuote, Seq::<Mod>::empty()),
{
    lemma_char_key_lower_a(a, platform);
    lemma_char_key_lower_b(a, platform);
    lemma_char_key_lower_c(a, platform);
    lemma_char_key_lower_d(a, platform);
    lemma_char_key_lower_e(a, platform);
    lemma_char_key_lower_f(a, platform);
    lemma_char_key_lower_g(a, platform);
    lemma_char_key_lower_h(a, platform);
    lemma_char_key_lower_i(a, platform);
    lemma_char_key_lower_j(a, platform);
    lemma_char_key_lower_k(a, platform);
    lemma_char_key_lower_l(a, platform);
    lemma_char_key_lower_m(a, platform);
    lemma_char_key_lower_n(a, platform);
    lemma_char_key_lower_o(a, platform);
    lemma_char_key_lower_p(a, platform);
    lemma_char_key_lower_q(a, platform);
    lemma_char_key_lower_r(a, platform);
    lemma_char_key_lower_s(a, platform);
    lemma_char_key_lower_t(a, platform);
    lemma_char_key_lower_u(a, platform);
    lemma_char_key_lower_v(a, platform);
    lemma_char_key_lower_w(a, platform);
    lemma_char_key_lower_x(a, platform);
    lemma_char_key_lower_y(a, platform);
    lemma_char_key_lower_z(a, platform);
    lemma_char_key_upper_a(a, platform);
    lemma_char_key_upper_b(a, platform);
    lemma_char_key_upper_c(a, platform);
    lemma_char_key_upper_d(a, platform);
    lemma_char_key_upper_e(a, platform);
    lemma_char_key_upper_f(a, platform);
    lemma_char_key_upper_g(a, platform);
    lemma_char_key_upper_h(a, platform);
    lemma_char_key_upper_i(a, platform);
    lemma_char_key_upper_j(a, platform);
    lemma_char_key_upper_k(a, platform);
    lemma_char_key_upper_l(a, platform);
    lemma_char_key_upper_m(a, platform);
    lemma_char_key_upper_n(a, platform);
    lemma_char_key_upper_o(a, platform);
    lemma_char_key_upper_p(a, platform);
    lemma_char_key_upper_q(a, platform);
    lemma_char_key_upper_r(a, platform);
    lemma_char_key_upper_s(a, platform);
    lemma_char_key_upper_t(a, platform);
    lemma_char_key_upper_u(a, platform);
    lemma_char_key_upper_v(a, platform);
    lemma_char_key_upper_w(a, platform);
    lemma_char_key_upper_x(a, platform);
    lemma_char_key_upper_y(a, platform);
    lemma_char_key_upper_z(a, platform);
    lemma_char_key_digit_0(a, platform);
    lemma_char_key_digit_1(a, platform);
    lemma_char_key_digit_2(a, platform);
    lemma_char_key_digit_3(a, platform);
    lemma_char_key_digit_4(a, platform);
    lemma_char_key_digit_5(a, platform);
    lemma_char_key_digit_6(a, platform);
    lemma_char_key_digit_7(a, platform);
    lemma_char_key_digit_8(a, platform);
    lemma_char_key_digit_9(a, platform);
    lemma_char_key_backquote(a, platform);
}

proof fn lemma_function_key_1(key: Key, mods: Seq<Mod>, platform: Platform)
    ensures
        part_effect(key, mods, seq!['F', '1'], platform) == (Key::F1, mods),
{
    lemma_function_piece(key, mods, seq!['F', '1'], platform);
    let d = seq!['F', '1'].drop_first();
    assert(d =~= seq!['1']);
    assert(all_digits(d));
    reveal_with_fuel(digits_value, 3);
    assert(digits_value(d) == 1);
}

proof fn lemma_function_key_2(key: Key, mods: Seq<Mod>, platform: Platform)
    ensures
        part_effect(key, mods, seq!['F', '2'], platform) == (Key::F2, mods),
{
    lemma_function_piece(key, mods, seq!['F', '2'], platform);
    let d = seq!['F', '2'].drop_first();
    assert(d =~= seq!['2']);
    assert(all_digits(d));
    reveal_with_fuel(digits_value, 3);
    assert(digits_value(d) == 2);
}

proof fn lemma_function_key_3(key: Key, mods: Seq<Mod>, platform: Platform)
    ensures
        part_effect(key, mods, seq!['F', '3'], platform) == (Key::F3, mods),
{
    lemma_function_piece(key, mods, seq!['F', '3'], platform);
    let d = seq!['F', '3'].drop_first();
    assert(d =~= seq!['3']);
    assert(all_digits(d));
    reveal_with_fuel(digits_value, 3);
    assert(digits_value(d) == 3);
}

proof fn lemma_function_key_4(key: Key, mods: Seq<Mod>, platform: Platform)
    ensures
        part_effect(key, mods, seq!['F', '4'], platform) == (Key::F4, mods),
{
    lemma_function_piece(key, mods, seq!['F', '4'], platform);
    let d = seq!['F', '4'].drop_first();
    assert(d =~= seq!['4']);
    assert(all_digits(d));
    reveal_with_fuel(digits_value, 3);
    assert(digits_value(d) == 4);
}

proof fn lemma_function_key_5(key: Key, mods: Seq<Mod>, platform: Platform)
    ensures
        part_effect(key, mods, seq!['F', '5'], platform) == (Key::F5, mods),
{
    lemma_function_piece(key, mods, seq!['F', '5'], platform);
    let d = seq!['F', '5'].drop_first();
    assert(d =~= seq!['5']);
    assert(all_digits(d));
    reveal_with_fuel(digits_value, 3);
    assert(digits_value(d) == 5);
}

proof fn lemma_function_key_6(key: Key, mods: Seq<Mod>, platform: Platform)
    ensures
        part_effect(key, mods, seq!['F', '6'], platform) == (Key::F6, mods),
{
    lemma_function_piece(key, mods, seq!['F', '6'], platform);
    let d = seq!['F', '6'].drop_first();
    assert(d =~= seq!['6']);
    assert(all_digits(d));
    reveal_with_fuel(digits_value, 3);
    assert(digits_value(d) == 6);
}

proof fn lemma_function_key_7(key: Key, mods: Seq<Mod>, platform: Platform)
    ensures
        part_effect(key, mods, seq!['F', '7'], platform) == (Key::F7, mods),
{
    lemma_function_piece(key, mods, seq!['F', '7'], platform);
    let d = seq!['F', '7'].drop_first();
    assert(d =~= seq!['7']);
    assert(all_digits(d));
    reveal_with_fuel(digits_value, 3);
    assert(digits_value(d) == 7);
}

proof fn lemma_function_key_8(key: Key, mods: Seq<Mod>, platform: Platform)
    ensures
        part_effect(key, mods, seq!['F', '8'], platform) == (Key::F8, mods),
{
    lemma_function_piece(key, mods, seq!['F', '8'], platform);
    let d = seq!['F', '8'].drop_first();
    assert(d =~= seq!['8']);
    assert(all_digits(d));
    reveal_with_fuel(digits_value, 3);
    assert(digits_value(d) == 8);
}

proof fn lemma_function_key_9(key: Key, mods: Seq<Mod>, platform: Platform)
    ensures
        part_effect(key, mods, seq!['F', '9'], platform) == (Key::F9, mods),
{
    lemma_function_piece(key, mods, seq!['F', '9'], platform);
    let d = seq!['F', '9'].drop_first();
    assert(d =~= seq!['9']);
    assert(all_digits(d));
    reveal_with_fuel(digits_value, 3);
    assert(digits_value(d) == 9);
}

proof fn lemma_function_key_10(key: Key, mods: Seq<Mod>, platform: Platform)
    ensures
        part_effect(key, mods, seq!['F', '1', '0'], platform) == (Key::F10, mods),
{
    lemma_function_piece(key, mods, seq!['F', '1', '0'], platform);
    let d = seq!['F', '1', '0'].drop_first();
    assert(d =~= seq!['1', '0']);
    assert(all_digits(d));
    reveal_with_fuel(digits_value, 3);
    assert(digits_value(d) == 10);
}

proof fn lemma_function_key_11(key: Key, mods: Seq<Mod>, platform: Platform)
    ensures
        part_effect(key, mods, seq!['F', '1', '1'], platform) == (Key::F11, mods),
{
    lemma_function_piece(key, mods, seq!['F', '1', '1'], platform);
    let d = seq!['F', '1', '1'].drop_first();
    assert(d =~= seq!['1', '1']);
    assert(all_digits(d));
    reveal_with_fuel(digits_value, 3);
    assert(digits_value(d) == 11);
}

proof fn lemma_function_key_12(key: Key, mods: Seq<Mod>, platform: Platform)
    ensures
        part_effect(key, mods, seq!['F', '1', '2'], platform) == (Key::F12, mods),
{
    lemma_function_piece(key, mods, seq!['F', '1', '2'], platform);
    let d = seq!['F', '1', '2'].drop_first();
    assert(d =~= seq!['1', '2']);
    assert(all_digits(d));
    reveal_with_fuel(digits_value, 3);
    assert(digits_value(d) == 12);
}

proof fn lemma_function_key_13(key: Key, mods: Seq<Mod>, platform: Platform)
    ensures
        part_effect(key, mods, seq!['F', '1', '3'], platform) == (Key::F13, mods),
{
    lemma_function_piece(key, mods, seq!['F', '1', '3'], platform);
    let d = seq!['F', '1', '3'].drop_first();
    assert(d =~= seq!['1', '3']);
    assert(all_digits(d));
    reveal_with_fuel(digits_value, 3);
    assert(digits_value(d) == 13);
}

proof fn lemma_function_key_14(key: Key, mods: Seq<Mod>, platform: Platform)
    ensures
        part_effect(key, mods, seq!['F', '1', '4'], platform) == (Key::F14, mods),
{
    lemma_function_piece(key, mods, seq!['F', '1', '4'], platform);
    let d = seq!['F', '1', '4'].drop_first();
    assert(d =~= seq!['1', '4']);
    assert(all_digits(d));
    reveal_with_fuel(digits_value, 3);
    assert(digits_value(d) == 14);
}

proof fn lemma_function_key_15(key: Key, mods: Seq<Mod>, platform: Platform)
    ensures
        part_effect(key, mods, seq!['F', '1', '5'], platform) == (Key::F15, mods),
{
    lemma_function_piece(key, mods, seq!['F', '1', '5'], platform);
    let d = seq!['F', '1', '5'].drop_first();
    assert(d =~= seq!['1', '5']);
    assert(all_digits(d));
    reveal_with_fuel(digits_value, 3);
    assert(digits_value(d) == 15);
}

proof fn lemma_function_key_16(key: Key, mods: Seq<Mod>, platform: Platform)
    ensures
        part_effect(key, mods, seq!['F', '1', '6'], platform) == (Key::F16, mods),
{
    lemma_function_piece(key, mods, seq!['F', '1', '6'], platform);
    let d = seq!['F', '1', '6'].drop_first();
    assert(d =~= seq!['1', '6']);
    assert(all_digits(d));
    reveal_with_fuel(digits_value, 3);
    assert(digits_value(d) == 16);
}

proof fn lemma_function_key_17(key: Key, mods: Seq<Mod>, platform: Platform)
    ensures
        part_effect(key, mods, seq!['F', '1', '7'], platform) == (Key::F17, mods),
{
    lemma_function_piece(key, mods, seq!['F', '1', '7'], platform);
    let d = seq!['F', '1', '7'].drop_first();
    assert(d =~= seq!['1', '7']);
    assert(all_digits(d));
    reveal_with_fuel(digits_value, 3);
    assert(digits_value(d) == 17);
}

proof fn lemma_function_key_18(key: Key, mods: Seq<Mod>, platform: Platform)
    ensures
        part_effect(key, mods, seq!['F', '1', '8'], platform) == (Key::F18, mods),
{
    lemma_function_piece(key, mods, seq!['F', '1', '8'], platform);
    let d = seq!['F', '1', '8'].drop_first();
    assert(d =~= seq!['1', '8']);
    assert(all_digits(d));
    reveal_with_fuel(digits_value, 3);
    assert(digits_value(d) == 18);
}

proof fn lemma_function_key_19(key: Key, mods: Seq<Mod>, platform: Platform)
    ensures
        part_effect(key, mods, seq!['F', '1', '9'], platform) == (Key::F19, mods),
{
    lemma_function_piece(key, mods, seq!['F', '1', '9'], platform);
    let d = seq!['F', '1', '9'].drop_first();
    assert(d =~= seq!['1', '9']);
    assert(all_digits(d));
    reveal_with_fuel(digits_value, 3);
    assert(digits_value(d) == 19);
}

proof fn lemma_function_key_20(key: Key, mods: Seq<Mod>, platform: Platform)
    ensures
        part_effect(key, mods, seq!['F', '2', '0'], platform) == (Key::F20, mods),
{
    lemma_function_piece(key, mods, seq!['F', '2', '0'], platform);
    let d = seq!['F', '2', '0'].drop_first();
    assert(d =~= seq!['2', '0']);
    assert(all_digits(d));
    reveal_with_fuel(digits_value, 3);
    assert(digits_value(d) == 20);
}

proof fn lemma_function_key_21(key: Key, mods: Seq<Mod>, platform: Platform)
    ensures
        part_effect(key, mods, seq!['F', '2', '1'], platform) == (Key::F21, mods),
{
    lemma_function_piece(key, mods, seq!['F', '2', '1'], platform);
    let d = seq!['F', '2', '1'].drop_first();
    assert(d =~= seq!['2', '1']);
    assert(all_digits(d));
    reveal_with_fuel(digits_value, 3);
    assert(digits_value(d) == 21);
}

proof fn lemma_function_key_22(key: Key, mods: Seq<Mod>, platform: Platform)
    ensures
        part_effect(key, mods, seq!['F', '2', '2'], platform) == (Key::F22, mods),
{
    lemma_function_piece(key, mods, seq!['F', '2', '2'], platform);
    let d = seq!['F', '2', '2'].drop_first();
    assert(d =~= seq!['2', '2']);
    assert(all_digits(d));
    reveal_with_fuel(digits_value, 3);
    assert(digits_value(d) == 22);
}

proof fn lemma_function_key_23(key: Key, mods: Seq<Mod>, platform: Platform)
    ensures
        part_effect(key, mods, seq!['F', '2', '3'], platform) == (Key::F23, mods),
{
    lemma_function_piece(key, mods, seq!['F', '2', '3'], platform);
    let d = seq!['F', '2', '3'].drop_first();
    assert(d =~= seq!['2', '3']);
    assert(all_digits(d));
    reveal_with_fuel(digits_value, 3);
    assert(digits_value(d) == 23);
}

proof fn lemma_function_key_24(key: Key, mods: Seq<Mod>, platform: Platform)
    ensures
        part_effect(key, mods, seq!['F', '2', '4'], platform) == (Key::F24, mods),
{
    lemma_function_piece(key, mods, seq!['F', '2', '4'], platform);
    let d = seq!['F', '2', '4'].drop_first();
    assert(d =~= seq!['2', '4']);
    assert(all_digits(d));
    reveal_with_fuel(digits_value, 3);
    assert(digits_value(d) == 24);
}

proof fn lemma_function_key_text_1(a: Seq<char>, platform: Platform)
    ensures
        spec_parse_hotkey(a + seq!['+'] + seq!['F', '1'], platform) == (Key::F1, spec_parse_hotkey(a, platform).1),
        spec_parse_hotkey(seq!['F', '1'], platform) == (Key::F1, Seq::<Mod>::empty()),
{
    lemma_function_key_1(spec_parse_hotkey(a, platform).0, spec_parse_hotkey(a, platform).1, platform);
    lemma_function_key_1(Key::Alt, Seq::<Mod>::empty(), platform);
    lemma_plain_piece(a, seq!['F', '1'], platform);
}

proof fn lemma_function_key_text_2(a: Seq<char>, platform: Platform)
    ensures
        spec_parse_hotkey(a + seq!['+'] + seq!['F', '2'], platform) == (Key::F2, spec_parse_hotkey(a, platform).1),
        spec_parse_hotkey(seq!['F', '2'], platform) == (Key::F2, Seq::<Mod>::empty()),
{
    lemma_function_key_2(spec_parse_hotkey(a, platform).0, spec_parse_hotkey(a, platform).1, platform);
    lemma_function_key_2(Key::Alt, Seq::<Mod>::empty(), platform);
    lemma_plain_piece(a, seq!['F', '2'], platform);
}

proof fn lemma_function_key_text_3(a: Seq<char>, platform: Platform)
    ensures
        spec_parse_hotkey(a + seq!['+'] + seq!['F', '3'], platform) == (Key::F3, spec_parse_hotkey(a, platform).1),
        spec_parse_hotkey(seq!['F', '3'], platform) == (Key::F3, Seq::<Mod>::empty()),
{
    lemma_function_key_3(spec_parse_hotkey(a, platform).0, spec_parse_hotkey(a, platform).1, platform);
    lemma_function_key_3(Key::Alt, Seq::<Mod>::empty(), platform);
    lemma_plain_piece(a, seq!['F', '3'], platform);
}

proof fn lemma_function_key_text_4(a: Seq<char>, platform: Platform)
    ensures
        spec_parse_hotkey(a + seq!['+'] + seq!['F', '4'], platform) == (Key::F4, spec_parse_hotkey(a, platform).1),
        spec_parse_hotkey(seq!['F', '4'], platform) == (Key::F4, Seq::<Mod>::empty()),
{
    lemma_function_key_4(spec_parse_hotkey(a, platform).0, spec_parse_hotkey(a, platform).1, platform);
    lemma_function_key_4(Key::Alt, Seq::<Mod>::empty(), platform);
    lemma_plain_piece(a, seq!['F', '4'], platform);
}

proof fn lemma_function_key_text_5(a: Seq<char>, platform: Platform)
    ensures
        spec_parse_hotkey(a + seq!['+'] + seq!['F', '5'], platform) == (Key::F5, spec_parse_hotkey(a, platform).1),
        spec_parse_hotkey(seq!['F', '5'], platform) == (Key::F5, Seq::<Mod>::empty()),
{
    lemma_function_key_5(spec_parse_hotkey(a, platform).0, spec_parse_hotkey(a, platform).1, platform);
    lemma_function_key_5(Key::Alt, Seq::<Mod>::empty(), platform);
    lemma_plain_piece(a, seq!['F', '5'], platform);
}

proof fn lemma_function_key_text_6(a: Seq<char>, platform: Platform)
    ensures
        spec_parse_hotkey(a + seq!['+'] + seq!['F', '6'], platform) == (Key::F6, spec_parse_hotkey(a, platform).1),
        spec_parse_hotkey(seq!['F', '6'], platform) == (Key::F6, Seq::<Mod>::empty()),
{
    lemma_function_key_6(spec_parse_hotkey(a, platform).0, spec_parse_hotkey(a, platform).1, platform);
    lemma_function_key_6(Key::Alt, Seq::<Mod>::empty(), platform);
    lemma_plain_piece(a, seq!['F', '6'], platform);
}

proof fn lemma_function_key_text_7(a: Seq<char>, platform: Platform)
    ensures
        spec_parse_hotkey(a + seq!['+'] + seq!['F', '7'], platform) == (Key::F7, spec_parse_hotkey(a, platform).1),
        spec_parse_hotkey(seq!['F', '7'], platform) == (Key::F7, Seq::<Mod>::empty()),
{
    lemma_function_key_7(spec_parse_hotkey(a, platform).0, spec_parse_hotkey(a, platform).1, platform);
    lemma_function_key_7(Key::Alt, Seq::<Mod>::empty(), platform);
    lemma_plain_piece(a, seq!['F', '7'], platform);
}

proof fn lemma_function_key_text_8(a: Seq<char>, platform: Platform)
    ensures
        spec_parse_hotkey(a + seq!['+'] + seq!['F', '8'], platform) == (Key::F8, spec_parse_hotkey(a, platform).1),
        spec_parse_hotkey(seq!['F', '8'], platform) == (Key::F8, Seq::<Mod>::empty()),
{
    lemma_function_key_8(spec_parse_hotkey(a, platform).0, spec_parse_hotkey(a, platform).1, platform);
    lemma_function_key_8(Key::Alt, Seq::<Mod>::empty(), platform);
    lemma_plain_piece(a, seq!['F', '8'], platform);
}

proof fn lemma_function_key_text_9(a: Seq<char>, platform: Platform)
    ensures
        spec_parse_hotkey(a + seq!['+'] + seq!['F', '9'], platform) == (Key::F9, spec_parse_hotkey(a, platform).1),
        spec_parse_hotkey(seq!['F', '9'], platform) == (Key::F9, Seq::<Mod>::empty()),
{
    lemma_function_key_9(spec_parse_hotkey(a, platform).0, spec_parse_hotkey(a, platform).1, platform);
    lemma_function_key_9(Key::Alt, Seq::<Mod>::empty(), platform);
    lemma_plain_piece(a, seq!['F', '9'], platform);
}

proof fn lemma_function_key_text_10(a: Seq<char>, platform: Platform)
    ensures
        spec_parse_hotkey(a + seq!['+'] + seq!['F', '1', '0'], platform) == (Key::F10, spec_parse_hotkey(a, platform).1),
        spec_parse_hotkey(seq!['F', '1', '0'], platform) == (Key::F10, Seq::<Mod>::empty()),
{
    lemma_function_key_10(spec_parse_hotkey(a, platform).0, spec_parse_hotkey(a, platform).1, platform);
    lemma_function_key_10(Key::Alt, Seq::<Mod>::empty(), platform);
    lemma_plain_piece(a, seq!['F', '1', '0'], platform);
}

proof fn lemma_function_key_text_11(a: Seq<char>, platform: Platform)
    ensures
        spec_parse_hotkey(a + seq!['+'] + seq!['F', '1', '1'], platform) == (Key::F11, spec_parse_hotkey(a, platform).1),
        spec_parse_hotkey(seq!['F', '1', '1'], platform) == (Key::F11, Seq::<Mod>::empty()),
{
    lemma_function_key_11(spec_parse_hotkey(a, platform).0, spec_parse_hotkey(a, platform).1, platform);
    lemma_function_key_11(Key::Alt, Seq::<Mod>::empty(), platform);
    lemma_plain_piece(a, seq!['F', '1', '1'], platform);
}

proof fn lemma_function_key_text_12(a: Seq<char>, platform: Platform)
    ensures
        spec_parse_hotkey(a + seq!['+'] + seq!['F', '1', '2'], platform) == (Key::F12, spec_parse_hotkey(a, platform).1),
        spec_parse_hotkey(seq!['F', '1', '2'], platform) == (Key::F12, Seq::<Mod>::empty()),
{
    lemma_function_key_12(spec_parse_hotkey(a, platform).0, spec_parse_hotkey(a, platform).1, platform);
    lemma_function_key_12(Key::Alt, Seq::<Mod>::empty(), platform);
    lemma_plain_piece(a, seq!['F', '1', '2'], platform);
}

proof fn lemma_function_key_text_13(a: Seq<char>, platform: Platform)
    ensures
        spec_parse_hotkey(a + seq!['+'] + seq!['F', '1', '3'], platform) == (Key::F13, spec_parse_hotkey(a, platform).1),
        spec_parse_hotkey(seq!['F', '1', '3'], platform) == (Key::F13, Seq::<Mod>::empty()),
{
    lemma_function_key_13(spec_parse_hotkey(a, platform).0, spec_parse_hotkey(a, platform).1, platform);
    lemma_function_key_13(Key::Alt, Seq::<Mod>::empty(), platform);
    lemma_plain_piece(a, seq!['F', '1', '3'], platform);
}

proof fn lemma_function_key_text_14(a: Seq<char>, platform: Platform)
    ensures
        spec_parse_hotkey(a + seq!['+'] + seq!['F', '1', '4'], platform) == (Key::F14, spec_parse_hotkey(a, platform).1),
        spec_parse_hotkey(seq!['F', '1', '4'], platform) == (Key::F14, Seq::<Mod>::empty()),
{
    lemma_function_key_14(spec_parse_hotkey(a, platform).0, spec_parse_hotkey(a, platform).1, platform);
    lemma_function_key_14(Key::Alt, Seq::<Mod>::empty(), platform);
    lemma_plain_piece(a, seq!['F', '1', '4'], platform);
}

proof fn lemma_function_key_text_15(a: Seq<char>, platform: Platform)
    ensures
        spec_parse_hotkey(a + seq!['+'] + seq!['F', '1', '5'], platform) == (Key::F15, spec_parse_hotkey(a, platform).1),
        spec_parse_hotkey(seq!['F', '1', '5'], platform) == (Key::F15, Seq::<Mod>::empty()),
{
    lemma_function_key_15(spec_parse_hotkey(a, platform).0, spec_parse_hotkey(a, platform).1, platform);
    lemma_function_key_15(Key::Alt, Seq::<Mod>::empty(), platform);
    lemma_plain_piece(a, seq!['F', '1', '5'], platform);
}

proof fn lemma_function_key_text_16(a: Seq<char>, platform: Platform)
    ensures
        spec_parse_hotkey(a + seq!['+'] + seq!['F', '1', '6'], platform) == (Key::F16, spec_parse_hotkey(a, platform).1),
        spec_parse_hotkey(seq!['F', '1', '6'], platform) == (Key::F16, Seq::<Mod>::empty()),
{
    lemma_function_key_16(spec_parse_hotkey(a, platform).0, spec_parse_hotkey(a, platform).1, platform);
    lemma_function_key_16(Key::Alt, Seq::<Mod>::empty(), platform);
    lemma_plain_piece(a, seq!['F', '1', '6'], platform);
}

proof fn lemma_function_key_text_17(a: Seq<char>, platform: Platform)
    ensures
        spec_parse_hotkey(a + seq!['+'] + seq!['F', '1', '7'], platform) == (Key::F17, spec_parse_hotkey(a, platform).1),
        spec_parse_hotkey(seq!['F', '1', '7'], platform) == (Key::F17, Seq::<Mod>::empty()),
{
    lemma_function_key_17(spec_parse_hotkey(a, platform).0, spec_parse_hotkey(a, platform).1, platform);
    lemma_function_key_17(Key::Alt, Seq::<Mod>::empty(), platform);
    lemma_plain_piece(a, seq!['F', '1', '7'], platform);
}

proof fn lemma_function_key_text_18(a: Seq<char>, platform: Platform)
    ensures
        spec_parse_hotkey(a + seq!['+'] + seq!['F', '1', '8'], platform) == (Key::F18, spec_parse_hotkey(a, platform).1),
        spec_parse_hotkey(seq!['F', '1', '8'], platform) == (Key::F18, Seq::<Mod>::empty()),
{
    lemma_function_key_18(spec_parse_hotkey(a, platform).0, spec_parse_hotkey(a, platform).1, platform);
    lemma_function_key_18(Key::Alt, Seq::<Mod>::empty(), platform);
    lemma_plain_piece(a, seq!['F', '1', '8'], platform);
}

proof fn lemma_function_key_text_19(a: Seq<char>, platform: Platform)
    ensures
        spec_parse_hotkey(a + seq!['+'] + seq!['F', '1', '9'], platform) == (Key::F19, spec_parse_hotkey(a, platform).1),
        spec_parse_hotkey(seq!['F', '1', '9'], platform) == (Key::F19, Seq::<Mod>::empty()),
{
    lemma_function_key_19(spec_parse_hotkey(a, platform).0, spec_parse_hotkey(a, platform).1, platform);
    lemma_function_key_19(Key::Alt, Seq::<Mod>::empty(), platform);
    lemma_plain_piece(a, seq!['F', '1', '9'], platform);
}

proof fn lemma_function_key_text_20(a: Seq<char>, platform: Platform)
    ensures
        spec_parse_hotkey(a + seq!['+'] + seq!['F', '2', '0'], platform) == (Key::F20, spec_parse_hotkey(a, platform).1),
        spec_parse_hotkey(seq!['F', '2', '0'], platform) == (Key::F20, Seq::<Mod>::empty()),
{
    lemma_function_key_20(spec_parse_hotkey(a, platform).0, spec_parse_hotkey(a, platform).1, platform);
    lemma_function_key_20(Key::Alt, Seq::<Mod>::empty(), platform);
    lemma_plain_piece(a, seq!['F', '2', '0'], platform);
}

proof fn lemma_function_key_text_21(a: Seq<char>, platform: Platform)
    ensures
        spec_parse_hotkey(a + seq!['+'] + seq!['F', '2', '1'], platform) == (Key::F21, spec_parse_hotkey(a, platform).1),
        spec_parse_hotkey(seq!['F', '2', '1'], platform) == (Key::F21, Seq::<Mod>::empty()),
{
    lemma_function_key_21(spec_parse_hotkey(a, platform).0, spec_parse_hotkey(a, platform).1, platform);
    lemma_function_key_21(Key::Alt, Seq::<Mod>::empty(), platform);
    lemma_plain_piece(a, seq!['F', '2', '1'], platform);
}

proof fn lemma_function_key_text_22(a: Seq<char>, platform: Platform)
    ensures
        spec_parse_hotkey(a + seq!['+'] + seq!['F', '2', '2'], platform) == (Key::F22, spec_parse_hotkey(a, platform).1),
        spec_parse_hotkey(seq!['F', '2', '2'], platform) == (Key::F22, Seq::<Mod>::empty()),
{
    lemma_function_key_22(spec_parse_hotkey(a, platform).0, spec_parse_hotkey(a, platform).1, platform);
    lemma_function_key_22(Key::Alt, Seq::<Mod>::empty(), platform);
    lemma_plain_piece(a, seq!['F', '2', '2'], platform);
}

proof fn lemma_function_key_text_23(a: Seq<char>, platform: Platform)
    ensures
        spec_parse_hotkey(a + seq!['+'] + seq!['F', '2', '3'], platform) == (Key::F23, spec_parse_hotkey(a, platform).1),
        spec_parse_hotkey(seq!['F', '2', '3'], platform) == (Key::F23, Seq::<Mod>::empty()),
{
    lemma_function_key_23(spec_parse_hotkey(a, platform).0, spec_parse_hotkey(a, platform).1, platform);
    lemma_function_key_23(Key::Alt, Seq::<Mod>::empty(), platform);
    lemma_plain_piece(a, seq!['F', '2', '3'], platform);
}

proof fn lemma_function_key_text_24(a: Seq<char>, platform: Platform)
    ensures
        spec_parse_hotkey(a + seq!['+'] + seq!['F', '2', '4'], platform) == (Key::F24, spec_parse_hotkey(a, platform).1),
        spec_parse_hotkey(seq!['F', '2', '4'], platform) == (Key::F24, Seq::<Mod>::empty()),
{
    lemma_function_key_24(spec_parse_hotkey(a, platform).0, spec_parse_hotkey(a, platform).1, platform);
    lemma_function_key_24(Key::Alt, Seq::<Mod>::empty(), platform);
    lemma_plain_piece(a, seq!['F', '2', '4'], platform);
}

/// Each function key F1 to F24, as the last piece of a hotkey text or alone, sets
/// that key: the modifiers stay as they were.
pub proof fn lemma_function_keys(a: Seq<char>, platform: Platform)
    ensures
        spec_parse_hotkey(a + seq!['+'] + seq!['F', '1'], platform) == (Key::F1, spec_parse_hotkey(a, platform).1),
        spec_parse_hotkey(seq!['F', '1'], platform) == (Key::F1, Seq::<Mod>::empty()),
        spec_parse_hotkey(a + seq!['+'] + seq!['F', '2'], platform) == (Key::F2, spec_parse_hotkey(a, platform).1),
        spec_parse_hotkey(seq!['F', '2'], platform) == (Key::F2, Seq::<Mod>::empty()),
        spec_parse_hotkey(a + seq!['+'] + seq!['F', '3'], platform) == (Key::F3, spec_parse_hotkey(a, platform).1),
        spec_parse_hotkey(seq!['F', '3'], platform) == (Key::F3, Seq::<Mod>::empty()),
        spec_parse_hotkey(a + seq!['+'] + seq!['F', '4'], platform) == (Key::F4, spec_parse_hotkey(a, platform).1),
        spec_parse_hotkey(seq!['F', '4'], platform) == (Key::F4, Seq::<Mod>::empty()),
        spec_parse_hotkey(a + seq!['+'] + seq!['F', '5'], platform) == (Key::F5, spec_parse_hotkey(a, platform).1),
        spec_parse_hotkey(seq!['F', '5'], platform) == (Key::F5, Seq::<Mod>::empty()),
        spec_parse_hotkey(a + seq!['+'] + seq!['F', '6'], platform) == (Key::F6, spec_parse_hotkey(a, platform).1),
        spec_parse_hotkey(seq!['F', '6'], platform) == (Key::F6, Seq::<Mod>::empty()),
        spec_parse_hotkey(a + seq!['+'] + seq!['F', '7'], platform) == (Key::F7, spec_parse_hotkey(a, platform).1),
        spec_parse_hotkey(seq!['F', '7'], platform) == (Key::F7, Seq::<Mod>::empty()),
        spec_parse_hotkey(a + seq!['+'] + seq!['F', '8'], platform) == (Key::F8, spec_parse_hotkey(a, platform).1),
        spec_parse_hotkey(seq!['F', '8'], platform) == (Key::F8, Seq::<Mod>::empty()),
        spec_parse_hotkey(a + seq!['+'] + seq!['F', '9'], platform) == (Key::F9, spec_parse_hotkey(a, platform).1),
        spec_parse_hotkey(seq!['F', '9'], platform) == (Key::F9, Seq::<Mod>::empty()),
        spec_parse_hotkey(a + seq!['+'] + seq!['F', '1', '0'], platform) == (Key::F10, spec_parse_hotkey(a, platform).1),
        spec_parse_hotkey(seq!['F', '1', '0'], platform) == (Key::F10, Seq::<Mod>::empty()),
        spec_parse_hotkey(a + seq!['+'] + seq!['F', '1', '1'], platform) == (Key::F11, spec_parse_hotkey(a, platform).1),
        spec_parse_hotkey(seq!['F', '1', '1'], platform) == (Key::F11, Seq::<Mod>::empty()),
        spec_parse_hotkey(a + seq!['+'] + seq!['F', '1', '2'], platform) == (Key::F12, spec_parse_hotkey(a, platform).1),
        spec_parse_hotkey(seq!['F', '1', '2'], platform) == (Key::F12, Seq::<Mod>::empty()),
        spec_parse_hotkey(a + seq!['+'] + seq!['F', '1', '3'], platform) == (Key::F13, spec_parse_hotkey(a, platform).1),
        spec_parse_hotkey(seq!['F', '1', '3'], platform) == (Key::F13, Seq::<Mod>::empty()),
        spec_parse_hotkey(a + seq!['+'] + seq!['F', '1', '4'], platform) == (Key::F14, spec_parse_hotkey(a, platform).1),
        spec_parse_hotkey(seq!['F', '1', '4'], platform) == (Key::F14, Seq::<Mod>::empty()),
        spec_parse_hotkey(a + seq!['+'] + seq!['F', '1', '5'], platform) == (Key::F15, spec_parse_hotkey(a, platform).1),
        spec_parse_hotkey(seq!['F', '1', '5'], platform) == (Key::F15, Seq::<Mod>::empty()),
        spec_parse_hotkey(a + seq!['+'] + seq!['F', '1', '6'], platform) == (Key::F16, spec_parse_hotkey(a, platform).1),
        spec_parse_hotkey(seq!['F', '1', '6'], platform) == (Key::F16, Seq::<Mod>::empty()),
        spec_parse_hotkey(a + seq!['+'] + seq!['F', '1', '7'], platform) == (Key::F17, spec_parse_hotkey(a, platform).1),
        spec_parse_hotkey(seq!['F', '1', '7'], platform) == (Key::F17, Seq::<Mod>::empty()),
        spec_parse_hotkey(a + seq!['+'] + seq!['F', '1', '8'], platform) == (Key::F18, spec_parse_hotkey(a, platform).1),
        spec_parse_hotkey(seq!['F', '1', '8'], platform) == (Key::F18, Seq::<Mod>::empty()),
        spec_parse_hotkey(a + seq!['+'] + seq!['F', '1', '9'], platform) == (Key::F19, spec_parse_hotkey(a, platform).1),
        spec_parse_hotkey(seq!['F', '1', '9'], platform) == (Key::F19, Seq::<Mod>::empty()),
        spec_parse_hotkey(a + seq!['+'] + seq!['F', '2', '0'], platform) == (Key::F20, spec_parse_hotkey(a, platform).1),
        spec_parse_hotkey(seq!['F', '2', '0'], platform) == (Key::F20, Seq::<Mod>::empty()),
        spec_parse_hotkey(a + seq!['+'] + seq!['F', '2', '1'], platform) == (Key::F21, spec_parse_hotkey(a, platform).1),
        spec_parse_hotkey(seq!['F', '2', '1'], platform) == (Key::F21, Seq::<Mod>::empty()),
        spec_parse_hotkey(a + seq!['+'] + seq!['F', '2', '2'], platform) == (Key::F22, spec_parse_hotkey(a, platform).1),
        spec_parse_hotkey(seq!['F', '2', '2'], platform) == (Key::F22, Seq::<Mod>::empty()),
        spec_parse_hotkey(a + seq!['+'] + seq!['F', '2', '3'], platform) == (Key::F23, spec_parse_hotkey(a, platform).1),
        spec_parse_hotkey(seq!['F', '2', '3'], platform) == (Key::F23, Seq::<Mod>::empty()),
        spec_parse_hotkey(a + seq!['+'] + seq!['F', '2', '4'], platform) == (Key::F24, spec_parse_hotkey(a, platform).1),
        spec_parse_hotkey(seq!['F', '2', '4'], platform) == (Key::F24, Seq::<Mod>::empty()),
{
    lemma_function_key_text_1(a, platform);
    lemma_function_key_text_2(a, platform);
    lemma_function_key_text_3(a, platform);
    lemma_function_key_text_4(a, platform);
    lemma_function_key_text_5(a, platform);
    lemma_function_key_text_6(a, platform);
    lemma_function_key_text_7(a, platform);
    lemma_function_key_text_8(a, platform);
    lemma_function_key_text_9(a, platform);
    lemma_function_key_text_10(a, platform);
    lemma_function_key_text_11(a, platform);
    lemma_function_key_text_12(a, platform);
    lemma_function_key_text_13(a, platform);
    lemma_function_key_text_14(a, platform);
    lemma_function_key_text_15(a, platform);
    lemma_function_key_text_16(a, platform);
    lemma_function_key_text_17(a, platform);
    lemma_function_key_text_18(a, platform);
    lemma_function_key_text_19(a, platform);
    lemma_function_key_text_20(a, platform);
    lemma_function_key_text_21(a, platform);
    lemma_function_key_text_22(a, platform);
    lemma_function_key_text_23(a, platform);
    lemma_function_key_text_24(a, platform);
}

// ---------------------------------------------------------------------------
// Laws of key tracking, over the state's fields
// ---------------------------------------------------------------------------

/// Whether `k` is one of the eight physical modifier keys.
pub open spec fn is_modifier_key(k: Key) -> bool {
    ||| k == Key::MetaLeft
    ||| k == Key::MetaRight
    ||| k == Key::ControlLeft
    ||| k == Key::ControlRight
    ||| k == Key::Alt
    ||| k == Key::AltGr
    ||| k == Key::ShiftLeft
    ||| k == Key::ShiftRight
}

/// Whether the flag of modifier `m` is raised in `st`, read off the fields.
pub open spec fn flag_of(st: KeyState, m: Mod) -> bool {
    (m == Mod::Cmd && st.meta) || (m == Mod::Ctrl && st.ctrl) || (m == Mod::Alt && st.alt)
        || (m == Mod::Shift && st.shift)
}

/// A press of a hotkey that is not itself a modifier key is reported exactly when
/// the hotkey is not already reported and the held modifiers are the required
/// ones: with modifiers required, every one of them held (others may be held too);
/// with none required, none held. A press with some required modifier not held is
/// not reported and changes nothing.
pub proof fn lemma_press_needs_its_modifiers(hot: Key, mods: Seq<Mod>, st: KeyState)
    requires
        !is_modifier_key(hot),
    ensures
        mods.len() > 0 ==> (key_step(hot, mods, st, true, KeyEvent::Press(hot)).1 == Some(true)
            <==> (!st.active && forall|i: int| 0 <= i < mods.len() ==> flag_of(st, #[trigger] mods[i]))),
        mods.len() == 0 ==> (key_step(hot, mods, st, true, KeyEvent::Press(hot)).1 == Some(true)
            <==> (!st.active && !st.meta && !st.ctrl && !st.alt && !st.shift)),
        forall|i: int| 0 <= i < mods.len() && !flag_of(st, #[trigger] mods[i])
            ==> key_step(hot, mods, st, true, KeyEvent::Press(hot)) == (st, None::<bool>),
        key_step(hot, mods, st, true, KeyEvent::Press(hot)).1 != Some(false),
{
    assert(track_modifier(st, hot, true) == st);
    assert forall|i: int| 0 <= i < mods.len() implies mod_down(st, #[trigger] mods[i]) == flag_of(st, mods[i]) by {
        match mods[i] {
            Mod::Cmd => {},
            Mod::Ctrl => {},
            Mod::Alt => {},
            Mod::Shift => {},
        }
    }
}

/// Both physical keys of a modifier drive its flag: a press raises it and a release
/// lowers it, whichever key the hotkey is; every other flag stays. Any other key
/// leaves all four flags as they were.
pub proof fn lemma_modifier_keys_tracked(hot: Key, mods: Seq<Mod>, st: KeyState, k: Key, down: bool)
    ensures
        ({
            let ev = if down { KeyEvent::Press(k) } else { KeyEvent::Release(k) };
            let q = key_step(hot, mods, st, true, ev).0;
            &&& (k == Key::MetaLeft || k == Key::MetaRight)
                ==> (q.meta == down && q.ctrl == st.ctrl && q.alt == st.alt && q.shift == st.shift)
            &&& (k == Key::ControlLeft || k == Key::ControlRight)
                ==> (q.ctrl == down && q.meta == st.meta && q.alt == st.alt && q.shift == st.shift)
            &&& (k == Key::Alt || k == Key::AltGr)
                ==> (q.alt == down && q.meta == st.meta && q.ctrl == st.ctrl && q.shift == st.shift)
            &&& (k == Key::ShiftLeft || k == Key::ShiftRight)
                ==> (q.shift == down && q.meta == st.meta && q.ctrl == st.ctrl && q.alt == st.alt)
            &&& !is_modifier_key(k)
                ==> (q.meta == st.meta && q.ctrl == st.ctrl && q.alt == st.alt && q.shift == st.shift)
        }),
{
}

/// A release of the hotkey is reported exactly when its press was, and then the
/// hotkey is no longer reported pressed; a key other than the hotkey, pressed or
/// released, is never reported; while the listener is stopped nothing is.
pub proof fn lemma_release_and_other_keys(hot: Key, mods: Seq<Mod>, st: KeyState, k: Key, down: bool, running: bool)
    ensures
        key_step(hot, mods, st, true, KeyEvent::Release(hot)).1 == (if st.active { Some(false) } else { None::<bool> }),
        !key_step(hot, mods, st, true, KeyEvent::Release(hot)).0.active,
        k != hot ==> key_step(hot, mods, st, running, (if down { KeyEvent::Press(k) } else { KeyEvent::Release(k) })).1 is None,
        k != hot ==> key_step(hot, mods, st, running, (if down { KeyEvent::Press(k) } else { KeyEvent::Release(k) })).0.active == st.active,
        key_step(hot, mods, st, false, (if down { KeyEvent::Press(k) } else { KeyEvent::Release(k) })) == (st, None::<bool>),
{
}

} // verus!
