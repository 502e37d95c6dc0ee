//! Portable terminal fallback: the backend of last resort, fed by generic
//! terminal input events. It forwards only key-press events, decodes the
//! terminal's character-or-code representation into the canonical key model,
//! and reads the three modifiers from the event's own modifier mask.

use vstd::prelude::*;

use crate::Key;
use crate::KeyEvent;

verus! {

/// Bit for shift in a terminal event's modifier mask.
pub const TERM_MOD_SHIFT: u8 = 0x01;

/// Bit for ctrl in a terminal event's modifier mask.
pub const TERM_MOD_CTRL: u8 = 0x02;

/// Bit for alt in a terminal event's modifier mask.
pub const TERM_MOD_ALT: u8 = 0x04;

/// The code a terminal reports for one key: either a named key or the
/// character the key produced. `Other` stands for every code the canonical
/// model does not classify; it maps to the default key.
#[derive(Clone, Copy, PartialEq, Eq, Structural, Debug)]
pub enum TermCode {
    Esc,
    F(u8),
    Backspace,
    Enter,
    Left,
    Right,
    Up,
    Down,
    Home,
    End,
    PageUp,
    PageDown,
    Tab,
    Delete,
    Insert,
    CapsLock,
    ScrollLock,
    NumLock,
    PrintScreen,
    Pause,
    Menu,
    Char(char),
    Other,
}

/// Whether a terminal key event is a press, an auto-repeat, or a release.
/// Only presses are forwarded.
#[derive(Clone, Copy, PartialEq, Eq, Structural, Debug)]
pub enum TermKind {
    Press,
    Repeat,
    Release,
}

/// One terminal key event: a code, a modifier mask, and the transition kind.
#[derive(Clone, Copy, PartialEq, Eq, Structural, Debug)]
pub struct TermKey {
    pub code: TermCode,
    pub mods: u8,
    pub kind: TermKind,
}

/// One terminal input event: a key event, or anything else the terminal
/// reports (mouse, resize, focus), which is discarded.
#[derive(Clone, Copy, PartialEq, Eq, Structural, Debug)]
pub enum TermEvent {
    KeyInput(TermKey),
    NonKey,
}

/// The canonical key for a character code: a key names a position, not a
/// character, so the shifted and unshifted character of one physical key —
/// both cases of a letter, a digit and its shifted symbol, the symbol pairs
/// of the US layout — land on the same variant; anything else falls to the
/// default key.
pub open spec fn term_char_key(c: char) -> Key {
    match c {
        ' ' => Key::Space,
        '1' | '!' => Key::Digit1,
        '2' | '@' => Key::Digit2,
        '3' | '#' => Key::Digit3,
        '4' | '$' => Key::Digit4,
        '5' | '%' => Key::Digit5,
        '6' | '^' => Key::Digit6,
        '7' | '&' => Key::Digit7,
        '8' | '*' => Key::Digit8,
        '9' | '(' => Key::Digit9,
        '0' | ')' => Key::Digit0,
        'a' | 'A' => Key::KeyA,
        'b' | 'B' => Key::KeyB,
        'c' | 'C' => Key::KeyC,
        'd' | 'D' => Key::KeyD,
        'e' | 'E' => Key::KeyE,
        'f' | 'F' => Key::KeyF,
        'g' | 'G' => Key::KeyG,
        'h' | 'H' => Key::KeyH,
        'i' | 'I' => Key::KeyI,
        'j' | 'J' => Key::KeyJ,
        'k' | 'K' => Key::KeyK,
        'l' | 'L' => Key::KeyL,
        'm' | 'M' => Key::KeyM,
        'n' | 'N' => Key::KeyN,
        'o' | 'O' => Key::KeyO,
        'p' | 'P' => Key::KeyP,
        'q' | 'Q' => Key::KeyQ,
        'r' | 'R' => Key::KeyR,
        's' | 'S' => Key::KeyS,
        't' | 'T' => Key::KeyT,
        'u' | 'U' => Key::KeyU,
        'v' | 'V' => Key::KeyV,
        'w' | 'W' => Key::KeyW,
        'x' | 'X' => Key::KeyX,
        'y' | 'Y' => Key::KeyY,
        'z' | 'Z' => Key::KeyZ,
        '`' | '~' => Key::Grave,
        '-' | '_' => Key::Minus,
        '=' | '+' => Key::Equal,
        '[' | '{' => Key::LeftBracket,
        ']' | '}' => Key::RightBracket,
        '\\' | '|' => Key::Backslash,
        ';' | ':' => Key::Semicolon,
        '\'' | '"' => Key::Quote,
        ',' | '<' => Key::Comma,
        '.' | '>' => Key::Period,
        '/' | '?' => Key::Slash,
        _ => Key::Space,
    }
}

/// The canonical key for a terminal code. Total: unclassified codes map to
/// the default key, never to an error.
pub open spec fn term_key_of(code: TermCode) -> Key {
    match code {
        TermCode::Esc => Key::Escape,
        TermCode::F(n) => match n {
            1u8 => Key::F1,
            2u8 => Key::F2,
            3u8 => Key::F3,
            4u8 => Key::F4,
            5u8 => Key::F5,
            6u8 => Key::F6,
            7u8 => Key::F7,
            8u8 => Key::F8,
            9u8 => Key::F9,
            10u8 => Key::F10,
            11u8 => Key::F11,
            _ => Key::F12,
        },
        TermCode::Backspace => Key::Backspace,
        TermCode::Enter => Key::Enter,
        TermCode::Left => Key::ArrowLeft,
        TermCode::Right => Key::ArrowRight,
        TermCode::Up => Key::ArrowUp,
        TermCode::Down => Key::ArrowDown,
        TermCode::Home => Key::Home,
        TermCode::End => Key::End,
        TermCode::PageUp => Key::PageUp,
        TermCode::PageDown => Key::PageDown,
        TermCode::Tab => Key::Tab,
        TermCode::Delete => Key::Delete,
        TermCode::Insert => Key::Insert,
        TermCode::CapsLock => Key::CapsLock,
        TermCode::ScrollLock => Key::ScrollLock,
        TermCode::NumLock => Key::NumLock,
        TermCode::PrintScreen => Key::PrintScreen,
        TermCode::Pause => Key::Pause,
        TermCode::Menu => Key::AltRight,
        TermCode::Char(c) => term_char_key(c),
        TermCode::Other => Key::Space,
    }
}

/// Maps a terminal code to its canonical key.
pub fn map_code(code: TermCode) -> (k: Key)
    ensures
        k == term_key_of(code),
{
    match code {
        TermCode::Esc => Key::Escape,
        TermCode::F(n) => match n {
            1 => Key::F1,
            2 => Key::F2,
            3 => Key::F3,
            4 => Key::F4,
            5 => Key::F5,
            6 => Key::F6,
            7 => Key::F7,
            8 => Key::F8,
            9 => Key::F9,
            10 => Key::F10,
            11 => Key::F11,
            _ => Key::F12,
        },
        TermCode::Backspace => Key::Backspace,
        TermCode::Enter => Key::Enter,
        TermCode::Left => Key::ArrowLeft,
        TermCode::Right => Key::ArrowRight,
        TermCode::Up => Key::ArrowUp,
        TermCode::Down => Key::ArrowDown,
        TermCode::Home => Key::Home,
        TermCode::End => Key::End,
        TermCode::PageUp => Key::PageUp,
        TermCode::PageDown => Key::PageDown,
        TermCode::Tab => Key::Tab,
        TermCode::Delete => Key::Delete,
        TermCode::Insert => Key::Insert,
        TermCode::CapsLock => Key::CapsLock,
        TermCode::ScrollLock => Key::ScrollLock,
        TermCode::NumLock => Key::NumLock,
        TermCode::PrintScreen => Key::PrintScreen,
        TermCode::Pause => Key::Pause,
        TermCode::Menu => Key::AltRight,
        TermCode::Char(c) => match c {
            ' ' => Key::Space,
            '1' | '!' => Key::Digit1,
            '2' | '@' => Key::Digit2,
            '3' | '#' => Key::Digit3,
            '4' | '$' => Key::Digit4,
            '5' | '%' => Key::Digit5,
            '6' | '^' => Key::Digit6,
            '7' | '&' => Key::Digit7,
            '8' | '*' => Key::Digit8,
            '9' | '(' => Key::Digit9,
            '0' | ')' => Key::Digit0,
            'a' | 'A' => Key::KeyA,
            'b' | 'B' => Key::KeyB,
            'c' | 'C' => Key::KeyC,
            'd' | 'D' => Key::KeyD,
            'e' | 'E' => Key::KeyE,
            'f' | 'F' => Key::KeyF,
            'g' | 'G' => Key::KeyG,
            'h' | 'H' => Key::KeyH,
            'i' | 'I' => Key::KeyI,
            'j' | 'J' => Key::KeyJ,
            'k' | 'K' => Key::KeyK,
            'l' | 'L' => Key::KeyL,
            'm' | 'M' => Key::KeyM,
            'n' | 'N' => Key::KeyN,
            'o' | 'O' => Key::KeyO,
            'p' | 'P' => Key::KeyP,
            'q' | 'Q' => Key::KeyQ,
            'r' | 'R' => Key::KeyR,
            's' | 'S' => Key::KeyS,
            't' | 'T' => Key::KeyT,
            'u' | 'U' => Key::KeyU,
            'v' | 'V' => Key::KeyV,
            'w' | 'W' => Key::KeyW,
            'x' | 'X' => Key::KeyX,
            'y' | 'Y' => Key::KeyY,
            'z' | 'Z' => Key::KeyZ,
            '`' | '~' => Key::Grave,
            '-' | '_' => Key::Minus,
            '=' | '+' => Key::Equal,
            '[' | '{' => Key::LeftBracket,
            ']' | '}' => Key::RightBracket,
            '\\' | '|' => Key::Backslash,
            ';' | ':' => Key::Semicolon,
            '\'' | '"' => Key::Quote,
            ',' | '<' => Key::Comma,
            '.' | '>' => Key::Period,
            '/' | '?' => Key::Slash,
            _ => Key::Space,
        },
        TermCode::Other => Key::Space,
    }
}

/// The event the fallback forwards for one terminal input: a press becomes a
/// canonical event whose modifiers come from the press's own modifier mask;
/// repeats, releases and non-key input are discarded.
pub open spec fn term_emit(e: TermEvent) -> Option<KeyEvent> {
    match e {
        TermEvent::KeyInput(k) => {
            if k.kind == TermKind::Press {
                Some(KeyEvent {
                    key: term_key_of(k.code),
                    shift: k.mods & TERM_MOD_SHIFT != 0,
                    ctrl: k.mods & TERM_MOD_CTRL != 0,
                    alt: k.mods & TERM_MOD_ALT != 0,
                })
            } else {
                None
            }
        },
        TermEvent::NonKey => None,
    }
}

/// Decodes one terminal input event: `Some` exactly when the event is a key
/// press, and then the canonical event it denotes.
pub fn term_step(e: &TermEvent) -> (res: Option<KeyEvent>)
    ensures
        res == term_emit(*e),
{
    match e {
        TermEvent::KeyInput(k) => match k.kind {
            TermKind::Press => Some(KeyEvent {
                key: map_code(k.code),
                shift: k.mods & TERM_MOD_SHIFT != 0,
                ctrl: k.mods & TERM_MOD_CTRL != 0,
                alt: k.mods & TERM_MOD_ALT != 0,
            }),
            TermKind::Repeat => None,
            TermKind::Release => None,
        },
        TermEvent::NonKey => None,
    }
}

/// The first event the fallback would forward from a finite run of terminal
/// input, or `None` when no press occurs in it.
pub open spec fn term_first_event(s: Seq<TermEvent>) -> Option<KeyEvent>
    decreases s.len(),
{
    if s.len() == 0 {
        None
    } else {
        match term_emit(s[0]) {
            Some(e) => Some(e),
            None => term_first_event(s.skip(1)),
        }
    }
}

/// Scans a finite batch of terminal input in order and returns the first
/// forwarded event, exactly one per qualifying press and none otherwise.
pub fn scan_term_events(events: &Vec<TermEvent>) -> (res: Option<KeyEvent>)
    ensures
        res == term_first_event(events@),
{
    let mut i: usize = 0;
    proof {
        assert(events@.skip(0) =~= events@);
    }
    while i < events.len()
        invariant
            i <= events@.len(),
            term_first_event(events@) == term_first_event(events@.skip(i as int)),
        decreases events@.len() - i,
    {
        proof {
            assert(events@.skip(i as int)[0] == events@[i as int]);
            assert(events@.skip(i as int).skip(1) =~= events@.skip(i as int + 1));
        }
        let emitted = term_step(&events[i]);
        match emitted {
            Some(e) => {
                return Some(e);
            },
            None => {
                i = i + 1;
            },
        }
    }
    None
}

/// A terminal input qualifies exactly when it is a key press.
pub open spec fn term_qualifies(e: TermEvent) -> bool {
    e matches TermEvent::KeyInput(k) && k.kind == TermKind::Press
}

/// Release-only and non-key terminal input never produces an event: a run
/// with no press in it forwards nothing.
pub proof fn lemma_term_no_press_no_event(s: Seq<TermEvent>)
    requires
        forall|i: int| 0 <= i < s.len() ==> !term_qualifies(s[i]),
    ensures
        term_first_event(s) == None::<KeyEvent>,
    decreases s.len(),
{
    if s.len() > 0 {
        assert(!term_qualifies(s[0]));
        assert(term_emit(s[0]) is None);
        assert(forall|i: int| 0 <= i < s.skip(1).len() ==> s.skip(1)[i] == s[i + 1]);
        lemma_term_no_press_no_event(s.skip(1));
    }
}

/// The fallback forwards exactly the first press: if index `i` holds the
/// first press of the run, the forwarded event is that press's code mapped to
/// its canonical key, with each modifier boolean equal to the corresponding
/// bit of that press's own modifier mask.
pub proof fn lemma_term_first_press_event(s: Seq<TermEvent>, i: int)
    requires
        0 <= i < s.len(),
        term_qualifies(s[i]),
        forall|j: int| 0 <= j < i ==> !term_qualifies(s[j]),
    ensures
        term_first_event(s) == term_emit(s[i]),
        term_first_event(s) is Some,
    decreases i,
{
    assert(term_emit(s[i]) is Some);
    if i == 0 {
    } else {
        assert(!term_qualifies(s[0]));
        assert(term_emit(s[0]) is None);
        assert(forall|j: int| 0 <= j < s.skip(1).len() ==> s.skip(1)[j] == s[j + 1]);
        lemma_term_first_press_event(s.skip(1), i - 1);
        assert(s.skip(1)[i - 1] == s[i]);
    }
}

} // verus!
