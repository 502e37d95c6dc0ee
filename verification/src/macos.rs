//! macOS event-tap backend: decodes the key-down events a passive tap
//! observes. The tap reports only key-downs, so a bare modifier press is
//! never returned by itself; the modifiers appear fused into the next
//! regular key's event, read from that event's own flag bitmask
//! (left and right variants are not distinguished).

use vstd::prelude::*;

use crate::Key;
use crate::KeyEvent;

verus! {

/// Bit of the event-flag bitmask that reports shift held.
pub const TAP_FLAG_SHIFT: u64 = 0x0002_0000;

/// Bit of the event-flag bitmask that reports control held.
pub const TAP_FLAG_CTRL: u64 = 0x0004_0000;

/// Bit of the event-flag bitmask that reports alternate (option) held.
pub const TAP_FLAG_ALT: u64 = 0x0008_0000;

/// One event observed by the tap: whether it is a key-down, the virtual key
/// code, and the event's modifier-flag bitmask.
#[derive(Clone, Copy, PartialEq, Eq, Structural, Debug)]
pub struct TapEvent {
    pub key_down: bool,
    pub code: u16,
    pub flags: u64,
}

/// The canonical key for a macOS virtual key code. Total: codes outside the
/// table — among them the extended function-key block the canonical model
/// does not carry — map to the default key, never to an error.
pub open spec fn macos_key_of(code: u16) -> Key {
    match code {
        0x00u16 => Key::KeyA,
        0x01u16 => Key::KeyS,
        0x02u16 => Key::KeyD,
        0x03u16 => Key::KeyF,
        0x04u16 => Key::KeyH,
        0x05u16 => Key::KeyG,
        0x06u16 => Key::KeyZ,
        0x07u16 => Key::KeyX,
        0x08u16 => Key::KeyC,
        0x09u16 => Key::KeyV,
        0x0Au16 => Key::KeyB,
        0x0Bu16 => Key::KeyQ,
        0x0Cu16 => Key::KeyW,
        0x0Du16 => Key::KeyE,
        0x0Eu16 => Key::KeyR,
        0x0Fu16 => Key::KeyY,
        0x10u16 => Key::KeyT,
        0x11u16 => Key::Digit1,
        0x12u16 => Key::Digit2,
        0x13u16 => Key::Digit3,
        0x14u16 => Key::Digit4,
        0x15u16 => Key::Digit6,
        0x16u16 => Key::Digit5,
        0x17u16 => Key::Equal,
        0x18u16 => Key::Digit9,
        0x19u16 => Key::Digit7,
        0x1Au16 => Key::Minus,
        0x1Bu16 => Key::Digit8,
        0x1Cu16 => Key::Digit0,
        0x1Du16 => Key::RightBracket,
        0x1Eu16 => Key::KeyO,
        0x1Fu16 => Key::KeyU,
        0x20u16 => Key::LeftBracket,
        0x21u16 => Key::KeyI,
        0x22u16 => Key::KeyP,
        0x23u16 => Key::Enter,
        0x24u16 => Key::KeyL,
        0x25u16 => Key::KeyJ,
        0x26u16 => Key::Quote,
        0x27u16 => Key::KeyK,
        0x28u16 => Key::Semicolon,
        0x29u16 => Key::Backslash,
        0x2Au16 => Key::Comma,
        0x2Bu16 => Key::Slash,
        0x2Cu16 => Key::KeyN,
        0x2Du16 => Key::KeyM,
        0x2Eu16 => Key::Period,
        0x2Fu16 => Key::Tab,
        0x30u16 => Key::Space,
        0x31u16 => Key::Grave,
        0x32u16 => Key::Backspace,
        0x33u16 => Key::Escape,
        0x34u16 => Key::ArrowRight,
        0x35u16 => Key::ArrowLeft,
        0x36u16 => Key::ArrowDown,
        0x37u16 => Key::ArrowUp,
        0x38u16 => Key::ShiftLeft,
        0x39u16 => Key::CapsLock,
        0x3Au16 => Key::AltLeft,
        0x3Bu16 => Key::ControlLeft,
        0x3Cu16 => Key::ShiftRight,
        0x3Du16 => Key::AltRight,
        0x3Eu16 => Key::ControlRight,
        0x43u16 => Key::F5,
        0x44u16 => Key::F6,
        0x45u16 => Key::F7,
        0x46u16 => Key::F3,
        0x47u16 => Key::F8,
        0x48u16 => Key::F9,
        0x49u16 => Key::F10,
        0x4Au16 => Key::F11,
        0x4Bu16 => Key::F12,
        _ => Key::Space,
    }
}

/// Maps a macOS virtual key code to its canonical key.
pub fn map_keycode(code: u16) -> (k: Key)
    ensures
        k == macos_key_of(code),
{
    match code {
        0x00 => Key::KeyA,
        0x01 => Key::KeyS,
        0x02 => Key::KeyD,
        0x03 => Key::KeyF,
        0x04 => Key::KeyH,
        0x05 => Key::KeyG,
        0x06 => Key::KeyZ,
        0x07 => Key::KeyX,
        0x08 => Key::KeyC,
        0x09 => Key::KeyV,
        0x0A => Key::KeyB,
        0x0B => Key::KeyQ,
        0x0C => Key::KeyW,
        0x0D => Key::KeyE,
        0x0E => Key::KeyR,
        0x0F => Key::KeyY,
        0x10 => Key::KeyT,
        0x11 => Key::Digit1,
        0x12 => Key::Digit2,
        0x13 => Key::Digit3,
        0x14 => Key::Digit4,
        0x15 => Key::Digit6,
        0x16 => Key::Digit5,
        0x17 => Key::Equal,
        0x18 => Key::Digit9,
        0x19 => Key::Digit7,
        0x1A => Key::Minus,
        0x1B => Key::Digit8,
        0x1C => Key::Digit0,
        0x1D => Key::RightBracket,
        0x1E => Key::KeyO,
        0x1F => Key::KeyU,
        0x20 => Key::LeftBracket,
        0x21 => Key::KeyI,
        0x22 => Key::KeyP,
        0x23 => Key::Enter,
        0x24 => Key::KeyL,
        0x25 => Key::KeyJ,
        0x26 => Key::Quote,
        0x27 => Key::KeyK,
        0x28 => Key::Semicolon,
        0x29 => Key::Backslash,
        0x2A => Key::Comma,
        0x2B => Key::Slash,
        0x2C => Key::KeyN,
        0x2D => Key::KeyM,
        0x2E => Key::Period,
        0x2F => Key::Tab,
        0x30 => Key::Space,
        0x31 => Key::Grave,
        0x32 => Key::Backspace,
        0x33 => Key::Escape,
        0x34 => Key::ArrowRight,
        0x35 => Key::ArrowLeft,
        0x36 => Key::ArrowDown,
        0x37 => Key::ArrowUp,
        0x38 => Key::ShiftLeft,
        0x39 => Key::CapsLock,
        0x3A => Key::AltLeft,
        0x3B => Key::ControlLeft,
        0x3C => Key::ShiftRight,
        0x3D => Key::AltRight,
        0x3E => Key::ControlRight,
        0x43 => Key::F5,
        0x44 => Key::F6,
        0x45 => Key::F7,
        0x46 => Key::F3,
        0x47 => Key::F8,
        0x48 => Key::F9,
        0x49 => Key::F10,
        0x4A => Key::F11,
        0x4B => Key::F12,
        _ => Key::Space,
    }
}

/// The event one tap observation produces: a key-down becomes a canonical
/// event whose modifiers are the shift, control and alternate bits of the
/// observation's own flag bitmask; anything else produces nothing.
pub open spec fn tap_emit(e: TapEvent) -> Option<KeyEvent> {
    if e.key_down {
        Some(KeyEvent {
            key: macos_key_of(e.code),
            shift: e.flags & TAP_FLAG_SHIFT != 0,
            ctrl: e.flags & TAP_FLAG_CTRL != 0,
            alt: e.flags & TAP_FLAG_ALT != 0,
        })
    } else {
        None
    }
}

/// Decodes one tap observation: `Some` exactly when it is a key-down, and
/// then the canonical event it denotes.
pub fn decode_tap_event(e: &TapEvent) -> (res: Option<KeyEvent>)
    ensures
        res == tap_emit(*e),
{
    if e.key_down {
        Some(KeyEvent {
            key: map_keycode(e.code),
            shift: e.flags & TAP_FLAG_SHIFT != 0,
            ctrl: e.flags & TAP_FLAG_CTRL != 0,
            alt: e.flags & TAP_FLAG_ALT != 0,
        })
    } else {
        None
    }
}

/// The first event the tap would deliver from a finite run of observations:
/// only the first key-down is ever delivered, and a run with no key-down
/// delivers nothing.
pub open spec fn tap_first_event(s: Seq<TapEvent>) -> Option<KeyEvent>
    decreases s.len(),
{
    if s.len() == 0 {
        None
    } else {
        match tap_emit(s[0]) {
            Some(e) => Some(e),
            None => tap_first_event(s.skip(1)),
        }
    }
}

/// Scans a finite run of tap observations in order and returns the event of
/// the first key-down, or `None` when no key-down occurs in it.
pub fn scan_tap_events(events: &Vec<TapEvent>) -> (res: Option<KeyEvent>)
    ensures
        res == tap_first_event(events@),
{
    let mut i: usize = 0;
    proof {
        assert(events@.skip(0) =~= events@);
    }
    while i < events.len()
        invariant
            i <= events@.len(),
            tap_first_event(events@) == tap_first_event(events@.skip(i as int)),
        decreases events@.len() - i,
    {
        proof {
            assert(events@.skip(i as int)[0] == events@[i as int]);
            assert(events@.skip(i as int).skip(1) =~= events@.skip(i as int + 1));
        }
        let emitted = decode_tap_event(&events[i]);
        match emitted {
            Some(e) => {
                return Some(e);
            },
            None => {
                i = i + 1;
            },
        }
    }
    None
}

/// A run of observations with no key-down delivers nothing.
pub proof fn lemma_tap_no_key_down_no_event(s: Seq<TapEvent>)
    requires
        forall|i: int| 0 <= i < s.len() ==> !s[i].key_down,
    ensures
        tap_first_event(s) == None::<KeyEvent>,
    decreases s.len(),
{
    if s.len() > 0 {
        assert(forall|i: int| 0 <= i < s.skip(1).len() ==> s.skip(1)[i] == s[i + 1]);
        lemma_tap_no_key_down_no_event(s.skip(1));
    }
}

/// The tap delivers exactly the first key-down of the run, with each
/// modifier boolean equal to the corresponding flag bit of that key-down's
/// own bitmask.
pub proof fn lemma_tap_first_key_down_event(s: Seq<TapEvent>, i: int)
    requires
        0 <= i < s.len(),
        s[i].key_down,
        forall|j: int| 0 <= j < i ==> !s[j].key_down,
    ensures
        tap_first_event(s) == tap_emit(s[i]),
        tap_first_event(s) is Some,
    decreases i,
{
    if i > 0 {
        assert(forall|j: int| 0 <= j < s.skip(1).len() ==> s.skip(1)[j] == s[j + 1]);
        lemma_tap_first_key_down_event(s.skip(1), i - 1);
        assert(s.skip(1)[i - 1] == s[i]);
    }
}

} // verus!
