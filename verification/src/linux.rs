//! Linux keyboard-device backend: maps raw input-device key codes to
//! canonical keys, tracks the modifier latch from press/release reports, and
//! decides which device node the discovery procedure picks. On this backend a
//! bare modifier press is itself returned, with the latch already reflecting
//! its own just-set state.

use vstd::prelude::*;

use crate::Key;
use crate::KeyEvent;
use crate::Latch;
use crate::event_with_latch;
use crate::is_alt_key;
use crate::is_ctrl_key;
use crate::is_shift_key;

verus! {

/// Report type carrying key transitions (`EV_KEY` of the input protocol).
pub const REPORT_KEY: u16 = 0x01;

/// Transition value of a key press in a raw report.
pub const PRESS: i32 = 1;

/// Transition value of a key release in a raw report.
pub const RELEASE: i32 = 0;

/// One raw report read from an input device node: the report type, the raw
/// key code, and the transition value (press, release, or auto-repeat).
#[derive(Clone, Copy, PartialEq, Eq, Structural, Debug)]
pub struct RawReport {
    pub rtype: u16,
    pub code: u16,
    pub value: i32,
}

/// The canonical key for a raw input-device key code, following the standard
/// Linux key-code assignment. Total: codes outside the table map to the
/// default key, never to an error.
pub open spec fn evdev_key_of(code: u16) -> Key {
    match code {
        1u16 => Key::Escape,
        2u16 => Key::Digit1,
        3u16 => Key::Digit2,
        4u16 => Key::Digit3,
        5u16 => Key::Digit4,
        6u16 => Key::Digit5,
        7u16 => Key::Digit6,
        8u16 => Key::Digit7,
        9u16 => Key::Digit8,
        10u16 => Key::Digit9,
        11u16 => Key::Digit0,
        12u16 => Key::Minus,
        13u16 => Key::Equal,
        14u16 => Key::Backspace,
        15u16 => Key::Tab,
        16u16 => Key::KeyQ,
        17u16 => Key::KeyW,
        18u16 => Key::KeyE,
        19u16 => Key::KeyR,
        20u16 => Key::KeyT,
        21u16 => Key::KeyY,
        22u16 => Key::KeyU,
        23u16 => Key::KeyI,
        24u16 => Key::KeyO,
        25u16 => Key::KeyP,
        26u16 => Key::LeftBracket,
        27u16 => Key::RightBracket,
        28u16 => Key::Enter,
        29u16 => Key::ControlLeft,
        30u16 => Key::KeyA,
        31u16 => Key::KeyS,
        32u16 => Key::KeyD,
        33u16 => Key::KeyF,
        34u16 => Key::KeyG,
        35u16 => Key::KeyH,
        36u16 => Key::KeyJ,
        37u16 => Key::KeyK,
        38u16 => Key::KeyL,
        39u16 => Key::Semicolon,
        40u16 => Key::Quote,
        41u16 => Key::Grave,
        42u16 => Key::ShiftLeft,
        43u16 => Key::Backslash,
        44u16 => Key::KeyZ,
        45u16 => Key::KeyX,
        46u16 => Key::KeyC,
        47u16 => Key::KeyV,
        48u16 => Key::KeyB,
        49u16 => Key::KeyN,
        50u16 => Key::KeyM,
        51u16 => Key::Comma,
        52u16 => Key::Period,
        53u16 => Key::Slash,
        54u16 => Key::ShiftRight,
        55u16 => Key::NumpadMultiply,
        56u16 => Key::AltLeft,
        57u16 => Key::Space,
        58u16 => Key::CapsLock,
        59u16 => Key::F1,
        60u16 => Key::F2,
        61u16 => Key::F3,
        62u16 => Key::F4,
        63u16 => Key::F5,
        64u16 => Key::F6,
        65u16 => Key::F7,
        66u16 => Key::F8,
        67u16 => Key::F9,
        68u16 => Key::F10,
        69u16 => Key::NumLock,
        70u16 => Key::ScrollLock,
        71u16 => Key::Numpad7,
        72u16 => Key::Numpad8,
        73u16 => Key::Numpad9,
        74u16 => Key::NumpadSubtract,
        75u16 => Key::Numpad4,
        76u16 => Key::Numpad5,
        77u16 => Key::Numpad6,
        78u16 => Key::NumpadAdd,
        79u16 => Key::Numpad1,
        80u16 => Key::Numpad2,
        81u16 => Key::Numpad3,
        82u16 => Key::Numpad0,
        83u16 => Key::NumpadDecimal,
        87u16 => Key::F11,
        88u16 => Key::F12,
        96u16 => Key::NumpadEnter,
        97u16 => Key::ControlRight,
        98u16 => Key::NumpadDivide,
        100u16 => Key::AltRight,
        102u16 => Key::Home,
        103u16 => Key::ArrowUp,
        104u16 => Key::PageUp,
        105u16 => Key::ArrowLeft,
        106u16 => Key::ArrowRight,
        107u16 => Key::End,
        108u16 => Key::ArrowDown,
        109u16 => Key::PageDown,
        110u16 => Key::Insert,
        111u16 => Key::Delete,
        119u16 => Key::Pause,
        210u16 => Key::PrintScreen,
        _ => Key::Space,
    }
}

/// Maps a raw input-device key code to its canonical key.
pub fn map_evdev_key(code: u16) -> (k: Key)
    ensures
        k == evdev_key_of(code),
{
    match code {
        1 => Key::Escape,
        2 => Key::Digit1,
        3 => Key::Digit2,
        4 => Key::Digit3,
        5 => Key::Digit4,
        6 => Key::Digit5,
        7 => Key::Digit6,
        8 => Key::Digit7,
        9 => Key::Digit8,
        10 => Key::Digit9,
        11 => Key::Digit0,
        12 => Key::Minus,
        13 => Key::Equal,
        14 => Key::Backspace,
        15 => Key::Tab,
        16 => Key::KeyQ,
        17 => Key::KeyW,
        18 => Key::KeyE,
        19 => Key::KeyR,
        20 => Key::KeyT,
        21 => Key::KeyY,
        22 => Key::KeyU,
        23 => Key::KeyI,
        24 => Key::KeyO,
        25 => Key::KeyP,
        26 => Key::LeftBracket,
        27 => Key::RightBracket,
        28 => Key::Enter,
        29 => Key::ControlLeft,
        30 => Key::KeyA,
        31 => Key::KeyS,
        32 => Key::KeyD,
        33 => Key::KeyF,
        34 => Key::KeyG,
        35 => Key::KeyH,
        36 => Key::KeyJ,
        37 => Key::KeyK,
        38 => Key::KeyL,
        39 => Key::Semicolon,
        40 => Key::Quote,
        41 => Key::Grave,
        42 => Key::ShiftLeft,
        43 => Key::Backslash,
        44 => Key::KeyZ,
        45 => Key::KeyX,
        46 => Key::KeyC,
        47 => Key::KeyV,
        48 => Key::KeyB,
        49 => Key::KeyN,
        50 => Key::KeyM,
        51 => Key::Comma,
        52 => Key::Period,
        53 => Key::Slash,
        54 => Key::ShiftRight,
        55 => Key::NumpadMultiply,
        56 => Key::AltLeft,
        57 => Key::Space,
        58 => Key::CapsLock,
        59 => Key::F1,
        60 => Key::F2,
        61 => Key::F3,
        62 => Key::F4,
        63 => Key::F5,
        64 => Key::F6,
        65 => Key::F7,
        66 => Key::F8,
        67 => Key::F9,
        68 => Key::F10,
        69 => Key::NumLock,
        70 => Key::ScrollLock,
        71 => Key::Numpad7,
        72 => Key::Numpad8,
        73 => Key::Numpad9,
        74 => Key::NumpadSubtract,
        75 => Key::Numpad4,
        76 => Key::Numpad5,
        77 => Key::Numpad6,
        78 => Key::NumpadAdd,
        79 => Key::Numpad1,
        80 => Key::Numpad2,
        81 => Key::Numpad3,
        82 => Key::Numpad0,
        83 => Key::NumpadDecimal,
        87 => Key::F11,
        88 => Key::F12,
        96 => Key::NumpadEnter,
        97 => Key::ControlRight,
        98 => Key::NumpadDivide,
        100 => Key::AltRight,
        102 => Key::Home,
        103 => Key::ArrowUp,
        104 => Key::PageUp,
        105 => Key::ArrowLeft,
        106 => Key::ArrowRight,
        107 => Key::End,
        108 => Key::ArrowDown,
        109 => Key::PageDown,
        110 => Key::Insert,
        111 => Key::Delete,
        119 => Key::Pause,
        210 => Key::PrintScreen,
        _ => Key::Space,
    }
}

/// A raw report qualifies (is returned) exactly when it is a key press.
pub open spec fn report_is_press(r: RawReport) -> bool {
    r.rtype == REPORT_KEY && r.value == PRESS
}

/// The latch after one raw report: a press of a modifier key sets its flag, a
/// release clears it; every other report (non-key, auto-repeat, other keys)
/// leaves the latch unchanged.
pub open spec fn latch_step(m: Latch, r: RawReport) -> Latch {
    if r.rtype != REPORT_KEY {
        m
    } else {
        let k = evdev_key_of(r.code);
        if r.value == PRESS {
            Latch {
                shift: m.shift || is_shift_key(k),
                ctrl: m.ctrl || is_ctrl_key(k),
                alt: m.alt || is_alt_key(k),
            }
        } else if r.value == RELEASE {
            Latch {
                shift: m.shift && !is_shift_key(k),
                ctrl: m.ctrl && !is_ctrl_key(k),
                alt: m.alt && !is_alt_key(k),
            }
        } else {
            m
        }
    }
}

/// The latch moves only on modifier-key transitions: a report that is not a
/// key transition of one of the six modifier keys leaves it unchanged.
pub proof fn lemma_latch_moves_only_on_modifiers(m: Latch, r: RawReport)
    requires
        !crate::is_modifier_key(evdev_key_of(r.code)),
    ensures
        latch_step(m, r) == m,
{
}

/// The event one raw report produces under latch `m`: a key press is returned
/// at once — for a bare modifier press the latch already reflects its own
/// just-set flag — and everything else produces nothing.
pub open spec fn report_emit(m: Latch, r: RawReport) -> Option<KeyEvent> {
    if report_is_press(r) {
        Some(event_with_latch(evdev_key_of(r.code), latch_step(m, r)))
    } else {
        None
    }
}

/// Processes one raw report under latch `m`: the updated latch, and the event
/// to return, if this report is a key press.
pub fn linux_step(m: Latch, r: RawReport) -> (res: (Latch, Option<KeyEvent>))
    ensures
        res.0 == latch_step(m, r),
        res.1 == report_emit(m, r),
{
    if r.rtype != REPORT_KEY {
        return (m, None);
    }
    let k = map_evdev_key(r.code);
    if r.value == PRESS {
        let shift = m.shift || matches!(k, Key::ShiftLeft | Key::ShiftRight);
        let ctrl = m.ctrl || matches!(k, Key::ControlLeft | Key::ControlRight);
        let alt = m.alt || matches!(k, Key::AltLeft | Key::AltRight);
        let m2 = Latch { shift, ctrl, alt };
        (m2, Some(KeyEvent { key: k, shift: m2.shift, ctrl: m2.ctrl, alt: m2.alt }))
    } else if r.value == RELEASE {
        let shift = m.shift && !matches!(k, Key::ShiftLeft | Key::ShiftRight);
        let ctrl = m.ctrl && !matches!(k, Key::ControlLeft | Key::ControlRight);
        let alt = m.alt && !matches!(k, Key::AltLeft | Key::AltRight);
        (Latch { shift, ctrl, alt }, None)
    } else {
        (m, None)
    }
}

/// Scanning a run of raw reports under latch `m`: the latch at the point the
/// scan stops, and the first returned event, or `None` when no press occurs.
pub open spec fn linux_scan_spec(m: Latch, s: Seq<RawReport>) -> (Latch, Option<KeyEvent>)
    decreases s.len(),
{
    if s.len() == 0 {
        (m, None)
    } else {
        let m2 = latch_step(m, s[0]);
        match report_emit(m, s[0]) {
            Some(e) => (m2, Some(e)),
            None => linux_scan_spec(m2, s.skip(1)),
        }
    }
}

/// Scans a finite batch of raw reports in order, starting from latch `m0`:
/// returns the latch to carry into the next batch and the first event a press
/// produced, or `None` when the batch holds no press.
pub fn scan_reports(m0: Latch, reports: &Vec<RawReport>) -> (res: (Latch, Option<KeyEvent>))
    ensures
        res == linux_scan_spec(m0, reports@),
{
    let mut m = m0;
    let mut i: usize = 0;
    proof {
        assert(reports@.skip(0) =~= reports@);
    }
    while i < reports.len()
        invariant
            i <= reports@.len(),
            linux_scan_spec(m0, reports@) == linux_scan_spec(m, reports@.skip(i as int)),
        decreases reports@.len() - i,
    {
        proof {
            assert(reports@.skip(i as int)[0] == reports@[i as int]);
            assert(reports@.skip(i as int).skip(1) =~= reports@.skip(i as int + 1));
        }
        let (m2, emitted) = linux_step(m, reports[i]);
        m = m2;
        match emitted {
            Some(e) => {
                return (m, Some(e));
            },
            None => {
                i = i + 1;
            },
        }
    }
    (m, None)
}

/// The latch after folding a whole run of raw reports, starting from `m`.
pub open spec fn latch_through(m: Latch, s: Seq<RawReport>) -> Latch
    decreases s.len(),
{
    if s.len() == 0 {
        m
    } else {
        latch_through(latch_step(m, s[0]), s.skip(1))
    }
}

/// Non-key and release-only input never produces an event: a run of raw
/// reports with no press in it returns nothing, and leaves the latch equal to
/// the fold of its transitions.
pub proof fn lemma_linux_no_press_no_event(m: Latch, s: Seq<RawReport>)
    requires
        forall|i: int| 0 <= i < s.len() ==> !report_is_press(s[i]),
    ensures
        linux_scan_spec(m, s) == (latch_through(m, s), None::<KeyEvent>),
    decreases s.len(),
{
    if s.len() > 0 {
        assert(!report_is_press(s[0]));
        assert(forall|i: int| 0 <= i < s.skip(1).len() ==> s.skip(1)[i] == s[i + 1]);
        lemma_linux_no_press_no_event(latch_step(m, s[0]), s.skip(1));
    }
}

/// The backend returns exactly the first press of the run, and its modifier
/// booleans equal the latch computed purely from the down/up transitions
/// observed before and including that press's own down-transition: the scan
/// of a run whose first press stands at index `i` yields the key of report
/// `i` under the latch folded through reports `0 ..= i`.
pub proof fn lemma_linux_first_press_event(m: Latch, s: Seq<RawReport>, i: int)
    requires
        0 <= i < s.len(),
        report_is_press(s[i]),
        forall|j: int| 0 <= j < i ==> !report_is_press(s[j]),
    ensures
        linux_scan_spec(m, s).1 == Some(
            event_with_latch(evdev_key_of(s[i].code), latch_through(m, s.take(i + 1))),
        ),
    decreases i,
{
    if i == 0 {
        reveal_with_fuel(latch_through, 2);
        assert(s.take(1)[0] == s[0]);
        assert(s.take(1).skip(1) =~= Seq::<RawReport>::empty());
        assert(latch_through(m, s.take(1)) == latch_step(m, s[0]));
    } else {
        assert(!report_is_press(s[0]));
        assert(forall|j: int| 0 <= j < s.skip(1).len() ==> s.skip(1)[j] == s[j + 1]);
        lemma_linux_first_press_event(latch_step(m, s[0]), s.skip(1), i - 1);
        assert(s.skip(1)[i - 1] == s[i]);
        assert(s.take(i + 1)[0] == s[0]);
        assert(s.take(i + 1).skip(1) =~= s.skip(1).take(i));
        assert(latch_through(m, s.take(i + 1)) == latch_through(
            latch_step(m, s[0]),
            s.skip(1).take(i),
        ));
    }
}

/// Where the device discovery settled: a named entry of the by-path
/// directory, or a generic event-device node picked by the capability probe.
#[derive(Clone, Copy, PartialEq, Eq, Structural, Debug)]
pub enum KeyboardChoice {
    ByPath(usize),
    EventNode(usize),
}

/// The marker a by-path entry name must contain to signal a keyboard.
pub open spec fn kbd_marker() -> Seq<u8> {
    seq![45u8, 107u8, 98u8, 100u8]
}

/// Whether a by-path entry name signals a keyboard: it contains the marker
/// `-kbd` somewhere.
pub open spec fn marks_keyboard(name: Seq<u8>) -> bool {
    exists|i: int| 0 <= i && i + 4 <= name.len() && #[trigger] name.subrange(i, i + 4) == kbd_marker()
}

/// Whether one entry name (as bytes) contains the keyboard marker `-kbd`.
pub fn name_marks_keyboard(name: &Vec<u8>) -> (r: bool)
    ensures
        r == marks_keyboard(name@),
{
    if name.len() < 4 {
        proof {
            if marks_keyboard(name@) {
                let i = choose|i: int|
                    0 <= i && i + 4 <= name@.len() && #[trigger] name@.subrange(i, i + 4)
                        == kbd_marker();
                assert(false);
            }
        }
        return false;
    }
    let mut i: usize = 0;
    while i <= name.len() - 4
        invariant
            name@.len() >= 4,
            i <= name@.len() - 3,
            forall|j: int| 0 <= j < i ==> #[trigger] name@.subrange(j, j + 4) != kbd_marker(),
        decreases name@.len() - i,
    {
        if name[i] == 45 && name[i + 1] == 107 && name[i + 2] == 98 && name[i + 3] == 100 {
            proof {
                assert(name@.subrange(i as int, i as int + 4) =~= kbd_marker());
            }
            return true;
        }
        proof {
            let j = i as int;
            if name@.subrange(j, j + 4) == kbd_marker() {
                assert(name@.subrange(j, j + 4)[0] == name@[j]);
                assert(name@.subrange(j, j + 4)[1] == name@[j + 1]);
                assert(name@.subrange(j, j + 4)[2] == name@[j + 2]);
                assert(name@.subrange(j, j + 4)[3] == name@[j + 3]);
                assert(false);
            }
        }
        i = i + 1;
    }
    false
}

/// Decides where device discovery settles, in the stated priority order: the
/// first by-path entry whose name contains the keyboard marker; failing that,
/// the first event-device node whose capability probe succeeded; failing
/// both, nothing, and the caller yields to the fallback backend.
pub fn choose_keyboard(names: &Vec<Vec<u8>>, node_probe: &Vec<bool>) -> (r: Option<
    KeyboardChoice,
>)
    ensures
        match r {
            Some(KeyboardChoice::ByPath(i)) => i < names@.len() && marks_keyboard(names@[i as int]@)
                && (forall|j: int| 0 <= j < i ==> !marks_keyboard(names@[j]@)),
            Some(KeyboardChoice::EventNode(i)) => i < node_probe@.len() && node_probe@[i as int] && (
            forall|j: int| 0 <= j < i ==> !node_probe@[j]) && (forall|j: int|
                0 <= j < names@.len() ==> !marks_keyboard(names@[j]@)),
            None => (forall|j: int| 0 <= j < names@.len() ==> !marks_keyboard(names@[j]@)) && (
            forall|j: int| 0 <= j < node_probe@.len() ==> !node_probe@[j]),
        },
{
    let mut i: usize = 0;
    while i < names.len()
        invariant
            i <= names@.len(),
            forall|j: int| 0 <= j < i ==> !marks_keyboard(names@[j]@),
        decreases names@.len() - i,
    {
        if name_marks_keyboard(&names[i]) {
            return Some(KeyboardChoice::ByPath(i));
        }
        i = i + 1;
    }
    let mut n: usize = 0;
    while n < node_probe.len()
        invariant
            n <= node_probe@.len(),
            forall|j: int| 0 <= j < names@.len() ==> !marks_keyboard(names@[j]@),
            forall|j: int| 0 <= j < n ==> !node_probe@[j],
        decreases node_probe@.len() - n,
    {
        if node_probe[n] {
            return Some(KeyboardChoice::EventNode(n));
        }
        n = n + 1;
    }
    None
}

} // verus!
