//! Windows console backend: decodes console input records read in raw mode.
//! The three modifiers are recomputed from every record's control-key-state
//! bitmask; a bare press of shift, control or alt only updates that state
//! and is never returned by itself. Keys are decoded from the hardware scan
//! code, with the record's extended-key flag telling the right-hand and
//! numeric-pad keys apart from the keys whose scan code they share, and the
//! virtual-key code deciding the numeric-pad digits, which no scan code of
//! their own identifies. The console mode is read before the raw-mode
//! session and restored on every path out of it.

use vstd::prelude::*;

use crate::Key;
use crate::KeyEvent;
use crate::Latch;
use crate::event_with_latch;

verus! {

/// Bit of the control-key-state bitmask for shift held.
pub const STATE_SHIFT: u32 = 0x0010;

/// Bit of the control-key-state bitmask for left control held.
pub const STATE_LEFT_CTRL: u32 = 0x0008;

/// Bit of the control-key-state bitmask for right control held.
pub const STATE_RIGHT_CTRL: u32 = 0x0004;

/// Bit of the control-key-state bitmask for left alt held.
pub const STATE_LEFT_ALT: u32 = 0x0002;

/// Bit of the control-key-state bitmask for right alt held.
pub const STATE_RIGHT_ALT: u32 = 0x0001;

/// Bit of the control-key-state bitmask marking an extended key.
pub const STATE_ENHANCED: u32 = 0x0100;

/// Virtual-key code of the undistinguished shift key.
pub const VK_SHIFT: u16 = 0x10;

/// Virtual-key code of the undistinguished control key.
pub const VK_CONTROL: u16 = 0x11;

/// Virtual-key code of the undistinguished alt (menu) key.
pub const VK_MENU: u16 = 0x12;

/// One console input record, as the raw read reports it: whether the record
/// is a key record, how many events the read returned, the key-down flag,
/// the virtual-key code, the hardware scan code, and the control-key state.
#[derive(Clone, Copy, PartialEq, Eq, Structural, Debug)]
pub struct ConsoleRecord {
    pub is_key_record: bool,
    pub events_read: u32,
    pub key_down: bool,
    pub vk: u16,
    pub scan: u16,
    pub state: u32,
}

/// The latch a record's control-key-state bitmask encodes: shift from its
/// bit, ctrl and alt each from the left and right bits or'd together.
pub open spec fn latch_of_state(state: u32) -> Latch {
    Latch {
        shift: state & STATE_SHIFT != 0,
        ctrl: state & (STATE_LEFT_CTRL | STATE_RIGHT_CTRL) != 0,
        alt: state & (STATE_LEFT_ALT | STATE_RIGHT_ALT) != 0,
    }
}

/// The canonical key for a hardware scan code, with the extended-key flag of
/// `state` disambiguating the four scan codes that right-hand and numeric-pad
/// keys share with their plain counterparts, and the virtual-key code `vk`
/// deciding the numeric-pad digits. Total: codes outside the table map to
/// the default key, never to an error.
pub open spec fn scan_key_of(scan: u32, vk: u32, state: u32) -> Key {
    match scan {
        0x01u32 => Key::Escape,
        0x3Bu32 => Key::F1,
        0x3Cu32 => Key::F2,
        0x3Du32 => Key::F3,
        0x3Eu32 => Key::F4,
        0x3Fu32 => Key::F5,
        0x40u32 => Key::F6,
        0x41u32 => Key::F7,
        0x42u32 => Key::F8,
        0x43u32 => Key::F9,
        0x44u32 => Key::F10,
        0x57u32 => Key::F11,
        0x58u32 => Key::F12,
        0x29u32 => Key::Grave,
        0x02u32 => Key::Digit1,
        0x03u32 => Key::Digit2,
        0x04u32 => Key::Digit3,
        0x05u32 => Key::Digit4,
        0x06u32 => Key::Digit5,
        0x07u32 => Key::Digit6,
        0x08u32 => Key::Digit7,
        0x09u32 => Key::Digit8,
        0x0Au32 => Key::Digit9,
        0x0Bu32 => Key::Digit0,
        0x0Cu32 => Key::Minus,
        0x0Du32 => Key::Equal,
        0x0Eu32 => Key::Backspace,
        0x0Fu32 => Key::Tab,
        0x10u32 => Key::KeyQ,
        0x11u32 => Key::KeyW,
        0x12u32 => Key::KeyE,
        0x13u32 => Key::KeyR,
        0x14u32 => Key::KeyT,
        0x15u32 => Key::KeyY,
        0x16u32 => Key::KeyU,
        0x17u32 => Key::KeyI,
        0x18u32 => Key::KeyO,
        0x19u32 => Key::KeyP,
        0x1Au32 => Key::LeftBracket,
        0x1Bu32 => Key::RightBracket,
        0x2Bu32 => Key::Backslash,
        0x3Au32 => Key::CapsLock,
        0x1Eu32 => Key::KeyA,
        0x1Fu32 => Key::KeyS,
        0x20u32 => Key::KeyD,
        0x21u32 => Key::KeyF,
        0x22u32 => Key::KeyG,
        0x23u32 => Key::KeyH,
        0x24u32 => Key::KeyJ,
        0x25u32 => Key::KeyK,
        0x26u32 => Key::KeyL,
        0x27u32 => Key::Semicolon,
        0x28u32 => Key::Quote,
        0x1Cu32 => if state & STATE_ENHANCED != 0 {
            Key::NumpadEnter
        } else {
            Key::Enter
        },
        0x2Au32 => Key::ShiftLeft,
        0x2Cu32 => Key::KeyZ,
        0x2Du32 => Key::KeyX,
        0x2Eu32 => Key::KeyC,
        0x2Fu32 => Key::KeyV,
        0x30u32 => Key::KeyB,
        0x31u32 => Key::KeyN,
        0x32u32 => Key::KeyM,
        0x33u32 => Key::Comma,
        0x34u32 => Key::Period,
        0x35u32 => if state & STATE_ENHANCED != 0 {
            Key::NumpadDivide
        } else {
            Key::Slash
        },
        0x36u32 => Key::ShiftRight,
        0x1Du32 => if state & STATE_ENHANCED != 0 {
            Key::ControlRight
        } else {
            Key::ControlLeft
        },
        0x38u32 => if state & STATE_ENHANCED != 0 {
            Key::AltRight
        } else {
            Key::AltLeft
        },
        0x39u32 => Key::Space,
        0x47u32 => Key::Home,
        0x48u32 => Key::ArrowUp,
        0x49u32 => Key::PageUp,
        0x4Bu32 => Key::ArrowLeft,
        0x4Du32 => Key::ArrowRight,
        0x4Fu32 => Key::End,
        0x50u32 => Key::ArrowDown,
        0x51u32 => Key::PageDown,
        0x52u32 => Key::Insert,
        0x53u32 => Key::Delete,
        0x45u32 => Key::NumLock,
        0x37u32 => Key::NumpadMultiply,
        0x4Au32 => Key::NumpadSubtract,
        0x4Eu32 => Key::NumpadAdd,
        _ => match vk {
            0x60u32 => Key::Numpad0,
            0x61u32 => Key::Numpad1,
            0x62u32 => Key::Numpad2,
            0x63u32 => Key::Numpad3,
            0x64u32 => Key::Numpad4,
            0x65u32 => Key::Numpad5,
            0x66u32 => Key::Numpad6,
            0x67u32 => Key::Numpad7,
            0x68u32 => Key::Numpad8,
            0x69u32 => Key::Numpad9,
            _ => Key::Space,
        },
    }
}

/// Maps a hardware scan code (with virtual-key fallback and the extended-key
/// flag of the control-key state) to its canonical key.
pub fn map_scan(scan: u32, vk: u32, state: u32) -> (k: Key)
    ensures
        k == scan_key_of(scan, vk, state),
{
    match scan {
        0x01 => Key::Escape,
        0x3B => Key::F1,
        0x3C => Key::F2,
        0x3D => Key::F3,
        0x3E => Key::F4,
        0x3F => Key::F5,
        0x40 => Key::F6,
        0x41 => Key::F7,
        0x42 => Key::F8,
        0x43 => Key::F9,
        0x44 => Key::F10,
        0x57 => Key::F11,
        0x58 => Key::F12,
        0x29 => Key::Grave,
        0x02 => Key::Digit1,
        0x03 => Key::Digit2,
        0x04 => Key::Digit3,
        0x05 => Key::Digit4,
        0x06 => Key::Digit5,
        0x07 => Key::Digit6,
        0x08 => Key::Digit7,
        0x09 => Key::Digit8,
        0x0A => Key::Digit9,
        0x0B => Key::Digit0,
        0x0C => Key::Minus,
        0x0D => Key::Equal,
        0x0E => Key::Backspace,
        0x0F => Key::Tab,
        0x10 => Key::KeyQ,
        0x11 => Key::KeyW,
        0x12 => Key::KeyE,
        0x13 => Key::KeyR,
        0x14 => Key::KeyT,
        0x15 => Key::KeyY,
        0x16 => Key::KeyU,
        0x17 => Key::KeyI,
        0x18 => Key::KeyO,
        0x19 => Key::KeyP,
        0x1A => Key::LeftBracket,
        0x1B => Key::RightBracket,
        0x2B => Key::Backslash,
        0x3A => Key::CapsLock,
        0x1E => Key::KeyA,
        0x1F => Key::KeyS,
        0x20 => Key::KeyD,
        0x21 => Key::KeyF,
        0x22 => Key::KeyG,
        0x23 => Key::KeyH,
        0x24 => Key::KeyJ,
        0x25 => Key::KeyK,
        0x26 => Key::KeyL,
        0x27 => Key::Semicolon,
        0x28 => Key::Quote,
        0x1C => if state & STATE_ENHANCED != 0 {
            Key::NumpadEnter
        } else {
            Key::Enter
        },
        0x2A => Key::ShiftLeft,
        0x2C => Key::KeyZ,
        0x2D => Key::KeyX,
        0x2E => Key::KeyC,
        0x2F => Key::KeyV,
        0x30 => Key::KeyB,
        0x31 => Key::KeyN,
        0x32 => Key::KeyM,
        0x33 => Key::Comma,
        0x34 => Key::Period,
        0x35 => if state & STATE_ENHANCED != 0 {
            Key::NumpadDivide
        } else {
            Key::Slash
        },
        0x36 => Key::ShiftRight,
        0x1D => if state & STATE_ENHANCED != 0 {
            Key::ControlRight
        } else {
            Key::ControlLeft
        },
        0x38 => if state & STATE_ENHANCED != 0 {
            Key::AltRight
        } else {
            Key::AltLeft
        },
        0x39 => Key::Space,
        0x47 => Key::Home,
        0x48 => Key::ArrowUp,
        0x49 => Key::PageUp,
        0x4B => Key::ArrowLeft,
        0x4D => Key::ArrowRight,
        0x4F => Key::End,
        0x50 => Key::ArrowDown,
        0x51 => Key::PageDown,
        0x52 => Key::Insert,
        0x53 => Key::Delete,
        0x45 => Key::NumLock,
        0x37 => Key::NumpadMultiply,
        0x4A => Key::NumpadSubtract,
        0x4E => Key::NumpadAdd,
        _ => match vk {
            0x60 => Key::Numpad0,
            0x61 => Key::Numpad1,
            0x62 => Key::Numpad2,
            0x63 => Key::Numpad3,
            0x64 => Key::Numpad4,
            0x65 => Key::Numpad5,
            0x66 => Key::Numpad6,
            0x67 => Key::Numpad7,
            0x68 => Key::Numpad8,
            0x69 => Key::Numpad9,
            _ => Key::Space,
        },
    }
}

/// A record qualifies (is returned) exactly when it is a key record with at
/// least one event read, a key-down, and not a bare modifier key.
pub open spec fn record_qualifies(r: ConsoleRecord) -> bool {
    &&& r.is_key_record
    &&& r.events_read != 0
    &&& r.key_down
    &&& r.vk != VK_SHIFT
    &&& r.vk != VK_CONTROL
    &&& r.vk != VK_MENU
}

/// The event one console record produces: a qualifying key-down becomes a
/// canonical event whose modifiers are recomputed from this record's own
/// control-key-state bitmask; skipped records (non-key, empty reads, bare
/// modifier presses, key-ups) produce nothing.
pub open spec fn record_emit(r: ConsoleRecord) -> Option<KeyEvent> {
    if record_qualifies(r) {
        Some(
            event_with_latch(
                scan_key_of(r.scan as u32, r.vk as u32, r.state),
                latch_of_state(r.state),
            ),
        )
    } else {
        None
    }
}

/// Decodes one console record: `Some` exactly when the record qualifies, and
/// then the canonical event it denotes.
pub fn console_step(r: &ConsoleRecord) -> (res: Option<KeyEvent>)
    ensures
        res == record_emit(*r),
{
    if !r.is_key_record || r.events_read == 0 {
        return None;
    }
    let shift = r.state & STATE_SHIFT != 0;
    let ctrl = r.state & (STATE_LEFT_CTRL | STATE_RIGHT_CTRL) != 0;
    let alt = r.state & (STATE_LEFT_ALT | STATE_RIGHT_ALT) != 0;
    if r.vk == VK_SHIFT || r.vk == VK_CONTROL || r.vk == VK_MENU {
        return None;
    }
    if !r.key_down {
        return None;
    }
    let key = map_scan(r.scan as u32, r.vk as u32, r.state);
    Some(KeyEvent { key, shift, ctrl, alt })
}

/// The first event a finite run of console records produces, or `None` when
/// no record in it qualifies.
pub open spec fn console_first_event(s: Seq<ConsoleRecord>) -> Option<KeyEvent>
    decreases s.len(),
{
    if s.len() == 0 {
        None
    } else {
        match record_emit(s[0]) {
            Some(e) => Some(e),
            None => console_first_event(s.skip(1)),
        }
    }
}

/// Scans a finite run of console records in order and returns the event of
/// the first qualifying key-down, or `None` when none qualifies.
pub fn scan_console_records(records: &Vec<ConsoleRecord>) -> (res: Option<KeyEvent>)
    ensures
        res == console_first_event(records@),
{
    let mut i: usize = 0;
    proof {
        assert(records@.skip(0) =~= records@);
    }
    while i < records.len()
        invariant
            i <= records@.len(),
            console_first_event(records@) == console_first_event(records@.skip(i as int)),
        decreases records@.len() - i,
    {
        proof {
            assert(records@.skip(i as int)[0] == records@[i as int]);
            assert(records@.skip(i as int).skip(1) =~= records@.skip(i as int + 1));
        }
        let emitted = console_step(&records[i]);
        match emitted {
            Some(e) => {
                return Some(e);
            },
            None => {
                i = i + 1;
            },
        }
    }
    None
}

/// Non-key records, empty reads, bare modifier presses and key-ups never
/// produce an event: a run with no qualifying record returns nothing.
pub proof fn lemma_console_no_qualifying_no_event(s: Seq<ConsoleRecord>)
    requires
        forall|i: int| 0 <= i < s.len() ==> !record_qualifies(s[i]),
    ensures
        console_first_event(s) == None::<KeyEvent>,
    decreases s.len(),
{
    if s.len() > 0 {
        assert(forall|i: int| 0 <= i < s.skip(1).len() ==> s.skip(1)[i] == s[i + 1]);
        lemma_console_no_qualifying_no_event(s.skip(1));
    }
}

/// The backend returns exactly the first qualifying record, and its modifier
/// booleans equal the latch the console reports in that record's own
/// control-key-state bitmask — the state as of the returned key's
/// down-transition.
pub proof fn lemma_console_first_qualifying_event(s: Seq<ConsoleRecord>, i: int)
    requires
        0 <= i < s.len(),
        record_qualifies(s[i]),
        forall|j: int| 0 <= j < i ==> !record_qualifies(s[j]),
    ensures
        console_first_event(s) == Some(
            event_with_latch(
                scan_key_of(s[i].scan as u32, s[i].vk as u32, s[i].state),
                latch_of_state(s[i].state),
            ),
        ),
    decreases i,
{
    if i > 0 {
        assert(forall|j: int| 0 <= j < s.skip(1).len() ==> s.skip(1)[j] == s[j + 1]);
        lemma_console_first_qualifying_event(s.skip(1), i - 1);
        assert(s.skip(1)[i - 1] == s[i]);
    }
}

/// The scoped raw-mode guard, modelled on the console-mode value it governs:
/// it stores the mode read at acquisition and is the only thing that may
/// restore it.
#[derive(Clone, Copy, PartialEq, Eq, Structural, Debug)]
pub struct ConsoleModeGuard {
    pub saved: u32,
}

/// The minimal (raw) console mode the guarded region runs under.
pub const RAW_CONSOLE_MODE: u32 = 0;

/// Acquiring the guard over the current console mode.
pub open spec fn guard_acquire_spec(mode: u32) -> ConsoleModeGuard {
    ConsoleModeGuard { saved: mode }
}

/// Releasing the guard yields the mode to write back to the console.
pub open spec fn guard_release_spec(g: ConsoleModeGuard) -> u32 {
    g.saved
}

/// The console-mode guard is idempotent over a whole session: releasing what
/// acquisition saved restores exactly the mode read before, whatever it was.
pub proof fn lemma_guard_round_trip(mode: u32)
    ensures
        guard_release_spec(guard_acquire_spec(mode)) == mode,
{
}

impl ConsoleModeGuard {
    /// Acquires the guard: stores the mode currently read from the console
    /// and names the raw mode the console is to be set to for the session.
    pub fn acquire(mode: u32) -> (res: (ConsoleModeGuard, u32))
        ensures
            res.0 == guard_acquire_spec(mode),
            res.1 == RAW_CONSOLE_MODE,
    {
        (ConsoleModeGuard { saved: mode }, RAW_CONSOLE_MODE)
    }

    /// Releases the guard: the mode to write back, always the one saved.
    pub fn release(self) -> (mode: u32)
        ensures
            mode == guard_release_spec(self),
    {
        self.saved
    }
}

/// How a guarded console session ends: with the records read (and possibly
/// an event), or by yielding to the fallback backend because the raw-mode
/// guard could not be acquired.
#[derive(Clone, Copy, PartialEq, Eq, Structural, Debug)]
pub enum ConsoleOutcome {
    Read(Option<KeyEvent>),
    FellBack,
}

/// One whole guarded session over a finite run of records: acquire the
/// guard, scan, release. The console mode after the session equals the mode
/// before it on every path out — including the path on which the guard could
/// not be acquired and the read fell back.
pub fn console_session(mode_before: u32, acquire_ok: bool, records: &Vec<ConsoleRecord>) -> (res: (
    u32,
    ConsoleOutcome,
))
    ensures
        res.0 == mode_before,
        acquire_ok ==> res.1 == ConsoleOutcome::Read(console_first_event(records@)),
        !acquire_ok ==> res.1 == ConsoleOutcome::FellBack,
{
    if !acquire_ok {
        return (mode_before, ConsoleOutcome::FellBack);
    }
    let (guard, _raw) = ConsoleModeGuard::acquire(mode_before);
    let found = scan_console_records(records);
    let restored = guard.release();
    (restored, ConsoleOutcome::Read(found))
}

} // verus!
