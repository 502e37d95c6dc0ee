//! A blocking, single-key-event reader core: canonical key model, per-backend
//! raw-code mapping tables, modifier latch tracking, and the decision logic of
//! each platform backend (Linux input device, macOS event tap, Windows
//! console, portable terminal fallback). The platform I/O that feeds these
//! functions lives outside the library; everything here is pure and verified.

use vstd::prelude::*;

pub mod dispatch;
pub mod fallback;
pub mod linux;
pub mod macos;
pub mod windows;

verus! {

/// A physical key position, independent of the character it produces.
///
/// Shifted and unshifted symbols on the same physical key map to the same
/// variant. Raw codes that no backend table classifies map to `Key::Space`,
/// the defined default, rather than to an error.
#[derive(Clone, Copy, PartialEq, Eq, Structural, Debug)]
pub enum Key {
    Escape,
    F1, F2, F3, F4, F5, F6, F7, F8, F9, F10, F11, F12,
    Grave,
    Digit1, Digit2, Digit3, Digit4, Digit5, Digit6, Digit7, Digit8, Digit9, Digit0,
    Minus, Equal,
    Backspace,
    Tab,
    KeyQ, KeyW, KeyE, KeyR, KeyT, KeyY, KeyU, KeyI, KeyO, KeyP,
    LeftBracket, RightBracket, Backslash,
    CapsLock,
    KeyA, KeyS, KeyD, KeyF, KeyG, KeyH, KeyJ, KeyK, KeyL,
    Semicolon, Quote, Enter,
    ShiftLeft, KeyZ, KeyX, KeyC, KeyV, KeyB, KeyN, KeyM,
    Comma, Period, Slash, ShiftRight,
    ControlLeft, AltLeft, Space, AltRight, ControlRight,
    ArrowLeft, ArrowRight, ArrowUp, ArrowDown,
    Insert, Delete, Home, End, PageUp, PageDown,
    NumLock,
    Numpad0, Numpad1, Numpad2, Numpad3, Numpad4, Numpad5, Numpad6, Numpad7, Numpad8, Numpad9,
    NumpadDivide, NumpadMultiply, NumpadSubtract, NumpadAdd, NumpadEnter, NumpadDecimal,
    PrintScreen, ScrollLock, Pause,
}

/// One reported key press: the physical key that transitioned to pressed and
/// the modifier keys held at the instant that transition was observed.
#[derive(Clone, Copy, PartialEq, Eq, Structural, Debug)]
pub struct KeyEvent {
    pub key: Key,
    pub shift: bool,
    pub ctrl: bool,
    pub alt: bool,
}

/// The latch state: which of shift, ctrl and alt are currently held, as
/// tracked from the down/up transitions one backend observes during a single
/// call. It is created released and discarded when the call returns.
#[derive(Clone, Copy, PartialEq, Eq, Structural, Debug)]
pub struct Latch {
    pub shift: bool,
    pub ctrl: bool,
    pub alt: bool,
}

impl Latch {
    /// The latch with every modifier released: the state at the start of a call.
    pub open spec fn released() -> Latch {
        Latch { shift: false, ctrl: false, alt: false }
    }

    pub fn new() -> (m: Latch)
        ensures
            m == Latch::released(),
    {
        Latch { shift: false, ctrl: false, alt: false }
    }
}

pub open spec fn is_shift_key(k: Key) -> bool {
    k == Key::ShiftLeft || k == Key::ShiftRight
}

pub open spec fn is_ctrl_key(k: Key) -> bool {
    k == Key::ControlLeft || k == Key::ControlRight
}

pub open spec fn is_alt_key(k: Key) -> bool {
    k == Key::AltLeft || k == Key::AltRight
}

/// Whether `k` is one of the six modifier keys the latch tracks.
pub open spec fn is_modifier_key(k: Key) -> bool {
    is_shift_key(k) || is_ctrl_key(k) || is_alt_key(k)
}

/// The event a backend reports for key `k` when the latch stands at `m`.
pub open spec fn event_with_latch(k: Key, m: Latch) -> KeyEvent {
    KeyEvent { key: k, shift: m.shift, ctrl: m.ctrl, alt: m.alt }
}

} // verus!
