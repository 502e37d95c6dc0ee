use keypress::Key;
use keypress::KeyEvent;
use keypress::Latch;
use keypress::dispatch::SourceChoice;
use keypress::dispatch::select_source;
use keypress::fallback::TermCode;
use keypress::fallback::TermEvent;
use keypress::fallback::TermKey;
use keypress::fallback::TermKind;
use keypress::fallback::scan_term_events;
use keypress::fallback::term_step;
use keypress::linux::KeyboardChoice;
use keypress::linux::RawReport;
use keypress::linux::choose_keyboard;
use keypress::linux::linux_step;
use keypress::linux::name_marks_keyboard;
use keypress::linux::scan_reports;
use keypress::macos::TapEvent;
use keypress::macos::decode_tap_event;
use keypress::macos::scan_tap_events;
use keypress::windows::ConsoleModeGuard;
use keypress::windows::ConsoleOutcome;
use keypress::windows::ConsoleRecord;
use keypress::windows::console_session;
use keypress::windows::console_step;
use keypress::windows::scan_console_records;

fn key_report(code: u16, value: i32) -> RawReport {
    RawReport { rtype: 1, code, value }
}

fn key_record(vk: u16, scan: u16, state: u32, key_down: bool) -> ConsoleRecord {
    ConsoleRecord { is_key_record: true, events_read: 1, key_down, vk, scan, state }
}

#[test]
fn linux_bare_shift_press_returns_immediately() {
    // A bare modifier press is itself returned, with the latch already
    // reflecting its own just-set state.
    let reports = vec![key_report(42, 1)];
    let (latch, event) = scan_reports(Latch::new(), &reports);
    assert_eq!(
        event,
        Some(KeyEvent { key: Key::ShiftLeft, shift: true, ctrl: false, alt: false })
    );
    assert_eq!(latch, Latch { shift: true, ctrl: false, alt: false });
}

#[test]
fn linux_modifier_release_clears_latch_across_batches() {
    // The latch returned with one batch carries into the next: after shift
    // is released, a press of A reports shift false.
    let first = vec![key_report(42, 1)];
    let (latch, event) = scan_reports(Latch::new(), &first);
    assert!(event.is_some());
    let second = vec![key_report(42, 0), key_report(30, 1)];
    let (latch2, event2) = scan_reports(latch, &second);
    assert_eq!(
        event2,
        Some(KeyEvent { key: Key::KeyA, shift: false, ctrl: false, alt: false })
    );
    assert_eq!(latch2, Latch { shift: false, ctrl: false, alt: false });
}

#[test]
fn linux_ctrl_held_reported_on_next_key() {
    let (latch, event) = scan_reports(Latch::new(), &vec![key_report(29, 1)]);
    assert_eq!(
        event,
        Some(KeyEvent { key: Key::ControlLeft, shift: false, ctrl: true, alt: false })
    );
    let (_, event2) = scan_reports(latch, &vec![key_report(46, 1)]);
    assert_eq!(
        event2,
        Some(KeyEvent { key: Key::KeyC, shift: false, ctrl: true, alt: false })
    );
}

#[test]
fn linux_non_key_and_releases_produce_nothing() {
    // Non-key reports, releases and auto-repeats never produce an event.
    let reports = vec![
        RawReport { rtype: 0, code: 0, value: 0 },
        RawReport { rtype: 2, code: 8, value: 1 },
        key_report(30, 0),
        key_report(30, 2),
    ];
    let (latch, event) = scan_reports(Latch::new(), &reports);
    assert_eq!(event, None);
    assert_eq!(latch, Latch { shift: false, ctrl: false, alt: false });
}

#[test]
fn linux_only_first_press_is_returned() {
    let reports = vec![key_report(30, 1), key_report(31, 1)];
    let (_, event) = scan_reports(Latch::new(), &reports);
    assert_eq!(
        event,
        Some(KeyEvent { key: Key::KeyA, shift: false, ctrl: false, alt: false })
    );
}

#[test]
fn linux_step_repeat_value_keeps_latch() {
    let m = Latch { shift: true, ctrl: false, alt: false };
    let (m2, event) = linux_step(m, key_report(42, 2));
    assert_eq!(m2, m);
    assert_eq!(event, None);
}

#[test]
fn windows_shift_then_letter_reports_one_event() {
    // A bare shift down produces nothing; the following letter's record
    // carries the shift bit in its own control-key state.
    let records = vec![
        key_record(0x10, 0x2A, 0x0010, true),
        key_record(0x41, 0x1E, 0x0010, true),
    ];
    let event = scan_console_records(&records);
    assert_eq!(
        event,
        Some(KeyEvent { key: Key::KeyA, shift: true, ctrl: false, alt: false })
    );
}

#[test]
fn windows_bare_modifier_press_produces_nothing() {
    assert_eq!(console_step(&key_record(0x10, 0x2A, 0x0010, true)), None);
    assert_eq!(console_step(&key_record(0x11, 0x1D, 0x0008, true)), None);
    assert_eq!(console_step(&key_record(0x12, 0x38, 0x0002, true)), None);
}

#[test]
fn windows_key_up_and_non_key_records_produce_nothing() {
    let records = vec![
        ConsoleRecord { is_key_record: false, events_read: 1, key_down: true, vk: 0x41, scan: 0x1E, state: 0 },
        ConsoleRecord { is_key_record: true, events_read: 0, key_down: true, vk: 0x41, scan: 0x1E, state: 0 },
        key_record(0x41, 0x1E, 0, false),
    ];
    assert_eq!(scan_console_records(&records), None);
}

#[test]
fn windows_ctrl_and_alt_from_either_side() {
    let left_ctrl = key_record(0x41, 0x1E, 0x0008, true);
    let right_ctrl = key_record(0x41, 0x1E, 0x0004, true);
    let left_alt = key_record(0x41, 0x1E, 0x0002, true);
    let right_alt = key_record(0x41, 0x1E, 0x0001, true);
    assert_eq!(
        console_step(&left_ctrl),
        Some(KeyEvent { key: Key::KeyA, shift: false, ctrl: true, alt: false })
    );
    assert_eq!(console_step(&right_ctrl), console_step(&left_ctrl));
    assert_eq!(
        console_step(&left_alt),
        Some(KeyEvent { key: Key::KeyA, shift: false, ctrl: false, alt: true })
    );
    assert_eq!(console_step(&right_alt), console_step(&left_alt));
}

#[test]
fn windows_guard_restores_mode_on_success() {
    // Console mode after the call equals console mode before it.
    let records = vec![key_record(0x41, 0x1E, 0, true)];
    let (mode_after, outcome) = console_session(0x01F7, true, &records);
    assert_eq!(mode_after, 0x01F7);
    assert_eq!(
        outcome,
        ConsoleOutcome::Read(Some(KeyEvent {
            key: Key::KeyA,
            shift: false,
            ctrl: false,
            alt: false
        }))
    );
}

#[test]
fn windows_guard_restores_mode_when_nothing_qualifies() {
    let records = vec![key_record(0x10, 0x2A, 0x0010, true)];
    let (mode_after, outcome) = console_session(42, true, &records);
    assert_eq!(mode_after, 42);
    assert_eq!(outcome, ConsoleOutcome::Read(None));
}

#[test]
fn windows_guard_restores_mode_when_acquisition_fails() {
    let records = vec![key_record(0x41, 0x1E, 0, true)];
    let (mode_after, outcome) = console_session(7, false, &records);
    assert_eq!(mode_after, 7);
    assert_eq!(outcome, ConsoleOutcome::FellBack);
}

#[test]
fn windows_guard_acquire_release_round_trip() {
    let (guard, raw) = ConsoleModeGuard::acquire(0xABCD);
    assert_eq!(raw, 0);
    assert_eq!(guard.release(), 0xABCD);
}

#[test]
fn macos_key_down_with_shift_flag() {
    // A key-down for code 0x00 with the shift flag set reports KeyA with
    // shift fused into the event.
    let event = decode_tap_event(&TapEvent { key_down: true, code: 0x00, flags: 0x0002_0000 });
    assert_eq!(
        event,
        Some(KeyEvent { key: Key::KeyA, shift: true, ctrl: false, alt: false })
    );
}

#[test]
fn macos_flag_bits_decode_independently() {
    let ctrl = decode_tap_event(&TapEvent { key_down: true, code: 0x23, flags: 0x0004_0000 });
    assert_eq!(
        ctrl,
        Some(KeyEvent { key: Key::Enter, shift: false, ctrl: true, alt: false })
    );
    let alt = decode_tap_event(&TapEvent { key_down: true, code: 0x23, flags: 0x0008_0000 });
    assert_eq!(
        alt,
        Some(KeyEvent { key: Key::Enter, shift: false, ctrl: false, alt: true })
    );
    let all = decode_tap_event(&TapEvent { key_down: true, code: 0x23, flags: 0x000E_0000 });
    assert_eq!(
        all,
        Some(KeyEvent { key: Key::Enter, shift: true, ctrl: true, alt: true })
    );
}

#[test]
fn macos_only_first_key_down_is_delivered() {
    let events = vec![
        TapEvent { key_down: false, code: 0x00, flags: 0 },
        TapEvent { key_down: true, code: 0x01, flags: 0 },
        TapEvent { key_down: true, code: 0x02, flags: 0 },
    ];
    assert_eq!(
        scan_tap_events(&events),
        Some(KeyEvent { key: Key::KeyS, shift: false, ctrl: false, alt: false })
    );
}

#[test]
fn macos_no_key_down_delivers_nothing() {
    let events = vec![TapEvent { key_down: false, code: 0x00, flags: 0 }];
    assert_eq!(scan_tap_events(&events), None);
}

#[test]
fn fallback_escape_press_without_modifiers() {
    let events = vec![TermEvent::KeyInput(TermKey {
        code: TermCode::Esc,
        mods: 0,
        kind: TermKind::Press,
    })];
    assert_eq!(
        scan_term_events(&events),
        Some(KeyEvent { key: Key::Escape, shift: false, ctrl: false, alt: false })
    );
}

#[test]
fn fallback_skips_non_press_input() {
    let events = vec![
        TermEvent::NonKey,
        TermEvent::KeyInput(TermKey { code: TermCode::Char('a'), mods: 0, kind: TermKind::Release }),
        TermEvent::KeyInput(TermKey { code: TermCode::Char('a'), mods: 0, kind: TermKind::Repeat }),
        TermEvent::KeyInput(TermKey { code: TermCode::Char('a'), mods: 0, kind: TermKind::Press }),
    ];
    assert_eq!(
        scan_term_events(&events),
        Some(KeyEvent { key: Key::KeyA, shift: false, ctrl: false, alt: false })
    );
}

#[test]
fn fallback_decodes_modifier_mask() {
    let press = TermEvent::KeyInput(TermKey {
        code: TermCode::Char('x'),
        mods: 0x01 | 0x04,
        kind: TermKind::Press,
    });
    assert_eq!(
        term_step(&press),
        Some(KeyEvent { key: Key::KeyX, shift: true, ctrl: false, alt: true })
    );
}

#[test]
fn fallback_shifted_letter_lands_on_the_letter_key() {
    // A terminal reports shift+a as the character 'A' with the shift bit
    // set; the event names the physical letter key, not the character.
    let press = TermEvent::KeyInput(TermKey {
        code: TermCode::Char('A'),
        mods: 0x01,
        kind: TermKind::Press,
    });
    assert_eq!(
        term_step(&press),
        Some(KeyEvent { key: Key::KeyA, shift: true, ctrl: false, alt: false })
    );
}

#[test]
fn fallback_release_only_input_produces_nothing() {
    let events = vec![
        TermEvent::KeyInput(TermKey { code: TermCode::Esc, mods: 0, kind: TermKind::Release }),
        TermEvent::NonKey,
    ];
    assert_eq!(scan_term_events(&events), None);
}

#[test]
fn failed_native_acquisition_reaches_fallback_and_still_returns_event() {
    // When the native device, tap or handle cannot be acquired, control
    // reaches the fallback, which still returns a valid event on the next
    // qualifying input, with no caller-visible error from the failed attempt.
    let source = select_source(false);
    assert_eq!(source, SourceChoice::Fallback);
    let events = vec![TermEvent::KeyInput(TermKey {
        code: TermCode::Enter,
        mods: 0,
        kind: TermKind::Press,
    })];
    assert_eq!(
        scan_term_events(&events),
        Some(KeyEvent { key: Key::Enter, shift: false, ctrl: false, alt: false })
    );
}

#[test]
fn native_source_selected_when_it_initializes() {
    assert_eq!(select_source(true), SourceChoice::Native);
}

#[test]
fn keyboard_marker_found_in_entry_names() {
    assert!(name_marks_keyboard(&b"platform-i8042-serio-0-event-kbd".to_vec()));
    assert!(name_marks_keyboard(&b"-kbd".to_vec()));
    assert!(!name_marks_keyboard(&b"platform-pcspkr-event-spkr".to_vec()));
    assert!(!name_marks_keyboard(&b"kbd".to_vec()));
    assert!(!name_marks_keyboard(&b"".to_vec()));
}

#[test]
fn discovery_prefers_first_named_keyboard_entry() {
    let names = vec![
        b"pci-0000-usb-0:1:1.0-event-mouse".to_vec(),
        b"platform-i8042-serio-0-event-kbd".to_vec(),
        b"pci-0000-usb-0:1:1.1-event-kbd".to_vec(),
    ];
    let probe = vec![true, true];
    assert_eq!(
        choose_keyboard(&names, &probe),
        Some(KeyboardChoice::ByPath(1))
    );
}

#[test]
fn discovery_falls_back_to_first_probed_node() {
    let names = vec![b"pci-0000-usb-0:1:1.0-event-mouse".to_vec()];
    let probe = vec![false, false, true, true];
    assert_eq!(
        choose_keyboard(&names, &probe),
        Some(KeyboardChoice::EventNode(2))
    );
}

#[test]
fn discovery_yields_nothing_when_both_stages_fail() {
    let names: Vec<Vec<u8>> = vec![b"pci-0000-usb-0:1:1.0-event-mouse".to_vec()];
    let probe = vec![false, false];
    assert_eq!(choose_keyboard(&names, &probe), None);
}
