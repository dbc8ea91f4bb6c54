use auto_clicker::control::ControlMessage;
use auto_clicker::control::ControlState;
use auto_clicker::control::Directive;
use auto_clicker::control::Key;

fn key(code: u64) -> Key {
    Key { code }
}

#[test]
fn starts_disarmed_without_hotkey() {
    let s = ControlState::new();
    assert!(!s.armed);
    assert_eq!(s.hotkey, None);
    assert!(!s.awaiting_rebind);
}

#[test]
fn binding_message_sets_hotkey_and_label() {
    let f9 = key(9);
    let mut s = ControlState::new();
    let out = s.run(vec![ControlMessage::HotkeyBound(f9)]);
    assert_eq!(s.hotkey, Some(f9));
    assert!(!s.armed);
    assert_eq!(out, vec![Directive::ShowHotkey(f9)]);
}

#[test]
fn hotkey_press_arms_then_disarms() {
    let f9 = key(9);
    let mut s = ControlState::new();
    s.run(vec![ControlMessage::HotkeyBound(f9)]);

    let out = s.run(vec![ControlMessage::KeyObserved(f9)]);
    assert!(s.armed);
    assert_eq!(out, vec![Directive::SpawnWorker, Directive::ShowRunning(true)]);

    let out = s.run(vec![ControlMessage::KeyObserved(f9)]);
    assert!(!s.armed);
    assert_eq!(out, vec![Directive::FireStop, Directive::ShowRunning(false)]);
}

#[test]
fn rebind_captures_next_key_without_toggling() {
    let a = key(30);
    let mut s = ControlState::new();
    let out = s.run(vec![
        ControlMessage::RebindRequested,
        ControlMessage::KeyObserved(a),
    ]);
    assert_eq!(s.hotkey, Some(a));
    assert!(!s.awaiting_rebind);
    assert!(!s.armed);
    assert_eq!(out, vec![Directive::ShowHotkey(a)]);
}

#[test]
fn rebind_captures_current_hotkey_without_toggling() {
    let f9 = key(9);
    let mut s = ControlState::new();
    s.run(vec![ControlMessage::HotkeyBound(f9)]);
    let out = s.run(vec![
        ControlMessage::RebindRequested,
        ControlMessage::KeyObserved(f9),
    ]);
    assert_eq!(s.hotkey, Some(f9));
    assert!(!s.awaiting_rebind);
    assert!(!s.armed);
    assert_eq!(out, vec![Directive::ShowHotkey(f9)]);
}

#[test]
fn other_key_leaves_armed_worker_running() {
    let f9 = key(9);
    let x = key(45);
    let mut s = ControlState::new();
    s.run(vec![
        ControlMessage::HotkeyBound(f9),
        ControlMessage::ToggleRequested,
    ]);
    assert!(s.armed);

    let out = s.run(vec![ControlMessage::KeyObserved(x)]);
    assert!(s.armed);
    assert_eq!(s.hotkey, Some(f9));
    assert_eq!(out, vec![]);
}

#[test]
fn toggle_count_parity() {
    let mut s = ControlState::new();
    let mut spawns = 0;
    let mut stops = 0;
    for round in 1..=5 {
        let out = s.run(vec![ControlMessage::ToggleRequested]);
        for d in &out {
            match d {
                Directive::SpawnWorker => spawns += 1,
                Directive::FireStop => stops += 1,
                _ => {}
            }
        }
        assert_eq!(s.armed, round % 2 == 1);
        assert!(spawns - stops == i32::from(s.armed));
    }
}

#[test]
fn repeated_rebind_requests_wait_for_one_key() {
    let b = key(48);
    let mut s = ControlState::new();
    s.run(vec![
        ControlMessage::RebindRequested,
        ControlMessage::RebindRequested,
    ]);
    assert!(s.awaiting_rebind);

    // One key completes the rebind; a second key is back to normal matching.
    let out = s.run(vec![ControlMessage::KeyObserved(b)]);
    assert_eq!(s.hotkey, Some(b));
    assert!(!s.awaiting_rebind);
    assert_eq!(out, vec![Directive::ShowHotkey(b)]);
}

#[test]
fn spawn_failure_aborts_the_toggle() {
    let mut s = ControlState::new();
    let out = s.run(vec![ControlMessage::ToggleRequested]);
    assert_eq!(out[0], Directive::SpawnWorker);
    // The surroundings could not spawn the worker.
    let d = s.spawn_failed();
    assert!(!s.armed);
    assert_eq!(d, Directive::ShowNotice);
}

#[test]
fn no_hotkey_means_no_key_matches() {
    let x = key(45);
    let mut s = ControlState::new();
    let out = s.run(vec![ControlMessage::KeyObserved(x)]);
    assert!(!s.armed);
    assert_eq!(s.hotkey, None);
    assert_eq!(out, vec![]);
}
