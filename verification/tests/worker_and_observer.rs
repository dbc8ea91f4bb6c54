use auto_clicker::control::ControlMessage;
use auto_clicker::control::Key;
use auto_clicker::observer::InputEvent;
use auto_clicker::observer::observer_message;
use auto_clicker::worker::ActionKind;
use auto_clicker::worker::StopCheck;
use auto_clicker::worker::WorkerConfig;
use auto_clicker::worker::action_from_index;
use auto_clicker::worker::cycles_until_stop;
use auto_clicker::worker::worker_continues;

#[test]
fn worker_continues_only_while_pending() {
    assert!(worker_continues(&StopCheck::Pending));
    assert!(!worker_continues(&StopCheck::Fired));
    assert!(!worker_continues(&StopCheck::Closed));
}

#[test]
fn worker_stops_at_first_fired_poll() {
    assert_eq!(cycles_until_stop(&vec![StopCheck::Fired]), Some(1));
    assert_eq!(
        cycles_until_stop(&vec![StopCheck::Pending, StopCheck::Pending, StopCheck::Fired]),
        Some(3)
    );
    assert_eq!(
        cycles_until_stop(&vec![StopCheck::Pending, StopCheck::Fired, StopCheck::Fired]),
        Some(2)
    );
}

#[test]
fn dropped_sender_stops_the_worker_too() {
    assert_eq!(
        cycles_until_stop(&vec![StopCheck::Pending, StopCheck::Closed]),
        Some(2)
    );
}

#[test]
fn worker_runs_while_every_poll_is_pending() {
    assert_eq!(cycles_until_stop(&vec![]), None);
    assert_eq!(
        cycles_until_stop(&vec![StopCheck::Pending, StopCheck::Pending]),
        None
    );
}

#[test]
fn zero_delay_worker_still_stops_promptly() {
    let cfg = WorkerConfig { delay_millis: 0, action: ActionKind::LeftClick };
    assert_eq!(cfg.delay_millis, 0);
    // The stop decision never reads the delay: the first fired poll ends the
    // loop for a tight zero-delay cycle exactly as for any other.
    assert_eq!(cycles_until_stop(&vec![StopCheck::Fired]), Some(1));
    assert_eq!(
        cycles_until_stop(&vec![StopCheck::Pending, StopCheck::Fired]),
        Some(2)
    );
}

#[test]
fn chooser_positions_map_to_actions() {
    assert_eq!(action_from_index(0), Some(ActionKind::LeftClick));
    assert_eq!(action_from_index(1), Some(ActionKind::RightClick));
    assert_eq!(action_from_index(2), Some(ActionKind::MiddleClick));
    assert_eq!(action_from_index(3), None);
    assert_eq!(action_from_index(-1), None);
}

#[test]
fn observer_forwards_key_presses_only() {
    let k = Key { code: 7 };
    assert_eq!(
        observer_message(&InputEvent::KeyPressed(k)),
        Some(ControlMessage::KeyObserved(k))
    );
    assert_eq!(observer_message(&InputEvent::KeyReleased(k)), None);
    assert_eq!(observer_message(&InputEvent::Other), None);
}
