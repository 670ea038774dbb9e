use std::collections::VecDeque;

use handoffgg::models::{DecisionAction, DiagnosticEvent, PresenceSnapshot};
use handoffgg::monitor::{
    apply_connect_wheel, autoswitch_applied_message, chatmix_wheel_message,
    merge_presence_snapshot, presence_changed, process_snapshot_step, push_event,
    set_default_message, PresenceAction, MAX_EVENTS,
};
use handoffgg::presence::parse_event_snapshot_at;

fn snap(report: &[u8], at: u128) -> PresenceSnapshot {
    parse_event_snapshot_at(report, "dev", at).unwrap()
}

#[test]
fn first_connection_report_switches() {
    let step = process_snapshot_step(None, None, snap(&[0xB9, 0x03], 1));
    assert_eq!(step.action, PresenceAction::SwitchConnection { connected: true });
    assert_eq!(step.stable_connected, Some(true));
    assert!(step.presence.connected);
}

#[test]
fn repeated_report_only_records() {
    let first = process_snapshot_step(None, None, snap(&[0xB9, 0x03], 1));
    let again = process_snapshot_step(Some(first.presence), first.stable_connected, snap(&[0xB9, 0x03], 2));
    assert_eq!(again.action, PresenceAction::Record);
    assert_eq!(again.stable_connected, Some(true));
    assert_eq!(again.presence.observed_at_ms, 2);
}

#[test]
fn wheel_report_refreshes_without_switching() {
    let first = process_snapshot_step(None, None, snap(&[0xB9, 0x03], 1));
    let wheel = process_snapshot_step(Some(first.presence), first.stable_connected, snap(&[0x45, 0x32, 0x64], 2));
    assert_eq!(wheel.action, PresenceAction::Refresh);
    assert!(wheel.presence.connected);
    assert_eq!(wheel.presence.game_volume, Some(50));
    let off = process_snapshot_step(Some(wheel.presence), wheel.stable_connected, snap(&[0xB9, 0x02], 3));
    assert_eq!(off.action, PresenceAction::SwitchConnection { connected: false });
    assert_eq!(off.stable_connected, Some(false));
    assert_eq!(off.presence.game_volume, Some(50));
}

#[test]
fn error_snapshots_are_reported_as_is() {
    let first = process_snapshot_step(None, Some(true), snap(&[0xB9, 0x03], 1));
    let err = process_snapshot_step(Some(first.presence), first.stable_connected, PresenceSnapshot::error("gone".into()));
    assert_eq!(err.action, PresenceAction::ReportError);
    assert_eq!(err.presence.error.as_deref(), Some("gone"));
    assert!(!err.presence.connected);
    assert_eq!(err.stable_connected, Some(true));
}

#[test]
fn merge_replaces_raw_and_error_but_keeps_readings() {
    let mut previous = snap(&[0xB0, 0x03, 0x44, 0x03, 0x63, 0x64], 1);
    previous.error = Some("old".into());
    let merged = merge_presence_snapshot(Some(previous), snap(&[0x52, 0x00, 0x01], 2));
    assert!(merged.connected);
    assert_eq!(merged.battery_percent, Some(68));
    assert_eq!(merged.mic_muted, Some(true));
    assert_eq!(merged.raw_response.as_deref(), Some("52 00 01"));
    assert_eq!(merged.error, None);
    let alone = merge_presence_snapshot(None, snap(&[0x52, 0x00, 0x01], 2));
    assert!(!alone.has_connection_status);
    assert!(presence_changed(&None, &alone));
    assert!(!presence_changed(&Some(alone.clone()), &alone));
}

#[test]
fn connect_wheel_applies_only_while_connected() {
    let on = snap(&[0xB9, 0x03], 1);
    let updated = apply_connect_wheel(Some(on), 10, 90).unwrap();
    assert_eq!((updated.game_volume, updated.chat_volume), (Some(10), Some(90)));
    assert!(apply_connect_wheel(Some(snap(&[0xB9, 0x02], 1)), 10, 90).is_none());
    assert!(apply_connect_wheel(None, 10, 90).is_none());
}

#[test]
fn diagnostics_ring_keeps_the_newest() {
    let mut log = VecDeque::new();
    for i in 0..(MAX_EVENTS + 5) {
        push_event(&mut log, DiagnosticEvent::info(format!("event {i}")));
    }
    assert_eq!(log.len(), MAX_EVENTS);
    assert_eq!(log.front().unwrap().message, "event 5");
    assert_eq!(log.back().unwrap().message, format!("event {}", MAX_EVENTS + 4));
}

#[test]
fn messages_are_formatted() {
    assert_eq!(chatmix_wheel_message("wheel", Some(50), None), "ChatMix wheel (wheel): game=50, chat=?");
    assert_eq!(chatmix_wheel_message("connect", Some(0), Some(100)), "ChatMix wheel (connect): game=0, chat=100");
    assert_eq!(autoswitch_applied_message(true, "r", false), "Initial autoswitch applied: r (disconnected)");
    assert_eq!(autoswitch_applied_message(false, "r", true), "Event autoswitch applied: r (connected)");
    assert_eq!(
        set_default_message(&DecisionAction::SetCaptureDefault { endpoint_id: "mic".into() }),
        "Setting capture default: mic"
    );
    assert_eq!(
        set_default_message(&DecisionAction::SetRenderDefault { endpoint_id: "out".into() }),
        "Setting render default: out"
    );
}

#[test]
fn reconnect_after_power_off_switches_back() {
    let on = process_snapshot_step(None, None, snap(&[0xB9, 0x03], 1));
    let off = process_snapshot_step(Some(on.presence), on.stable_connected, snap(&[0xB9, 0x02], 2));
    assert_eq!(off.action, PresenceAction::SwitchConnection { connected: false });
    let again = process_snapshot_step(Some(off.presence), off.stable_connected, snap(&[0xB9, 0x03], 3));
    assert_eq!(again.action, PresenceAction::SwitchConnection { connected: true });
    assert_eq!(again.stable_connected, Some(true));
    assert!(again.presence.connected);
}
