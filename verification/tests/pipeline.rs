//! Raw HID report frames run through the platform-independent decision pipeline:
//! report parsing, then the autoswitch decision, whose actions are recorded in order
//! exactly as a backend would apply them.

use handoffgg::models::{
    AppConfig, AudioEndpoint, ChatMixConfig, DecisionAction, DevicePref, EndpointFlow,
    EndpointState, FlowConfig, PresenceSnapshot, SwitchDecision,
};
use handoffgg::presence::{merge_partial_snapshot, parse_event_snapshot};
use handoffgg::rules::flow_for_action;
use handoffgg::switch::decide_for_endpoints;

fn endpoint(id: &str, flow: EndpointFlow, presence_tracked: bool) -> AudioEndpoint {
    AudioEndpoint {
        id: id.to_string(),
        name: id.to_string(),
        flow,
        state: EndpointState::Active,
        is_presence_tracked: presence_tracked,
        is_default_console: false,
        is_default_multimedia: false,
        is_default_communications: false,
    }
}

fn pref(id: &str) -> DevicePref {
    DevicePref {
        id: id.to_string(),
        name: id.to_string(),
        excluded: false,
    }
}

/// Priority config: presence-tracked headset first, then a generic fallback, for both flows.
fn switch_config() -> AppConfig {
    AppConfig {
        autoswitch_enabled: true,
        output: FlowConfig {
            priorities: vec![pref("arctis-out"), pref("speaker-out")],
        },
        input: FlowConfig {
            priorities: vec![pref("arctis-mic"), pref("fallback-mic")],
        },
        chatmix: ChatMixConfig::default(),
        low_battery_percent: 0,
        debug: Default::default(),
        ..AppConfig::default()
    }
}

fn switch_endpoints() -> Vec<AudioEndpoint> {
    vec![
        endpoint("arctis-out", EndpointFlow::Render, true),
        endpoint("speaker-out", EndpointFlow::Render, false),
        endpoint("arctis-mic", EndpointFlow::Capture, true),
        endpoint("fallback-mic", EndpointFlow::Capture, false),
    ]
}

/// The default-device calls a backend receives when it applies a decision.
fn applied_calls(decision: &SwitchDecision) -> Vec<(String, EndpointFlow)> {
    decision
        .actions
        .iter()
        .map(|action| {
            let id = match action {
                DecisionAction::SetRenderDefault { endpoint_id } => endpoint_id.clone(),
                DecisionAction::SetCaptureDefault { endpoint_id } => endpoint_id.clone(),
            };
            (id, flow_for_action(action))
        })
        .collect()
}

/// Run a presence snapshot through the autoswitch pipeline exactly as the monitor does.
fn apply_presence(endpoints: &[AudioEndpoint], snapshot: &PresenceSnapshot) -> Vec<(String, EndpointFlow)> {
    let decision = decide_for_endpoints(
        &switch_config(),
        endpoints,
        snapshot.connected,
        snapshot.has_connection_status,
    );
    applied_calls(&decision)
}

#[test]
fn power_off_packet_switches_away_from_headset() {
    // `B9 02` — unsolicited power-off event on MI_05.
    let snapshot = parse_event_snapshot(&[0xB9, 0x02], "test").expect("power-off snapshot");
    assert!(!snapshot.connected);
    assert!(snapshot.has_connection_status);

    let calls = apply_presence(&switch_endpoints(), &snapshot);
    assert_eq!(
        calls,
        vec![
            ("speaker-out".to_string(), EndpointFlow::Render),
            ("fallback-mic".to_string(), EndpointFlow::Capture),
        ],
        "headset is presence-tracked and now off, so both flows fall through to the fallback"
    );
}

#[test]
fn power_on_packet_switches_to_headset() {
    // `B9 03` — unsolicited power-on event on MI_05.
    let snapshot = parse_event_snapshot(&[0xB9, 0x03], "test").expect("power-on snapshot");
    assert!(snapshot.connected);
    assert!(snapshot.has_connection_status);

    let calls = apply_presence(&switch_endpoints(), &snapshot);
    assert_eq!(
        calls,
        vec![
            ("arctis-out".to_string(), EndpointFlow::Render),
            ("arctis-mic".to_string(), EndpointFlow::Capture),
        ],
        "headset is connected, so it wins both priority lists"
    );
}

#[test]
fn status_poll_reply_seeds_connected_state() {
    // `B0 03 44 03 63 64` — connected status reply (battery 68%, wheel game=99 chat=100).
    let snapshot = parse_event_snapshot(&[0xB0, 0x03, 0x44, 0x03, 0x63, 0x64], "test")
        .expect("status snapshot");
    assert!(snapshot.connected);
    assert!(snapshot.has_connection_status);
    assert_eq!(snapshot.battery_percent, Some(68));

    let calls = apply_presence(&switch_endpoints(), &snapshot);
    assert_eq!(calls.first().map(|c| c.0.clone()), Some("arctis-out".to_string()));
}

#[test]
fn mute_packet_decodes_through_event_pipeline() {
    // `52 00 01` — mic mute toggle on MI_05. Carries no connection status; updates mic only.
    let snapshot = parse_event_snapshot(&[0x52, 0x00, 0x01], "test").expect("mute snapshot");
    assert_eq!(snapshot.mic_muted, Some(true));
    assert!(!snapshot.has_connection_status);

    let unmute = parse_event_snapshot(&[0x52, 0x00, 0x00], "test").expect("unmute snapshot");
    assert_eq!(unmute.mic_muted, Some(false));
}

// --- Further pipeline cases ---

#[test]
fn unknown_presence_keeps_headset_selected() {
    // A mute report carries no connection state: tracked devices stay available.
    let snapshot = parse_event_snapshot(&[0x52, 0x00, 0x01], "test").unwrap();
    let calls = apply_presence(&switch_endpoints(), &snapshot);
    assert_eq!(
        calls,
        vec![
            ("arctis-out".to_string(), EndpointFlow::Render),
            ("arctis-mic".to_string(), EndpointFlow::Capture),
        ]
    );
}

#[test]
fn already_default_endpoints_are_not_set_again() {
    let mut endpoints = switch_endpoints();
    for e in endpoints.iter_mut() {
        if e.id == "speaker-out" || e.id == "fallback-mic" {
            e.is_default_console = true;
            e.is_default_multimedia = true;
            e.is_default_communications = true;
        }
    }
    let off = parse_event_snapshot(&[0xB9, 0x02], "test").unwrap();
    let decision = decide_for_endpoints(&switch_config(), &endpoints, off.connected, off.has_connection_status);
    assert!(decision.actions.is_empty());
    assert_eq!(
        decision.reason,
        "Selected highest-priority available device (output -> speaker-out, input -> fallback-mic); already default"
    );
    // Default for only some roles still needs the switch.
    endpoints[1].is_default_communications = false;
    let decision = decide_for_endpoints(&switch_config(), &endpoints, off.connected, off.has_connection_status);
    assert_eq!(applied_calls(&decision), vec![("speaker-out".to_string(), EndpointFlow::Render)]);
}

#[test]
fn inactive_endpoints_are_skipped() {
    let mut endpoints = switch_endpoints();
    endpoints[1].state = EndpointState::Unplugged;
    let off = parse_event_snapshot(&[0xB9, 0x02], "test").unwrap();
    let calls = apply_presence(&endpoints, &off);
    assert_eq!(calls, vec![("fallback-mic".to_string(), EndpointFlow::Capture)]);
}

#[test]
fn wheel_report_merges_onto_connection() {
    let connected = parse_event_snapshot(&[0xB9, 0x03], "test").expect("connected");
    let wheel = parse_event_snapshot(&[0x45, 0x32, 0x64], "test").expect("wheel");
    let merged = merge_partial_snapshot(connected, wheel);
    assert!(merged.connected && merged.has_connection_status);
    assert_eq!(merged.game_volume, Some(50));
    assert_eq!(merged.chat_volume, Some(100));
    assert_eq!(merged.raw_response.as_deref(), Some("45 32 64"));
    assert_eq!(merged.device_path.as_deref(), Some("test"));
}
