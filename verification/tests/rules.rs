use handoffgg::models::{AppConfig, DecisionAction, DevicePref, EndpointFlow, FlowConfig};
use handoffgg::rules::{decide_switch, flow_for_action};
use handoffgg::StringHashSet;

fn pref(id: &str, excluded: bool) -> DevicePref {
    DevicePref {
        id: id.to_string(),
        name: id.to_string(),
        excluded,
    }
}

fn config() -> AppConfig {
    AppConfig {
        autoswitch_enabled: true,
        output: FlowConfig {
            priorities: vec![pref("headset-out", false), pref("speaker-out", false)],
        },
        input: FlowConfig {
            priorities: vec![pref("headset-mic", false), pref("fallback-mic", false)],
        },
        chatmix: Default::default(),
        ..AppConfig::default()
    }
}

fn set(ids: &[&str]) -> StringHashSet {
    let mut set = StringHashSet::new();
    for id in ids {
        set.insert(id.to_string());
    }
    set
}

#[test]
fn selects_highest_priority_available_device() {
    let render = set(&["headset-out", "speaker-out"]);
    let capture = set(&["headset-mic", "fallback-mic"]);
    let decision = decide_switch(&config(), &render, &capture);
    assert_eq!(
        decision.actions,
        vec![
            DecisionAction::SetRenderDefault {
                endpoint_id: "headset-out".into()
            },
            DecisionAction::SetCaptureDefault {
                endpoint_id: "headset-mic".into()
            }
        ]
    );
}

#[test]
fn falls_through_when_top_priority_is_unavailable() {
    // Headset (top priority) is not available, e.g. disconnected SteelSeries.
    let render = set(&["speaker-out"]);
    let capture = set(&["fallback-mic"]);
    let decision = decide_switch(&config(), &render, &capture);
    assert_eq!(
        decision.actions,
        vec![
            DecisionAction::SetRenderDefault {
                endpoint_id: "speaker-out".into()
            },
            DecisionAction::SetCaptureDefault {
                endpoint_id: "fallback-mic".into()
            }
        ]
    );
}

#[test]
fn excluded_devices_are_never_selected() {
    let mut config = config();
    config.output.priorities[0].excluded = true;
    let render = set(&["headset-out", "speaker-out"]);
    let decision = decide_switch(&config, &render, &StringHashSet::new());
    assert_eq!(
        decision.actions,
        vec![DecisionAction::SetRenderDefault {
            endpoint_id: "speaker-out".into()
        }]
    );
}

#[test]
fn no_action_when_nothing_available() {
    let decision = decide_switch(&config(), &StringHashSet::new(), &StringHashSet::new());
    assert!(decision.actions.is_empty());
}

#[test]
fn disabled_autoswitch_has_no_actions() {
    let mut config = config();
    config.autoswitch_enabled = false;
    let render = set(&["headset-out"]);
    assert!(decide_switch(&config, &render, &StringHashSet::new())
        .actions
        .is_empty());
}

#[test]
fn each_flow_is_independent() {
    // Output available, input has nothing available.
    let render = set(&["headset-out"]);
    let decision = decide_switch(&config(), &render, &StringHashSet::new());
    assert_eq!(decision.actions.len(), 1);
    assert_eq!(flow_for_action(&decision.actions[0]), EndpointFlow::Render);
}

// --- Reasons ---

#[test]
fn reasons_name_the_chosen_devices() {
    let mut config = config();
    config.output.priorities[1].name = "Speakers".to_string();
    let both = decide_switch(
        &config,
        &set(&["speaker-out"]),
        &set(&["headset-mic"]),
    );
    assert_eq!(
        both.reason,
        "Selected highest-priority available device (output -> Speakers, input -> headset-mic)"
    );
    let input_only = decide_switch(&config, &StringHashSet::new(), &set(&["fallback-mic"]));
    assert_eq!(
        input_only.reason,
        "Selected highest-priority available device (input -> fallback-mic)"
    );
    let none = decide_switch(&config, &set(&["unknown"]), &StringHashSet::new());
    assert_eq!(none.reason, "No available device matched the priority lists");
    config.autoswitch_enabled = false;
    let disabled = decide_switch(&config, &set(&["speaker-out"]), &StringHashSet::new());
    assert_eq!(disabled.reason, "Autoswitching is disabled");
}

#[test]
fn excluded_entry_is_skipped_even_when_it_is_the_only_one() {
    let mut config = config();
    config.input.priorities = vec![pref("only-mic", true)];
    let decision = decide_switch(&config, &StringHashSet::new(), &set(&["only-mic"]));
    assert!(decision.actions.is_empty());
    assert_eq!(flow_for_action(&DecisionAction::SetCaptureDefault { endpoint_id: "x".into() }), EndpointFlow::Capture);
}
