use handoffgg::audio_graph::SessionIdentity;
use handoffgg::listing::{endpoint_order, session_order, text_le_exec};
use handoffgg::models::{AudioEndpoint, ChatMixRoute, EndpointFlow, EndpointState};

fn endpoint(id: &str, name: &str, flow: EndpointFlow) -> AudioEndpoint {
    AudioEndpoint {
        id: id.to_string(),
        name: name.to_string(),
        flow,
        state: EndpointState::Active,
        is_presence_tracked: false,
        is_default_console: false,
        is_default_multimedia: false,
        is_default_communications: false,
    }
}

fn session(id: &str, app_id: &str, display_name: &str) -> SessionIdentity {
    SessionIdentity {
        id: id.to_string(),
        app_id: app_id.to_string(),
        display_name: display_name.to_string(),
        executable_path: None,
        process_id: 0,
        route: ChatMixRoute::Game,
        route_source: "default".to_string(),
    }
}

#[test]
fn text_order_matches_string_order() {
    let words = ["", "a", "ab", "b", "B", "Z", "é", "speakers", "Speakers", "spe"];
    for a in words {
        for b in words {
            assert_eq!(text_le_exec(a, b), a <= b, "{a:?} <= {b:?}");
        }
    }
}

#[test]
fn devices_are_listed_by_name_then_id_keeping_ties_in_place() {
    let endpoints = vec![
        endpoint("3", "Speakers", EndpointFlow::Render),
        endpoint("2", "Arctis Nova 7", EndpointFlow::Render),
        endpoint("1", "Speakers", EndpointFlow::Render),
        endpoint("2", "Arctis Nova 7", EndpointFlow::Capture),
    ];
    assert_eq!(endpoint_order(&endpoints), vec![1, 3, 2, 0]);
}

#[test]
fn sessions_are_listed_by_name_then_app_then_id() {
    let sessions = vec![
        session("9", "spotify", "Spotify"),
        session("2", "discord.exe", "Discord"),
        session("1", "discord.exe", "Discord"),
        session("5", "chrome.exe", "Discord"),
    ];
    assert_eq!(session_order(&sessions), vec![3, 2, 1, 0]);
    assert_eq!(session_order(&[]), Vec::<usize>::new());
}
