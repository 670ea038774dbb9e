use handoffgg::audio_graph::{
    classify, client_info_apply_info, client_info_from_global, default_key_flow,
    default_metadata_key, default_metadata_value, endpoint_for_node, escape_json,
    graph_node_from_props, is_presence_tracked, is_sonar_virtual, os_session_identity,
    next_backoff_ms, parse_default_name, ready_after_second_sync, ready_on_done,
    without_sonar_virtual, ReadyAction, ReadyPhase,
    session_display_name, stream_identity, ClientInfo, GraphNode, NodeKind, NodeProps,
};
use handoffgg::models::{AudioEndpoint, ChatMixConfig, ChatMixRoute, EndpointFlow, EndpointState};

fn node(kind: NodeKind, name: Option<&str>, description: Option<&str>) -> GraphNode {
    GraphNode {
        kind,
        node_name: name.map(str::to_string),
        description: description.map(str::to_string),
        app_name: None,
        app_binary: None,
        process_id: 0,
        client_id: None,
    }
}

#[test]
fn media_classes_map_to_node_kinds() {
    assert_eq!(classify("Audio/Sink"), Some(NodeKind::Sink));
    assert_eq!(classify("Audio/Source"), Some(NodeKind::Source));
    assert_eq!(classify("Stream/Output/Audio"), Some(NodeKind::Stream));
    assert_eq!(classify("Stream/Input/Audio"), None);
    assert_eq!(classify("audio/sink"), None);
}

#[test]
fn steelseries_names_are_presence_tracked() {
    assert!(is_presence_tracked("Arctis Nova 7 Game"));
    assert!(is_presence_tracked("SteelSeries Sonar"));
    assert!(!is_presence_tracked("Built-in Audio"));
}

#[test]
fn device_nodes_become_endpoints() {
    let sink = node(NodeKind::Sink, Some("alsa_output.arctis"), Some("Arctis Nova 7"));
    let e = endpoint_for_node(&sink, &Some("alsa_output.arctis".into()), &None).unwrap();
    assert_eq!(e.id, "alsa_output.arctis");
    assert_eq!(e.name, "Arctis Nova 7");
    assert_eq!(e.flow, EndpointFlow::Render);
    assert_eq!(e.state, EndpointState::Active);
    assert!(e.is_presence_tracked);
    assert!(e.is_default_console && e.is_default_multimedia && e.is_default_communications);

    let source = node(NodeKind::Source, Some("mic"), None);
    let e = endpoint_for_node(&source, &Some("mic".into()), &Some("other".into())).unwrap();
    assert_eq!(e.name, "mic");
    assert_eq!(e.flow, EndpointFlow::Capture);
    assert!(!e.is_default_console);

    assert!(endpoint_for_node(&node(NodeKind::Stream, Some("s"), None), &None, &None).is_none());
    assert!(endpoint_for_node(&node(NodeKind::Sink, None, Some("d")), &None, &None).is_none());
}

#[test]
fn stream_identity_falls_back_through_sources() {
    let config = ChatMixConfig::default();
    let mut stream = node(NodeKind::Stream, Some("stream.node"), None);
    let client = ClientInfo {
        app_name: Some("Discord".into()),
        app_binary: Some("/usr/bin/Discord".into()),
        info_pid: Some(40),
        sec_pid: None,
    };
    let id = stream_identity(57, &stream, Some(&client), &config);
    assert_eq!(id.id, "57");
    assert_eq!(id.display_name, "Discord");
    assert_eq!(id.executable_path.as_deref(), Some("/usr/bin/Discord"));
    assert_eq!(id.process_id, 40);
    assert_eq!(id.app_id, "/usr/bin/discord");
    assert_eq!(id.route, ChatMixRoute::Chat);
    assert_eq!(id.route_source, "heuristic");

    let id = stream_identity(58, &stream, None, &config);
    assert_eq!(id.display_name, "stream.node");
    assert_eq!(id.process_id, 0);
    assert_eq!(id.app_id, "stream.node");
    assert_eq!(id.route, ChatMixRoute::Game);

    stream.node_name = None;
    stream.process_id = 7;
    let id = stream_identity(59, &stream, None, &config);
    assert_eq!(id.display_name, "Stream 59");
    assert_eq!(id.process_id, 7);
}

#[test]
fn os_session_display_names() {
    assert_eq!(session_display_name(Some("Game".into()), Some("C:\\g.exe"), 1), "Game");
    assert_eq!(session_display_name(Some("  ".into()), Some("C:\\Games\\g.exe"), 1), "g.exe");
    assert_eq!(session_display_name(None, None, 88), "Process 88");
    assert_eq!(session_display_name(None, Some("C:\\dir\\"), 3), "Process 3");
}

#[test]
fn default_metadata_round_trip() {
    assert_eq!(default_metadata_key(EndpointFlow::Render), "default.configured.audio.sink");
    assert_eq!(default_metadata_key(EndpointFlow::Capture), "default.configured.audio.source");
    assert_eq!(escape_json("a\"b\\c"), "a\\\"b\\\\c");
    assert_eq!(default_metadata_value("alsa\"x"), "{\"name\":\"alsa\\\"x\"}");
    // The wrapper extracts the member: it does not hand the text back.
    assert_eq!(parse_default_name("{\"name\":\"alsa_output.pci\"}"), Some("alsa_output.pci".to_string()));
    assert_eq!(parse_default_name(&default_metadata_value("we\"ird\\name")), Some("we\"ird\\name".to_string()));
    assert_eq!(parse_default_name("{\"name\":3}"), None);
    assert_eq!(parse_default_name("not json"), None);
    assert_eq!(default_key_flow("default.audio.sink"), Some(EndpointFlow::Render));
    assert_eq!(default_key_flow("default.audio.source"), Some(EndpointFlow::Capture));
    assert_eq!(default_key_flow("default.configured.audio.sink"), None);
}

#[test]
fn registry_props_fill_nodes_and_clients() {
    let props = NodeProps {
        node_name: Some("n".into()),
        node_description: None,
        node_nick: Some("nick".into()),
        application_name: None,
        media_name: Some("song".into()),
        process_binary: Some("mpv".into()),
        process_id: Some("123".into()),
        client_id: Some("x9".into()),
    };
    let n = graph_node_from_props(NodeKind::Stream, &props);
    assert_eq!(n.description.as_deref(), Some("nick"));
    assert_eq!(n.app_name.as_deref(), Some("song"));
    assert_eq!(n.app_binary.as_deref(), Some("mpv"));
    assert_eq!(n.process_id, 123);
    assert_eq!(n.client_id, None);

    let c = client_info_from_global(Some("Spotify".into()), &Some("4242".into()));
    assert_eq!(c.process_id(), 4242);
    let c = client_info_apply_info(c, None, Some("/opt/spotify".into()), &Some("4".into()));
    assert_eq!(c.app_name.as_deref(), Some("Spotify"));
    assert_eq!(c.app_binary.as_deref(), Some("/opt/spotify"));
    assert_eq!(c.info_pid, Some(4));
    assert_eq!(c.process_id(), 4242);
    let c = client_info_apply_info(c, Some("S".into()), None, &Some("0".into()));
    assert_eq!(c.app_name.as_deref(), Some("S"));
    assert_eq!(c.info_pid, Some(4));
    let bare = ClientInfo { app_name: None, app_binary: None, info_pid: Some(9), sec_pid: None };
    assert_eq!(bare.process_id(), 9);
}

#[test]
fn reconnect_backoff_doubles_up_to_five_seconds() {
    assert_eq!(next_backoff_ms(200), 400);
    assert_eq!(next_backoff_ms(2400), 4800);
    assert_eq!(next_backoff_ms(2500), 5000);
    assert_eq!(next_backoff_ms(5000), 5000);
}

#[test]
fn os_sessions_are_named_keyed_and_routed() {
    let session = os_session_identity(
        "{session-1}".to_string(),
        Some("   ".to_string()),
        Some("C:\\Apps\\Discord.exe".to_string()),
        42,
        &ChatMixConfig::default(),
    );
    assert_eq!(session.id, "{session-1}");
    assert_eq!(session.display_name, "Discord.exe");
    assert_eq!(session.app_id, "c:\\apps\\discord.exe");
    assert_eq!(session.process_id, 42);
    assert_eq!(session.route, ChatMixRoute::Chat);
    assert_eq!(session.route_source, "heuristic");

    let unnamed = os_session_identity("s".to_string(), None, None, 7, &ChatMixConfig::default());
    assert_eq!(unnamed.display_name, "Process 7");
    assert_eq!(unnamed.app_id, "process 7");
    assert_eq!(unnamed.route, ChatMixRoute::Game);
    assert_eq!(unnamed.route_source, "default");
}

#[test]
fn sonar_virtual_devices_are_recognised() {
    assert!(is_sonar_virtual("SteelSeries Sonar - Gaming"));
    assert!(is_sonar_virtual("Microphone (steelseries SONAR - Microphone)"));
    assert!(!is_sonar_virtual("Arctis Nova 7"));
    assert!(!is_sonar_virtual("SteelSeries Arctis"));
}

fn endpoint(id: &str, name: &str) -> AudioEndpoint {
    AudioEndpoint {
        id: id.to_string(),
        name: name.to_string(),
        flow: EndpointFlow::Render,
        state: EndpointState::Active,
        is_presence_tracked: false,
        is_default_console: false,
        is_default_multimedia: false,
        is_default_communications: false,
    }
}

#[test]
fn sonar_virtual_devices_are_left_out_of_the_device_list() {
    let listed = without_sonar_virtual(vec![
        endpoint("a", "Speakers"),
        endpoint("b", "SteelSeries Sonar - Gaming"),
        endpoint("c", "Arctis Nova 7"),
        endpoint("d", "SteelSeries Sonar - Chat"),
    ]);
    let ids: Vec<&str> = listed.iter().map(|e| e.id.as_str()).collect();
    assert_eq!(ids, vec!["a", "c"]);
}

#[test]
fn readiness_waits_for_two_core_roundtrips() {
    let start = ReadyPhase::AwaitingFirst(7);
    assert_eq!(ready_on_done(start, false, 7), (start, ReadyAction::Ignore));
    assert_eq!(ready_on_done(start, true, 6), (start, ReadyAction::Ignore));
    assert_eq!(ready_on_done(start, true, 7), (start, ReadyAction::IssueSecondSync));
    let (second, action) = ready_after_second_sync(Some(8));
    assert_eq!((second, action), (ReadyPhase::AwaitingSecond(8), ReadyAction::Ignore));
    assert_eq!(ready_on_done(second, true, 7), (second, ReadyAction::Ignore));
    assert_eq!(ready_on_done(second, true, 8), (ReadyPhase::Done, ReadyAction::SignalReady));
    assert_eq!(ready_on_done(ReadyPhase::Done, true, 8), (ReadyPhase::Done, ReadyAction::Ignore));
    assert_eq!(ready_after_second_sync(None), (ReadyPhase::Done, ReadyAction::SignalReady));
}
