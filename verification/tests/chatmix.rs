use handoffgg::chatmix::{app_id_for_session, is_chat_executable, is_chat_name, normalize_app_key, route_for_app};
use handoffgg::models::{ChatMixAppRoute, ChatMixConfig, ChatMixRoute};

#[test]
fn chat_heuristic_classifies_discord_as_chat() {
    let config = ChatMixConfig::default();
    assert_eq!(
        route_for_app(
            "discord.exe",
            "Discord",
            Some("C:\\Discord\\Discord.exe"),
            &config
        )
        .0,
        ChatMixRoute::Chat
    );
}

#[test]
fn browser_defaults_to_game() {
    let config = ChatMixConfig::default();
    assert_eq!(
        route_for_app(
            "chrome.exe",
            "Google Chrome",
            Some("C:\\Chrome\\chrome.exe"),
            &config
        )
        .0,
        ChatMixRoute::Game
    );
}

#[test]
fn unknown_apps_default_to_game() {
    let config = ChatMixConfig::default();
    assert_eq!(
        route_for_app("game.exe", "Some Game", None, &config).0,
        ChatMixRoute::Game
    );
}

#[test]
fn route_sources_are_reported() {
    let mut config = ChatMixConfig::default();
    assert_eq!(
        route_for_app("discord.exe", "Discord", None, &config),
        (ChatMixRoute::Chat, "heuristic".to_string())
    );
    assert_eq!(
        route_for_app("game.exe", "Some Game", None, &config),
        (ChatMixRoute::Game, "default".to_string())
    );
    config.insert(
        "discord.exe".to_string(),
        ChatMixAppRoute { route: ChatMixRoute::Game, display_name: "Discord".to_string() },
    );
    assert_eq!(
        route_for_app("discord.exe", "Discord", None, &config),
        (ChatMixRoute::Game, "manual".to_string())
    );
}

#[test]
fn chat_name_fragment_matches_inside_display_name() {
    let config = ChatMixConfig::default();
    assert_eq!(
        route_for_app("x.exe", "Microsoft Teams (work)", Some("/usr/bin/x"), &config).0,
        ChatMixRoute::Chat
    );
    assert!(is_chat_name("my mumble client"));
    assert!(!is_chat_name("Mumbl"));
    assert!(is_chat_executable("ts3client_win64.exe"));
    assert!(!is_chat_executable("Discord.exe"));
}

#[test]
fn unix_paths_and_trailing_separators() {
    let config = ChatMixConfig::default();
    // File name after the last '/'.
    assert_eq!(
        route_for_app("a", "b", Some("/opt/slack/SLACK.EXE"), &config).0,
        ChatMixRoute::Chat
    );
    // A path ending in a separator has no file name: the app id is used instead.
    assert_eq!(
        route_for_app("zoom.exe", "b", Some("C:\\Zoom\\"), &config).0,
        ChatMixRoute::Chat
    );
}

#[test]
fn app_id_prefers_path_then_name_then_pid() {
    assert_eq!(
        app_id_for_session(Some("  C:\\Apps\\Game.EXE \n"), "Game", 7),
        "c:\\apps\\game.exe"
    );
    assert_eq!(app_id_for_session(Some("   "), " My Game ", 7), "my game");
    assert_eq!(app_id_for_session(None, "\t", 4242), "pid:4242");
    assert_eq!(app_id_for_session(None, "", 0), "pid:0");
    assert_eq!(normalize_app_key("\u{3000}ÄBC\u{a0}"), "Äbc");
}

#[test]
fn chatmix_config_insert_then_get() {
    let mut config = ChatMixConfig::default();
    assert!(config.get("a").is_none());
    config.insert(
        "a".to_string(),
        ChatMixAppRoute { route: ChatMixRoute::Chat, display_name: "A".to_string() },
    );
    config.insert(
        "b".to_string(),
        ChatMixAppRoute { route: ChatMixRoute::Game, display_name: "B".to_string() },
    );
    config.insert(
        "a".to_string(),
        ChatMixAppRoute { route: ChatMixRoute::Game, display_name: "A2".to_string() },
    );
    assert_eq!(config.app_routes.len(), 2);
    assert_eq!(config.get("a").unwrap().display_name, "A2");
    assert_eq!(config.get("a").unwrap().route, ChatMixRoute::Game);
    assert_eq!(config.get("b").unwrap().route, ChatMixRoute::Game);
    assert!(config.get("c").is_none());
}

#[test]
fn saving_a_route_twice_keeps_one_entry() {
    let mut config = ChatMixConfig::default();
    config.insert(
        "discord.exe".to_string(),
        ChatMixAppRoute { route: ChatMixRoute::Game, display_name: "Discord".to_string() },
    );
    config.insert(
        "spotify".to_string(),
        ChatMixAppRoute { route: ChatMixRoute::Game, display_name: "Spotify".to_string() },
    );
    config.insert(
        "discord.exe".to_string(),
        ChatMixAppRoute { route: ChatMixRoute::Chat, display_name: "Discord".to_string() },
    );
    assert_eq!(config.app_routes.len(), 2);
    assert_eq!(config.get("discord.exe").map(|r| r.route), Some(ChatMixRoute::Chat));
    assert_eq!(config.get("spotify").map(|r| r.route), Some(ChatMixRoute::Game));
}
