use handoffgg::launch::{has_flag, HIDDEN_FLAG, QUIT_FLAG};
use handoffgg::models::{AppConfig, DiagnosticCategory, DiagnosticEvent, DiagnosticLevel, PresenceSnapshot, Sidetone, now_ms};
use handoffgg::text::{contains, file_name, parse_u32, to_ascii_lowercase, trim, widestring};
use handoffgg::theme::{accent_from_gsettings, gnome_accent_hex, gsettings_accent_name, rgb_hex};

#[test]
fn parse_u32_matches_std() {
    for text in ["0", "42", "+7", "0007", "4294967295", "4294967296", "", "+", "-1", "12a", " 1", "99999999999"] {
        assert_eq!(parse_u32(text), text.parse::<u32>().ok(), "{text:?}");
    }
}

#[test]
fn widestring_is_nul_terminated_utf16() {
    for text in ["", "abc", "é€", "🎧 headset"] {
        let expected: Vec<u16> = text.encode_utf16().chain(std::iter::once(0)).collect();
        assert_eq!(widestring(text), expected);
    }
}

#[test]
fn string_helpers_match_std() {
    for text in ["  Hello World \t", "\u{2003}x\u{205F}", "ÅBC-def", "", "   "] {
        assert_eq!(trim(text), text.trim());
        assert_eq!(to_ascii_lowercase(text), text.to_ascii_lowercase());
    }
    assert!(contains("teamspeak", "speak"));
    assert!(contains("abc", ""));
    assert!(!contains("ab", "abc"));
    assert_eq!(file_name("C:\\a\\b.exe").as_deref(), Some("b.exe"));
    assert_eq!(file_name("/usr/bin/x").as_deref(), Some("x"));
    assert_eq!(file_name("plain").as_deref(), Some("plain"));
    assert_eq!(file_name("dir/"), None);
}

#[test]
fn accent_colors() {
    assert_eq!(gnome_accent_hex("blue"), Some("#3584e4"));
    assert_eq!(gnome_accent_hex("slate"), Some("#6f8396"));
    assert_eq!(gnome_accent_hex("Blue"), None);
    assert_eq!(gsettings_accent_name("'teal'\n"), "teal");
    assert_eq!(accent_from_gsettings("'purple'\n"), Some("#9141ac"));
    assert_eq!(accent_from_gsettings("'magenta'\n"), None);
    assert_eq!(rgb_hex(0x1b, 0x1d, 0xff), "#1b1dff");
    assert_eq!(rgb_hex(0, 10, 255), "#000aff");
}

#[test]
fn launch_flags() {
    let args = vec!["handoffgg".to_string(), "--hidden".to_string()];
    assert!(has_flag(&args, HIDDEN_FLAG));
    assert!(!has_flag(&args, QUIT_FLAG));
    assert!(!has_flag(&vec!["--hiddenx".to_string()], HIDDEN_FLAG));
}

#[test]
fn model_defaults_and_constructors() {
    let config = AppConfig::default();
    assert!(config.autoswitch_enabled);
    assert_eq!(config.low_battery_percent, 15);
    assert_eq!(config.sidetone, Sidetone::Off);
    assert!(config.debug.chatmix_enabled && !config.debug.chatmix_dry_run && config.debug.audio_session_polling_enabled);
    assert!(config.output.priorities.is_empty() && config.input.priorities.is_empty());
    assert!(config.chatmix.app_routes.is_empty());
    assert_eq!(
        [Sidetone::Off, Sidetone::Low, Sidetone::Medium, Sidetone::High].map(Sidetone::level_byte),
        [0, 1, 2, 3]
    );

    let err = PresenceSnapshot::error("Presence has not been initialized yet".to_string());
    assert_eq!(err.error.as_deref(), Some("Presence has not been initialized yet"));
    assert!(!err.connected && !err.has_connection_status);
    assert!(err.observed_at_ms > 0);

    let before = now_ms();
    let event = DiagnosticEvent::warn("w".to_string()).category(DiagnosticCategory::Chatmix);
    assert_eq!(event.level, DiagnosticLevel::Warn);
    assert_eq!(event.category, DiagnosticCategory::Chatmix);
    assert_eq!(event.message, "w");
    assert!(event.timestamp_ms >= before);
    let info = DiagnosticEvent::info("i".to_string());
    assert_eq!(info.level, DiagnosticLevel::Info);
    assert_eq!(info.category, DiagnosticCategory::General);
}
