use handoffgg::hid_report::HidReport;

/// Pad an opcode + leading bytes into a full 64-byte report, exactly as the dongle
/// delivers it (the rest is zero padding).
fn frame(prefix: &[u8]) -> [u8; 64] {
    let mut buf = [0u8; 64];
    buf[..prefix.len()].copy_from_slice(prefix);
    buf
}

// --- Full 64-byte frames captured live from the dongle ---

#[test]
fn captured_power_events() {
    assert_eq!(
        HidReport::parse(&frame(&[0xB9, 0x02])),
        Some(HidReport::Connection { connected: false })
    );
    assert_eq!(
        HidReport::parse(&frame(&[0xB9, 0x03])),
        Some(HidReport::Connection { connected: true })
    );
}

#[test]
fn captured_mute_events() {
    assert_eq!(
        HidReport::parse(&frame(&[0x52, 0x00, 0x01])),
        Some(HidReport::Mute { muted: true })
    );
    assert_eq!(
        HidReport::parse(&frame(&[0x52, 0x00, 0x00])),
        Some(HidReport::Mute { muted: false })
    );
}

#[test]
fn captured_status_frame() {
    // Exact MI_03 status report: connected, 68% battery, wheel at game=99 chat=100.
    // The stray 0x01 at +9 and the trailing padding must not affect parsing.
    let report = frame(&[0xB0, 0x03, 0x44, 0x03, 0x63, 0x64, 0x00, 0x00, 0x00, 0x01]);
    assert_eq!(
        HidReport::parse(&report),
        Some(HidReport::Status {
            connected: Some(true),
            battery: Some(68),
            chatmix: Some((99, 100)),
        })
    );
}

#[test]
fn captured_chatmix_wheel_sweep() {
    // Every distinct 0x45 frame seen while turning the wheel: toward game (chat
    // drops, game pinned at 100) and toward chat (game drops, chat pinned at 100).
    let captured: &[(u8, u8)] = &[
        (0x64, 0x64),
        (0x64, 0x59),
        (0x64, 0x58),
        (0x64, 0x56),
        (0x64, 0x4A),
        (0x64, 0x49),
        (0x64, 0x46),
        (0x64, 0x3A),
        (0x64, 0x39),
        (0x64, 0x2B),
        (0x64, 0x0F),
        (0x64, 0x00),
        (0x63, 0x64),
        (0x61, 0x64),
        (0x58, 0x64),
        (0x3D, 0x64),
        (0x24, 0x64),
    ];
    for &(game, chat) in captured {
        assert_eq!(
            HidReport::parse(&frame(&[0x45, game, chat])),
            Some(HidReport::ChatMix { game, chat }),
            "frame 45 {game:02X} {chat:02X}",
        );
    }
}

// Frames with the trailing zero padding omitted.

#[test]
fn parses_power_off_and_on_events() {
    assert_eq!(
        HidReport::parse(&[0xB9, 0x02, 0x00, 0x00]),
        Some(HidReport::Connection { connected: false })
    );
    assert_eq!(
        HidReport::parse(&[0xB9, 0x03, 0x00, 0x00]),
        Some(HidReport::Connection { connected: true })
    );
}

#[test]
fn unknown_power_state_is_rejected() {
    assert_eq!(HidReport::parse(&[0xB9, 0x04, 0x00, 0x00]), None);
}

#[test]
fn parses_mute_toggle() {
    assert_eq!(
        HidReport::parse(&[0x52, 0x00, 0x01]),
        Some(HidReport::Mute { muted: true })
    );
    assert_eq!(
        HidReport::parse(&[0x52, 0x00, 0x00]),
        Some(HidReport::Mute { muted: false })
    );
}

#[test]
fn parses_chatmix_wheel_sweep() {
    // Centered, toward-game (chat drops), and toward-chat (game drops).
    assert_eq!(
        HidReport::parse(&[0x45, 0x64, 0x64]),
        Some(HidReport::ChatMix { game: 100, chat: 100 })
    );
    assert_eq!(
        HidReport::parse(&[0x45, 0x64, 0x00]),
        Some(HidReport::ChatMix { game: 100, chat: 0 })
    );
    assert_eq!(
        HidReport::parse(&[0x45, 0x24, 0x64]),
        Some(HidReport::ChatMix { game: 36, chat: 100 })
    );
}

#[test]
fn parses_status_report() {
    // B0 03 44 03 63 64 ... — connected, 68% battery, wheel at game=99 chat=100.
    assert_eq!(
        HidReport::parse(&[0xB0, 0x03, 0x44, 0x03, 0x63, 0x64, 0x00]),
        Some(HidReport::Status {
            connected: Some(true),
            battery: Some(68),
            chatmix: Some((99, 100)),
        })
    );
}

#[test]
fn parses_battery_event() {
    assert_eq!(
        HidReport::parse(&[0xB7, 0x4B, 0x00, 0x00]),
        Some(HidReport::Battery { percent: 75 })
    );
}

#[test]
fn strips_leading_report_id_byte() {
    // Same frames with a Windows-style report-ID 0x00 prefix parse identically.
    assert_eq!(
        HidReport::parse(&[0x00, 0x45, 0x24, 0x64]),
        Some(HidReport::ChatMix { game: 36, chat: 100 })
    );
    assert_eq!(
        HidReport::parse(&[0x00, 0xB0, 0x03, 0x44, 0x03, 0x63, 0x64]),
        Some(HidReport::Status {
            connected: Some(true),
            battery: Some(68),
            chatmix: Some((99, 100)),
        })
    );
}

#[test]
fn battery_value_colliding_with_chatmix_opcode_is_not_a_wheel_event() {
    // 69% battery encodes as 0x45 — the ChatMix opcode. Fixed offsets decode it as
    // battery at +2; it is never mistaken for a wheel event.
    assert_eq!(
        HidReport::parse(&[0xB0, 0x03, 0x45, 0x03, 0x64, 0x64]),
        Some(HidReport::Status {
            connected: Some(true),
            battery: Some(69),
            chatmix: Some((100, 100)),
        })
    );
}

#[test]
fn battery_value_colliding_with_mute_opcode_is_not_a_mute_event() {
    // 82% battery encodes as 0x52 — the mute opcode.
    assert_eq!(
        HidReport::parse(&[0xB0, 0x03, 0x52, 0x03, 0x64, 0x64]),
        Some(HidReport::Status {
            connected: Some(true),
            battery: Some(82),
            chatmix: Some((100, 100)),
        })
    );
}

#[test]
fn disconnected_status_reports_connection_and_battery() {
    // B0 02 44 00 ... — headset off; +3 charge byte 0x00.
    assert_eq!(
        HidReport::parse(&[0xB0, 0x02, 0x44, 0x00, 0x64, 0x64]),
        Some(HidReport::Status {
            connected: Some(false),
            battery: Some(68),
            chatmix: Some((100, 100)),
        })
    );
}

#[test]
fn unknown_opcode_is_rejected() {
    assert_eq!(HidReport::parse(&[0x11, 0x22, 0x33]), None);
    assert_eq!(HidReport::parse(&[]), None);
}

// --- Further cases: truncation, out-of-range values, unknown state bytes ---

#[test]
fn truncated_frames_are_rejected() {
    assert_eq!(HidReport::parse(&[0xB0, 0x03, 0x44, 0x03, 0x63]), None);
    assert_eq!(HidReport::parse(&[0xB9]), None);
    assert_eq!(HidReport::parse(&[0x45, 0x10]), None);
    assert_eq!(HidReport::parse(&[0x52, 0x00]), None);
    assert_eq!(HidReport::parse(&[0xB7]), None);
    assert_eq!(HidReport::parse(&[0x00]), None);
}

#[test]
fn out_of_range_values_are_rejected_or_dropped() {
    // A wheel event above 100 is rejected outright.
    assert_eq!(HidReport::parse(&[0x45, 0x65, 0x10]), None);
    assert_eq!(HidReport::parse(&[0x45, 0x10, 0xFF]), None);
    // A battery event above 100 is rejected.
    assert_eq!(HidReport::parse(&[0xB7, 0x65]), None);
    // A status reply keeps what it can: unknown charge byte and bad values become None.
    assert_eq!(
        HidReport::parse(&[0xB0, 0x00, 0xC8, 0x02, 0x65, 0x10]),
        Some(HidReport::Status { connected: None, battery: None, chatmix: None })
    );
    // 0x01 (charging) counts as connected.
    assert_eq!(
        HidReport::parse(&[0xB0, 0x00, 0x64, 0x01, 0x00, 0x00]),
        Some(HidReport::Status {
            connected: Some(true),
            battery: Some(100),
            chatmix: Some((0, 0)),
        })
    );
}

#[test]
fn unknown_mute_state_is_rejected() {
    assert_eq!(HidReport::parse(&[0x52, 0x00, 0x02]), None);
}

#[test]
fn only_one_report_id_byte_is_stripped() {
    assert_eq!(HidReport::parse(&[0x00, 0x00, 0xB9, 0x03]), None);
    assert_eq!(
        HidReport::parse(&[0x00, 0xB9, 0x03]),
        HidReport::parse(&[0xB9, 0x03])
    );
}
