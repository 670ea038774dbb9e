//! Typed parsing for the SteelSeries Arctis Nova 7 dongle's HID reports.
//!
//! These are **unnumbered** HID reports: the opcode sits at byte 0. The Windows HID
//! stack can prepend a single report-ID `0x00` byte, so one leading `0x00` is stripped
//! before decoding (none of the opcodes is `0x00`). Every field then sits at a fixed
//! offset from the opcode, so a value byte can never be mistaken for an opcode.
//!
//! Frame layouts (offsets relative to the opcode at index 0, after report-ID strip):
//!
//! ```text
//! 0xB0 status  (MI_03):  +2 battery%   +3 connection/charge   +4 game   +5 chat
//! 0xB9 power   (MI_05):  +1 connection (0x02 off, 0x03 on)
//! 0x45 chatmix (MI_05):  +1 game       +2 chat                (each 0..=100)
//! 0x52 mute    (MI_05):  +2 muted      (0x00 unmuted, 0x01 muted)
//! 0xB7 battery (MI_05):  +1 battery%
//! ```

use vstd::prelude::*;

verus! {

/// Maximum chatmix wheel value (`0x64`); both game and chat saturate here.
pub const CHATMIX_MAX: u8 = 100;

/// Opcode of the `0xB0` status poll reply.
pub const OPCODE_STATUS: u8 = 0xB0;

/// Opcode of the `0xB9` power event.
pub const OPCODE_POWER: u8 = 0xB9;

/// Opcode of the `0x45` chatmix wheel event.
pub const OPCODE_CHATMIX: u8 = 0x45;

/// Opcode of the `0x52` microphone mute event.
pub const OPCODE_MUTE: u8 = 0x52;

/// Opcode of the `0xB7` battery event.
pub const OPCODE_BATTERY: u8 = 0xB7;

/// Byte-level decode of a report, dispatched on the leading opcode byte. The fields
/// are raw bytes; [`HidReport`] applies the semantics.
#[derive(Debug, Clone, Copy, PartialEq, Eq, Structural)]
pub enum RawReport {
    Status { battery: u8, charge: u8, game: u8, chat: u8 },
    Power { state: u8 },
    ChatMix { game: u8, chat: u8 },
    Mute { muted: u8 },
    Battery { percent: u8 },
}

/// A decoded, semantically-validated HID report. Each variant carries exactly the
/// fields its opcode defines; `Status` is the only report that bundles several (it is
/// the `0xB0` poll reply).
#[allow(inconsistent_fields)]
#[derive(Debug, Clone, Copy, PartialEq, Eq)]
pub enum HidReport {
    /// `0xB0` status poll reply (MI_03). `connected` is `None` when the charge byte is
    /// an unrecognised value, so battery/chatmix are still reported.
    Status { connected: Option<bool>, battery: Option<u8>, chatmix: Option<(u8, u8)> },
    /// `0xB9` unsolicited power on/off event (MI_05).
    Connection { connected: bool },
    /// `0x45` chatmix wheel movement (MI_05).
    ChatMix { game: u8, chat: u8 },
    /// `0x52` microphone mute toggle (MI_05).
    Mute { muted: bool },
    /// `0xB7` battery level update (MI_05).
    Battery { percent: u8 },
}

// ---------------------------------------------------------------------------------------
// Specification of the frame format
// ---------------------------------------------------------------------------------------

/// The report with one leading report-ID `0x00` removed, if present.
pub open spec fn report_body(report: Seq<u8>) -> Seq<u8> {
    if report.len() > 0 && report[0] == 0x00 {
        report.drop_first()
    } else {
        report
    }
}

/// Number of bytes (opcode included) each known opcode's frame needs.
pub open spec fn frame_len(opcode: u8) -> int {
    if opcode == OPCODE_STATUS {
        6
    } else if opcode == OPCODE_POWER || opcode == OPCODE_BATTERY {
        2
    } else {
        3
    }
}

/// True for the five opcodes the dongle is known to send.
pub open spec fn is_known_opcode(opcode: u8) -> bool {
    opcode == OPCODE_STATUS || opcode == OPCODE_POWER || opcode == OPCODE_CHATMIX
        || opcode == OPCODE_MUTE || opcode == OPCODE_BATTERY
}

/// The byte layout of a report body: the raw fields at their fixed offsets, or `None`
/// when the opcode is unknown or the body is shorter than its frame.
pub open spec fn spec_decode_raw(body: Seq<u8>) -> Option<RawReport> {
    if body.len() == 0 || !is_known_opcode(body[0]) || body.len() < frame_len(body[0]) {
        None
    } else if body[0] == OPCODE_STATUS {
        Some(RawReport::Status { battery: body[2], charge: body[3], game: body[4], chat: body[5] })
    } else if body[0] == OPCODE_POWER {
        Some(RawReport::Power { state: body[1] })
    } else if body[0] == OPCODE_CHATMIX {
        Some(RawReport::ChatMix { game: body[1], chat: body[2] })
    } else if body[0] == OPCODE_MUTE {
        Some(RawReport::Mute { muted: body[2] })
    } else {
        Some(RawReport::Battery { percent: body[1] })
    }
}

/// `0xB0` charge/connection byte: `0x00` off, `0x01` charging, `0x03` on battery.
pub open spec fn spec_connection_state(byte: u8) -> Option<bool> {
    if byte == 0x00 {
        Some(false)
    } else if byte == 0x01 || byte == 0x03 {
        Some(true)
    } else {
        None
    }
}

/// `0xB9` power-event state byte: `0x02` off, `0x03` on.
pub open spec fn spec_power_state(byte: u8) -> Option<bool> {
    if byte == 0x02 {
        Some(false)
    } else if byte == 0x03 {
        Some(true)
    } else {
        None
    }
}

/// `0x52` mute byte: `0x00` unmuted, `0x01` muted.
pub open spec fn spec_mute_state(byte: u8) -> Option<bool> {
    if byte == 0x00 {
        Some(false)
    } else if byte == 0x01 {
        Some(true)
    } else {
        None
    }
}

/// A battery percentage is accepted only when it is a sane `0..=100`.
pub open spec fn spec_percent(byte: u8) -> Option<u8> {
    if byte <= 100 {
        Some(byte)
    } else {
        None
    }
}

/// The game/chat pair, accepted only when both are in `0..=100`.
pub open spec fn spec_chatmix(game: u8, chat: u8) -> Option<(u8, u8)> {
    if game <= CHATMIX_MAX && chat <= CHATMIX_MAX {
        Some((game, chat))
    } else {
        None
    }
}

/// The device semantics applied to a raw decode.
pub open spec fn spec_interpret(raw: RawReport) -> Option<HidReport> {
    match raw {
        RawReport::Status { battery, charge, game, chat } => Some(
            HidReport::Status {
                connected: spec_connection_state(charge),
                battery: spec_percent(battery),
                chatmix: spec_chatmix(game, chat),
            },
        ),
        RawReport::Power { state } => match spec_power_state(state) {
            Some(connected) => Some(HidReport::Connection { connected }),
            None => None,
        },
        RawReport::ChatMix { game, chat } => match spec_chatmix(game, chat) {
            Some(pair) => Some(HidReport::ChatMix { game: pair.0, chat: pair.1 }),
            None => None,
        },
        RawReport::Mute { muted } => match spec_mute_state(muted) {
            Some(muted) => Some(HidReport::Mute { muted }),
            None => None,
        },
        RawReport::Battery { percent } => match spec_percent(percent) {
            Some(percent) => Some(HidReport::Battery { percent }),
            None => None,
        },
    }
}

/// What a whole HID report (possibly with a report-ID prefix) decodes to.
pub open spec fn spec_parse(report: Seq<u8>) -> Option<HidReport> {
    match spec_decode_raw(report_body(report)) {
        Some(raw) => spec_interpret(raw),
        None => None,
    }
}

/// The opcode a decoded report was read from.
pub open spec fn report_opcode(report: HidReport) -> u8 {
    match report {
        HidReport::Status { .. } => OPCODE_STATUS,
        HidReport::Connection { .. } => OPCODE_POWER,
        HidReport::ChatMix { .. } => OPCODE_CHATMIX,
        HidReport::Mute { .. } => OPCODE_MUTE,
        HidReport::Battery { .. } => OPCODE_BATTERY,
    }
}

/// Every percentage and wheel value a report carries lies in `0..=100`.
pub open spec fn values_in_range(report: HidReport) -> bool {
    match report {
        HidReport::Status { battery, chatmix, .. } => {
            &&& (battery matches Some(b) ==> b <= 100)
            &&& (chatmix matches Some(p) ==> p.0 <= CHATMIX_MAX && p.1 <= CHATMIX_MAX)
        },
        HidReport::Connection { .. } => true,
        HidReport::ChatMix { game, chat } => game <= CHATMIX_MAX && chat <= CHATMIX_MAX,
        HidReport::Mute { .. } => true,
        HidReport::Battery { percent } => percent <= 100,
    }
}

// ---------------------------------------------------------------------------------------
// Executable decoding
// ---------------------------------------------------------------------------------------

impl HidReport {
    /// Parse a raw HID report. Returns `None` when the opcode is unknown, the report is
    /// truncated, or a state byte holds an unrecognised value.
    pub fn parse(report: &[u8]) -> (res: Option<HidReport>)
        ensures
            res == spec_parse(report@),
            res matches Some(r) ==> report_opcode(r) == report_body(report@)[0],
            res matches Some(r) ==> values_in_range(r),
    {
        let body = strip_report_id(report);
        let raw = match decode_raw(body) {
            Some(raw) => raw,
            None => return None,
        };
        match raw {
            RawReport::Status { battery, charge, game, chat } => Some(
                HidReport::Status {
                    connected: connection_state(charge),
                    battery: percent(battery),
                    chatmix: chatmix(game, chat),
                },
            ),
            RawReport::Power { state } => match power_state(state) {
                Some(connected) => Some(HidReport::Connection { connected }),
                None => None,
            },
            RawReport::ChatMix { game, chat } => match chatmix(game, chat) {
                Some((game, chat)) => Some(HidReport::ChatMix { game, chat }),
                None => None,
            },
            RawReport::Mute { muted } => match mute_state(muted) {
                Some(muted) => Some(HidReport::Mute { muted }),
                None => None,
            },
            RawReport::Battery { percent: raw } => match percent(raw) {
                Some(percent) => Some(HidReport::Battery { percent }),
                None => None,
            },
        }
    }
}

/// Strip a single leading report-ID `0x00` byte if present (HID unnumbered-report
/// convention). None of the opcodes is `0x00`, so this is unambiguous.
fn strip_report_id(report: &[u8]) -> (body: &[u8])
    ensures
        body@ == report_body(report@),
{
    match report.first() {
        Some(first) if *first == 0x00 => {
            let body = &report[1..report.len()];
            assert(body@ =~= report@.drop_first());
            body
        },
        _ => report,
    }
}

/// Read the raw fields of a report body at their fixed offsets.
fn decode_raw(body: &[u8]) -> (res: Option<RawReport>)
    ensures
        res == spec_decode_raw(body@),
{
    if body.len() == 0 {
        return None;
    }
    let opcode = body[0];
    if opcode == OPCODE_STATUS {
        if body.len() < 6 {
            None
        } else {
            Some(RawReport::Status { battery: body[2], charge: body[3], game: body[4], chat: body[5] })
        }
    } else if opcode == OPCODE_POWER {
        if body.len() < 2 {
            None
        } else {
            Some(RawReport::Power { state: body[1] })
        }
    } else if opcode == OPCODE_CHATMIX {
        if body.len() < 3 {
            None
        } else {
            Some(RawReport::ChatMix { game: body[1], chat: body[2] })
        }
    } else if opcode == OPCODE_MUTE {
        if body.len() < 3 {
            None
        } else {
            Some(RawReport::Mute { muted: body[2] })
        }
    } else if opcode == OPCODE_BATTERY {
        if body.len() < 2 {
            None
        } else {
            Some(RawReport::Battery { percent: body[1] })
        }
    } else {
        None
    }
}

/// `0xB0` charge/connection byte: `0x00` off, `0x01` charging, `0x03` on battery.
fn connection_state(byte: u8) -> (res: Option<bool>)
    ensures
        res == spec_connection_state(byte),
{
    match byte {
        0x00 => Some(false),
        0x01 | 0x03 => Some(true),
        _ => None,
    }
}

/// `0xB9` power-event state byte: `0x02` off, `0x03` on.
fn power_state(byte: u8) -> (res: Option<bool>)
    ensures
        res == spec_power_state(byte),
{
    match byte {
        0x02 => Some(false),
        0x03 => Some(true),
        _ => None,
    }
}

/// `0x52` mute byte: `0x00` unmuted, `0x01` muted.
fn mute_state(byte: u8) -> (res: Option<bool>)
    ensures
        res == spec_mute_state(byte),
{
    match byte {
        0x00 => Some(false),
        0x01 => Some(true),
        _ => None,
    }
}

/// Accept a battery percentage only when it is a sane `0..=100`.
fn percent(byte: u8) -> (res: Option<u8>)
    ensures
        res == spec_percent(byte),
{
    if byte <= 100 {
        Some(byte)
    } else {
        None
    }
}

/// Pair the game/chat bytes, accepting only in-range `0..=100` values so a malformed
/// or truncated report does not surface a bogus wheel position.
fn chatmix(game: u8, chat: u8) -> (res: Option<(u8, u8)>)
    ensures
        res == spec_chatmix(game, chat),
{
    if game <= CHATMIX_MAX && chat <= CHATMIX_MAX {
        Some((game, chat))
    } else {
        None
    }
}

// ---------------------------------------------------------------------------------------
// Laws of the frame format
// ---------------------------------------------------------------------------------------

/// A Windows-style report-ID `0x00` prefix does not change what a report decodes to:
/// for any report that is empty or does not itself start with `0x00`, prefixing it with
/// one `0x00` byte parses identically.
pub proof fn law_report_id_prefix_is_transparent(report: Seq<u8>)
    requires
        report.len() == 0 || report[0] != 0x00,
    ensures
        spec_parse(seq![0x00u8] + report) == spec_parse(report),
{
    let prefixed = seq![0x00u8] + report;
    assert(prefixed.drop_first() =~= report);
}

/// Trailing bytes (the zero padding of a 64-byte frame, or anything else) never change
/// a report that already parses: fields are read at fixed offsets inside the frame.
pub proof fn law_trailing_bytes_are_ignored(report: Seq<u8>, tail: Seq<u8>)
    requires
        spec_parse(report) is Some,
    ensures
        spec_parse(report + tail) == spec_parse(report),
{
    let whole = report + tail;
    assert(whole[0] == report[0]);
    let body = report_body(report);
    let whole_body = report_body(whole);
    if report[0] == 0x00 {
        assert(whole_body =~= body + tail);
    } else {
        assert(whole_body =~= body + tail);
    }
    assert(whole_body.subrange(0, body.len() as int) =~= body);
    assert(forall|i: int| 0 <= i < body.len() ==> whole_body[i] == body[i]);
}

/// The kind of report is decided by the opcode byte alone: a value byte elsewhere in
/// the frame (such as a 69% battery, `0x45`, equal to the chatmix opcode) never turns
/// a status reply into another kind of report.
pub proof fn law_kind_follows_opcode(report: Seq<u8>)
    requires
        spec_parse(report) is Some,
    ensures
        report_opcode(spec_parse(report).unwrap()) == report_body(report)[0],
{
}

} // verus!
