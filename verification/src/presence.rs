//! Headset presence: matching the SteelSeries dongle's HID interfaces, turning decoded
//! HID reports into presence snapshots, and stitching partial snapshots together.
//!
//! The HID I/O itself (enumerating devices, writing the `0xB0` poll, reading reports)
//! is done by the caller; this module decides what each read or failure means.

use std::time::Duration;
use vstd::prelude::*;

use crate::hid_report::{spec_parse, HidReport};
use crate::models::{
    clone_opt_string, now_ms, opt_string_view, PresenceSnapshot, PresenceView,
};
use crate::text::{hex2, push_hex2, push_str};

verus! {

/// The presence source the monitor drives: an initial snapshot, then events.
pub trait HeadsetPresenceBackend: Send {
    /// Query the current presence once.
    fn snapshot(&mut self) -> PresenceSnapshot;

    /// Wait up to `timeout` for the next presence event.
    fn wait_for_event(&mut self, timeout: Duration) -> Option<PresenceSnapshot>;

    /// Actively re-query the status interface (the `0xB0` poll). The dongle does not
    /// push the chatmix wheel position on connect, so it is read back on demand.
    fn refresh_status(&mut self) -> PresenceSnapshot;
}

/// One enumerated HID interface, as the device list reports it.
#[derive(Debug, Clone, PartialEq, Eq)]
pub struct HidDeviceInfo {
    pub vendor_id: u16,
    pub product_id: u16,
    pub interface_number: i32,
    pub path: String,
}

/// Which HID interfaces belong to the headset dongle, and which carry status and
/// control reports.
#[derive(Debug, Clone, PartialEq, Eq)]
pub struct SteelSeriesHidPresenceBackend {
    pub vendor_id: u16,
    pub product_ids: Vec<u16>,
    pub status_interface_number: i32,
    pub mute_interface_number: i32,
    pub preferred_path: Option<String>,
}

/// A device belongs to the dongle and is the given interface.
pub open spec fn device_matches(
    backend: SteelSeriesHidPresenceBackend,
    device: HidDeviceInfo,
    interface_number: i32,
) -> bool {
    &&& device.vendor_id == backend.vendor_id
    &&& backend.product_ids@.contains(device.product_id)
    &&& device.interface_number == interface_number
}

impl SteelSeriesHidPresenceBackend {
    /// The SteelSeries Arctis Nova 7 family: vendor `0x1038`, status reports on
    /// interface 3, control reports on interface 5.
    pub fn arctis_nova_7() -> (b: Self)
        ensures
            b.vendor_id == 0x1038,
            b.product_ids@ == seq![0x2202u16, 0x2206u16, 0x220Au16, 0x223Au16, 0x2258u16, 0x22A1u16],
            b.status_interface_number == 3,
            b.mute_interface_number == 5,
            b.preferred_path is None,
    {
        let mut product_ids: Vec<u16> = Vec::new();
        product_ids.push(0x2202);  // Arctis Nova 7
        product_ids.push(0x2206);  // Arctis Nova 7X
        product_ids.push(0x220A);  // Arctis Nova 7P
        product_ids.push(0x223A);  // Arctis Nova 7 Diablo IV
        product_ids.push(0x2258);  // Arctis Nova 7X V2
        product_ids.push(0x22A1);  // Seen on some active dongle interfaces after pairing/firmware updates.
        assert(product_ids@ =~= seq![0x2202u16, 0x2206u16, 0x220Au16, 0x223Au16, 0x2258u16, 0x22A1u16]);
        SteelSeriesHidPresenceBackend {
            vendor_id: 0x1038,
            product_ids,
            status_interface_number: 3,
            mute_interface_number: 5,
            preferred_path: None,
        }
    }

    /// Whether a device is the dongle's given interface.
    pub fn matches_device(&self, device: &HidDeviceInfo, interface_number: i32) -> (r: bool)
        ensures
            r == device_matches(*self, *device, interface_number),
    {
        if device.vendor_id != self.vendor_id || device.interface_number != interface_number {
            return false;
        }
        let mut i: usize = 0;
        while i < self.product_ids.len()
            invariant
                i <= self.product_ids@.len(),
                device.vendor_id == self.vendor_id,
                device.interface_number == interface_number,
                forall|k: int| 0 <= k < i ==> self.product_ids@[k] != device.product_id,
            decreases self.product_ids@.len() - i,
        {
            if self.product_ids[i] == device.product_id {
                assert(self.product_ids@[i as int] == device.product_id);
                return true;
            }
            i = i + 1;
        }
        false
    }

    /// Indices, in list order, of the devices that are the dongle's given interface.
    pub fn matching_devices(&self, devices: &Vec<HidDeviceInfo>, interface_number: i32) -> (idx:
        Vec<usize>)
        ensures
            forall|k: int|
                0 <= k < idx@.len() ==> #[trigger] idx@[k] < devices@.len() && device_matches(
                    *self,
                    devices@[idx@[k] as int],
                    interface_number,
                ),
            forall|k1: int, k2: int| 0 <= k1 < k2 < idx@.len() ==> idx@[k1] < idx@[k2],
            forall|i: int|
                0 <= i < devices@.len() && device_matches(*self, #[trigger] devices@[i], interface_number)
                    ==> idx@.contains(i as usize),
    {
        let mut idx: Vec<usize> = Vec::new();
        let mut i: usize = 0;
        while i < devices.len()
            invariant
                i <= devices@.len(),
                forall|k: int|
                    0 <= k < idx@.len() ==> #[trigger] idx@[k] < i && device_matches(
                        *self,
                        devices@[idx@[k] as int],
                        interface_number,
                    ),
                forall|k1: int, k2: int| 0 <= k1 < k2 < idx@.len() ==> idx@[k1] < idx@[k2],
                forall|j: int|
                    0 <= j < i && device_matches(*self, #[trigger] devices@[j], interface_number)
                        ==> idx@.contains(j as usize),
            decreases devices@.len() - i,
        {
            if self.matches_device(&devices[i], interface_number) {
                let ghost before = idx@;
                idx.push(i);
                assert(idx@[idx@.len() - 1] == i);
                assert forall|j: int|
                    0 <= j < i + 1 && device_matches(
                        *self,
                        #[trigger] devices@[j],
                        interface_number,
                    ) implies idx@.contains(j as usize) by {
                    if j < i {
                        let k = choose|k: int| 0 <= k < before.len() && before[k] == j as usize;
                        assert(idx@[k] == j as usize);
                    } else {
                        assert(idx@[idx@.len() - 1] == j as usize);
                    }
                }
            }
            i = i + 1;
        }
        idx
    }
}

// ---------------------------------------------------------------------------------------
// Snapshots from reports
// ---------------------------------------------------------------------------------------

/// The first of two options that is present.
pub open spec fn or_else<T>(a: Option<T>, b: Option<T>) -> Option<T> {
    match a {
        Some(x) => Some(x),
        None => b,
    }
}

/// A snapshot view with nothing known, observed at `now`.
pub open spec fn empty_view(now: u128) -> PresenceView {
    PresenceView {
        connected: false,
        has_connection_status: false,
        mic_muted: None,
        battery_percent: None,
        game_volume: None,
        chat_volume: None,
        raw_response: None,
        device_path: None,
        error: None,
        observed_at_ms: now,
    }
}

/// The partial snapshot a decoded report yields: each report fills only the fields it
/// carries.
pub open spec fn spec_snapshot_from_report(
    report: HidReport,
    raw_response: Seq<char>,
    device_path: Seq<char>,
    now: u128,
) -> PresenceView {
    let base = PresenceView {
        raw_response: Some(raw_response),
        device_path: Some(device_path),
        ..empty_view(now)
    };
    match report {
        HidReport::Status { connected, battery, chatmix } => PresenceView {
            connected: connected == Some(true),
            has_connection_status: connected is Some,
            battery_percent: battery,
            game_volume: match chatmix {
                Some(p) => Some(p.0),
                None => None,
            },
            chat_volume: match chatmix {
                Some(p) => Some(p.1),
                None => None,
            },
            ..base
        },
        HidReport::Connection { connected } => PresenceView {
            connected,
            has_connection_status: true,
            ..base
        },
        HidReport::ChatMix { game, chat } => PresenceView {
            game_volume: Some(game),
            chat_volume: Some(chat),
            ..base
        },
        HidReport::Mute { muted } => PresenceView { mic_muted: Some(muted), ..base },
        HidReport::Battery { percent } => PresenceView { battery_percent: Some(percent), ..base },
    }
}

/// Stitch a newer partial snapshot onto a previous one: the newer report's fields win
/// where it carries them, and the previous values are kept otherwise.
pub open spec fn spec_merge_partial(previous: PresenceView, next: PresenceView) -> PresenceView {
    PresenceView {
        connected: if next.has_connection_status {
            next.connected
        } else {
            previous.connected
        },
        has_connection_status: next.has_connection_status || previous.has_connection_status,
        mic_muted: or_else(next.mic_muted, previous.mic_muted),
        battery_percent: or_else(next.battery_percent, previous.battery_percent),
        game_volume: or_else(next.game_volume, previous.game_volume),
        chat_volume: or_else(next.chat_volume, previous.chat_volume),
        raw_response: or_else(next.raw_response, previous.raw_response),
        device_path: or_else(next.device_path, previous.device_path),
        error: or_else(next.error, previous.error),
        observed_at_ms: next.observed_at_ms,
    }
}

/// Bytes as upper-case two-digit hex, separated by single spaces (`B0 03 44`).
pub open spec fn spec_hex_bytes(bytes: Seq<u8>) -> Seq<char>
    decreases bytes.len(),
{
    if bytes.len() == 0 {
        Seq::empty()
    } else if bytes.len() == 1 {
        hex2(bytes[0], true)
    } else {
        spec_hex_bytes(bytes.drop_last()) + seq![' '] + hex2(bytes.last(), true)
    }
}

/// Bytes as upper-case two-digit hex, separated by single spaces.
pub fn hex_bytes(bytes: &[u8]) -> (s: String)
    ensures
        s@ == spec_hex_bytes(bytes@),
{
    let mut s = String::new();
    let mut i: usize = 0;
    while i < bytes.len()
        invariant
            i <= bytes@.len(),
            s@ == spec_hex_bytes(bytes@.subrange(0, i as int)),
        decreases bytes@.len() - i,
    {
        let ghost prefix = bytes@.subrange(0, i as int);
        if i > 0 {
            s.push(' ');
        }
        push_hex2(&mut s, bytes[i], true);
        i = i + 1;
        proof {
            let next = bytes@.subrange(0, i as int);
            assert(next.drop_last() =~= prefix);
            assert(next.last() == bytes@[i - 1]);
            if i == 1 {
                assert(prefix.len() == 0);
                assert(s@ =~= hex2(bytes@[0], true));
            } else {
                assert(s@ =~= spec_hex_bytes(prefix) + seq![' '] + hex2(next.last(), true));
            }
        }
    }
    assert(bytes@.subrange(0, bytes@.len() as int) =~= bytes@);
    s
}

/// Map a decoded report onto a partial snapshot observed at `observed_at_ms`.
pub fn snapshot_from_report_at(
    report: HidReport,
    raw_response: String,
    device_path: &str,
    observed_at_ms: u128,
) -> (s: PresenceSnapshot)
    ensures
        s@ == spec_snapshot_from_report(report, raw_response@, device_path@, observed_at_ms),
{
    let mut path = String::new();
    push_str(&mut path, device_path);
    let base = PresenceSnapshot {
        connected: false,
        has_connection_status: false,
        mic_muted: None,
        battery_percent: None,
        game_volume: None,
        chat_volume: None,
        raw_response: Some(raw_response),
        device_path: Some(path),
        error: None,
        observed_at_ms,
    };
    match report {
        HidReport::Status { connected, battery, chatmix } => PresenceSnapshot {
            connected: match connected {
                Some(c) => c,
                None => false,
            },
            has_connection_status: connected.is_some(),
            battery_percent: battery,
            game_volume: match chatmix {
                Some((game, _)) => Some(game),
                None => None,
            },
            chat_volume: match chatmix {
                Some((_, chat)) => Some(chat),
                None => None,
            },
            ..base
        },
        HidReport::Connection { connected } => PresenceSnapshot {
            connected,
            has_connection_status: true,
            ..base
        },
        HidReport::ChatMix { game, chat } => PresenceSnapshot {
            game_volume: Some(game),
            chat_volume: Some(chat),
            ..base
        },
        HidReport::Mute { muted } => PresenceSnapshot { mic_muted: Some(muted), ..base },
        HidReport::Battery { percent } => PresenceSnapshot {
            battery_percent: Some(percent),
            ..base
        },
    }
}

/// Map a decoded report onto a partial snapshot observed now.
pub fn snapshot_from_report(report: HidReport, raw_response: String, device_path: &str) -> (s:
    PresenceSnapshot)
    ensures
        s@ == spec_snapshot_from_report(report, raw_response@, device_path@, s.observed_at_ms),
{
    snapshot_from_report_at(report, raw_response, device_path, now_ms())
}

/// Decode a raw report into a partial snapshot observed at `observed_at_ms`; `None`
/// when the report does not decode.
pub fn parse_event_snapshot_at(report: &[u8], device_path: &str, observed_at_ms: u128) -> (res:
    Option<PresenceSnapshot>)
    ensures
        spec_parse(report@) is None ==> res is None,
        spec_parse(report@) matches Some(r) ==> (res matches Some(s) && s@
            == spec_snapshot_from_report(r, spec_hex_bytes(report@), device_path@, observed_at_ms)),
{
    let parsed = match HidReport::parse(report) {
        Some(parsed) => parsed,
        None => return None,
    };
    Some(snapshot_from_report_at(parsed, hex_bytes(report), device_path, observed_at_ms))
}

/// Decode a raw report into a partial snapshot observed now; `None` when the report
/// does not decode.
pub fn parse_event_snapshot(report: &[u8], device_path: &str) -> (res: Option<PresenceSnapshot>)
    ensures
        spec_parse(report@) is None ==> res is None,
        spec_parse(report@) matches Some(r) ==> (res matches Some(s) && s@
            == spec_snapshot_from_report(r, spec_hex_bytes(report@), device_path@, s.observed_at_ms)),
{
    parse_event_snapshot_at(report, device_path, now_ms())
}

/// Stitch a newer partial snapshot onto a previous one (see [`spec_merge_partial`]).
pub fn merge_partial_snapshot(previous: PresenceSnapshot, snapshot: PresenceSnapshot) -> (m:
    PresenceSnapshot)
    ensures
        m@ == spec_merge_partial(previous@, snapshot@),
{
    PresenceSnapshot {
        connected: if snapshot.has_connection_status {
            snapshot.connected
        } else {
            previous.connected
        },
        has_connection_status: snapshot.has_connection_status || previous.has_connection_status,
        mic_muted: match snapshot.mic_muted {
            Some(v) => Some(v),
            None => previous.mic_muted,
        },
        battery_percent: match snapshot.battery_percent {
            Some(v) => Some(v),
            None => previous.battery_percent,
        },
        game_volume: match snapshot.game_volume {
            Some(v) => Some(v),
            None => previous.game_volume,
        },
        chat_volume: match snapshot.chat_volume {
            Some(v) => Some(v),
            None => previous.chat_volume,
        },
        raw_response: match snapshot.raw_response {
            Some(v) => Some(v),
            None => previous.raw_response,
        },
        device_path: match snapshot.device_path {
            Some(v) => Some(v),
            None => previous.device_path,
        },
        error: match snapshot.error {
            Some(v) => Some(v),
            None => previous.error,
        },
        observed_at_ms: snapshot.observed_at_ms,
    }
}

// ---------------------------------------------------------------------------------------
// The status poll
// ---------------------------------------------------------------------------------------

/// The `0xB0` status request as written to the status interface: a 65-byte buffer whose
/// first byte is the unnumbered report id `0x00`, followed by the opcode and zeros.
pub fn status_request_report() -> (r: Vec<u8>)
    ensures
        r@.len() == 65,
        r@[1] == 0xB0,
        forall|i: int| 0 <= i < 65 && i != 1 ==> r@[i] == 0,
{
    let mut r: Vec<u8> = Vec::new();
    let mut i: usize = 0;
    while i < 65
        invariant
            i <= 65,
            r@.len() == i,
            forall|k: int| 0 <= k < i ==> r@[k] == 0,
        decreases 65 - i,
    {
        r.push(0);
        i = i + 1;
    }
    r.set(1, 0xB0);
    r
}

/// What happened while polling the status interface once.
#[derive(Debug, Clone, PartialEq, Eq)]
pub enum StatusQueryOutcome {
    /// Switching the device to non-blocking mode failed, with this error text.
    NonblockingFailed(String),
    /// Writing the `0xB0` request failed, with this error text.
    WriteFailed(String),
    /// Reading the reply failed, with this error text.
    ReadFailed(String),
    /// The reply read (empty when the read timed out).
    Read(Vec<u8>),
}

/// A failed poll of the status interface at `device_path`.
pub open spec fn failed_query_view(device_path: Seq<char>, message: Seq<char>, now: u128) -> PresenceView {
    PresenceView { device_path: Some(device_path), error: Some(message), ..empty_view(now) }
}

/// What one poll of the status interface tells about presence.
pub open spec fn spec_status_query(
    outcome: StatusQueryOutcome,
    device_path: Seq<char>,
    now: u128,
) -> PresenceView {
    match outcome {
        StatusQueryOutcome::NonblockingFailed(e) => failed_query_view(
            device_path,
            "HID nonblocking mode failed: "@ + e@,
            now,
        ),
        StatusQueryOutcome::WriteFailed(e) => failed_query_view(
            device_path,
            "HID status write failed: "@ + e@,
            now,
        ),
        StatusQueryOutcome::ReadFailed(e) => failed_query_view(
            device_path,
            "HID status read failed: "@ + e@,
            now,
        ),
        StatusQueryOutcome::Read(bytes) => if bytes@.len() == 0 {
            failed_query_view(device_path, "HID status read timed out"@, now)
        } else {
            match spec_parse(bytes@) {
                Some(r) => if r is Status {
                    spec_snapshot_from_report(r, spec_hex_bytes(bytes@), device_path, now)
                } else {
                    PresenceView {
                        raw_response: Some(spec_hex_bytes(bytes@)),
                        ..failed_query_view(
                            device_path,
                            "HID status response did not match Nova 7 parser"@,
                            now,
                        )
                    }
                },
                None => PresenceView {
                    raw_response: Some(spec_hex_bytes(bytes@)),
                    ..failed_query_view(
                        device_path,
                        "HID status response did not match Nova 7 parser"@,
                        now,
                    )
                },
            }
        },
    }
}

fn failed_query(device_path: String, message: String, observed_at_ms: u128) -> (s:
    PresenceSnapshot)
    ensures
        s@ == failed_query_view(device_path@, message@, observed_at_ms),
{
    PresenceSnapshot {
        connected: false,
        has_connection_status: false,
        mic_muted: None,
        battery_percent: None,
        game_volume: None,
        chat_volume: None,
        raw_response: None,
        device_path: Some(device_path),
        error: Some(message),
        observed_at_ms,
    }
}

fn prefixed(prefix: &str, detail: &str) -> (s: String)
    ensures
        s@ == prefix@ + detail@,
{
    let mut s = String::new();
    push_str(&mut s, prefix);
    push_str(&mut s, detail);
    s
}

/// Turn the outcome of one status poll into a snapshot (see [`spec_status_query`]).
pub fn status_snapshot_from_query(
    outcome: StatusQueryOutcome,
    device_path: String,
    observed_at_ms: u128,
) -> (s: PresenceSnapshot)
    ensures
        s@ == spec_status_query(outcome, device_path@, observed_at_ms),
{
    match outcome {
        StatusQueryOutcome::NonblockingFailed(e) => failed_query(
            device_path,
            prefixed("HID nonblocking mode failed: ", e.as_str()),
            observed_at_ms,
        ),
        StatusQueryOutcome::WriteFailed(e) => failed_query(
            device_path,
            prefixed("HID status write failed: ", e.as_str()),
            observed_at_ms,
        ),
        StatusQueryOutcome::ReadFailed(e) => failed_query(
            device_path,
            prefixed("HID status read failed: ", e.as_str()),
            observed_at_ms,
        ),
        StatusQueryOutcome::Read(bytes) => {
            if bytes.len() == 0 {
                return failed_query(
                    device_path,
                    "HID status read timed out".to_owned(),
                    observed_at_ms,
                );
            }
            let raw_response = hex_bytes(bytes.as_slice());
            match HidReport::parse(bytes.as_slice()) {
                Some(parsed) => {
                    if let HidReport::Status { .. } = parsed {
                        return snapshot_from_report_at(
                            parsed,
                            raw_response,
                            device_path.as_str(),
                            observed_at_ms,
                        );
                    }
                },
                None => {},
            }
            let mut s = failed_query(
                device_path,
                "HID status response did not match Nova 7 parser".to_owned(),
                observed_at_ms,
            );
            s.raw_response = Some(raw_response);
            s
        },
    }
}

/// A snapshot is a usable status reply: it carries a response and no error.
pub open spec fn spec_status_usable(s: PresenceView) -> bool {
    s.error is None && s.raw_response is Some
}

/// Whether a polled snapshot is a usable status reply.
pub fn status_usable(s: &PresenceSnapshot) -> (r: bool)
    ensures
        r == spec_status_usable(s@),
{
    s.error.is_none() && s.raw_response.is_some()
}

/// One candidate status interface tried during the initial status search.
pub enum StatusAttempt {
    /// The interface at `path` could not be opened.
    OpenFailed { path: String, error: String },
    /// The interface was opened and polled, giving this snapshot.
    Queried(PresenceSnapshot),
}

/// What one candidate contributes to the status search: a usable reply ends the
/// search; otherwise the error to remember (`<path>: <error>` for a device that did
/// not open, the reply's own error for an unusable reply).
pub fn status_attempt_result(attempt: StatusAttempt) -> (r: Result<PresenceSnapshot, Option<String>>)
    ensures
        match attempt {
            StatusAttempt::OpenFailed { path, error } => r matches Err(Some(m)) && m@ == path@
                + ": "@ + error@,
            StatusAttempt::Queried(s) => if spec_status_usable(s@) {
                r matches Ok(q) && q@ == s@
            } else {
                r matches Err(e) && opt_string_view(e) == s@.error
            },
        },
{
    match attempt {
        StatusAttempt::OpenFailed { path, error } => {
            let mut m = path;
            push_str(&mut m, ": ");
            push_str(&mut m, error.as_str());
            Err(Some(m))
        },
        StatusAttempt::Queried(s) => {
            if status_usable(&s) {
                Ok(s)
            } else {
                Err(s.error)
            }
        },
    }
}

/// The message of a failed status search: the last error, or a generic message.
pub open spec fn exhausted_message(last_error: Option<Seq<char>>) -> Seq<char> {
    match last_error {
        Some(e) => e,
        None => "No SteelSeries HID status response parsed"@,
    }
}

/// The error snapshot when no candidate gave a usable status reply: the last error
/// seen, or a generic message when there was none.
pub fn status_search_exhausted(last_error: Option<String>) -> (s: PresenceSnapshot)
    ensures
        s@.error == Some(exhausted_message(opt_string_view(last_error))),
        s@ == (PresenceView { error: s@.error, ..empty_view(s.observed_at_ms) }),
{
    let message = match last_error {
        Some(e) => e,
        None => "No SteelSeries HID status response parsed".to_owned(),
    };
    PresenceSnapshot::error(message)
}

// ---------------------------------------------------------------------------------------
// The initial read of the control interface
// ---------------------------------------------------------------------------------------

/// The empty snapshot the initial control-interface read starts from.
pub fn control_state_start(device_path: String, observed_at_ms: u128) -> (s: PresenceSnapshot)
    ensures
        s@ == (PresenceView { device_path: Some(device_path@), ..empty_view(observed_at_ms) }),
{
    PresenceSnapshot {
        connected: false,
        has_connection_status: false,
        mic_muted: None,
        battery_percent: None,
        game_volume: None,
        chat_volume: None,
        raw_response: None,
        device_path: Some(device_path),
        error: None,
        observed_at_ms,
    }
}

/// The initial control read stops early once the mute state is known.
pub fn control_state_complete(s: &PresenceSnapshot) -> (r: bool)
    ensures
        r == s.mic_muted is Some,
{
    s.mic_muted.is_some()
}

/// The result of the initial control read: the snapshot when it learned any of mute,
/// battery or wheel position, else `None`.
pub fn control_state_result(s: PresenceSnapshot) -> (r: Option<PresenceSnapshot>)
    ensures
        (s.mic_muted is Some || s.battery_percent is Some || s.game_volume is Some
            || s.chat_volume is Some) ==> (r matches Some(q) && q@ == s@),
        !(s.mic_muted is Some || s.battery_percent is Some || s.game_volume is Some
            || s.chat_volume is Some) ==> r is None,
{
    if s.mic_muted.is_some() || s.battery_percent.is_some() || s.game_volume.is_some()
        || s.chat_volume.is_some() {
        Some(s)
    } else {
        None
    }
}

/// The initial snapshot: the status reply, completed by the control read when one is
/// available.
pub fn combine_initial_snapshot(status: PresenceSnapshot, control: Option<PresenceSnapshot>) -> (s:
    PresenceSnapshot)
    ensures
        control matches Some(c) ==> s@ == spec_merge_partial(status@, c@),
        control is None ==> s@ == status@,
{
    match control {
        Some(c) => merge_partial_snapshot(status, c),
        None => status,
    }
}

// ---------------------------------------------------------------------------------------
// Laws
// ---------------------------------------------------------------------------------------

/// A partial report that carries no connection status (ChatMix, mute, battery) keeps
/// the last known connection state, and a merge never forgets that the connection
/// state was once known.
pub proof fn law_partial_report_keeps_connection(previous: PresenceView, next: PresenceView)
    ensures
        !next.has_connection_status ==> spec_merge_partial(previous, next).connected
            == previous.connected,
        previous.has_connection_status ==> spec_merge_partial(
            previous,
            next,
        ).has_connection_status,
{
}

/// Only connection reports (`0xB9`) and status replies with a known charge byte
/// (`0xB0`) carry a connection state; ChatMix, mute and battery reports never do.
pub proof fn law_only_connection_reports_carry_connection(
    report: HidReport,
    raw: Seq<char>,
    path: Seq<char>,
    now: u128,
)
    ensures
        spec_snapshot_from_report(report, raw, path, now).has_connection_status <==> (
        report is Connection || (report matches HidReport::Status { connected, .. }
            && connected is Some)),
{
}

/// Merging a snapshot onto itself changes nothing.
pub proof fn law_merge_is_idempotent(s: PresenceView)
    ensures
        spec_merge_partial(s, s) == s,
{
}

/// Stitching partial snapshots keeps the newest readings: every optional field (mute,
/// battery, game and chat volume, raw response, device path, error) takes the newer
/// snapshot's value whenever it carries one and keeps the older one otherwise; the
/// connection state follows the newer snapshot only when it knows it.
pub proof fn law_partial_newer_readings_win(previous: PresenceView, next: PresenceView)
    ensures
        ({
            let m = spec_merge_partial(previous, next);
            &&& next.mic_muted is Some ==> m.mic_muted == next.mic_muted
            &&& next.mic_muted is None ==> m.mic_muted == previous.mic_muted
            &&& next.battery_percent is Some ==> m.battery_percent == next.battery_percent
            &&& next.battery_percent is None ==> m.battery_percent == previous.battery_percent
            &&& next.game_volume is Some ==> m.game_volume == next.game_volume
            &&& next.game_volume is None ==> m.game_volume == previous.game_volume
            &&& next.chat_volume is Some ==> m.chat_volume == next.chat_volume
            &&& next.chat_volume is None ==> m.chat_volume == previous.chat_volume
            &&& next.raw_response is Some ==> m.raw_response == next.raw_response
            &&& next.raw_response is None ==> m.raw_response == previous.raw_response
            &&& next.device_path is Some ==> m.device_path == next.device_path
            &&& next.device_path is None ==> m.device_path == previous.device_path
            &&& next.error is Some ==> m.error == next.error
            &&& next.error is None ==> m.error == previous.error
            &&& next.has_connection_status ==> m.connected == next.connected
            &&& !next.has_connection_status ==> m.connected == previous.connected
            &&& m.has_connection_status == (next.has_connection_status
                || previous.has_connection_status)
            &&& m.observed_at_ms == next.observed_at_ms
        }),
{
}

} // verus!
