//! The presence monitor's decisions: how each incoming snapshot updates the recorded
//! presence and which effects it calls for (record only, refresh ChatMix, or re-run the
//! autoswitch on a connection transition), plus the diagnostics log and its messages.
//!
//! The monitor loop itself (waiting for HID events, applying audio changes, notifying
//! the UI) runs outside; it feeds each snapshot to [`process_snapshot_step`] and
//! performs the action it returns.

use std::collections::VecDeque;
use vstd::prelude::*;

use crate::models::{
    action_view, clone_opt_string, clone_snapshot, opt_string_view, DecisionAction,
    DiagnosticEvent, PresenceSnapshot, PresenceView,
};
use crate::presence::or_else;
use crate::text::{decimal, push_decimal, push_str};

verus! {

/// Upper bound on the diagnostics ring buffer.
pub const MAX_EVENTS: usize = 200;

// ---------------------------------------------------------------------------------------
// Specification
// ---------------------------------------------------------------------------------------

/// Merge an incoming snapshot onto the recorded presence: connection, mute, battery and
/// wheel values are kept from before when the new report does not carry them, while the
/// raw response and error always describe the new report.
pub open spec fn spec_merge_presence(previous: Option<PresenceView>, next: PresenceView) -> PresenceView {
    match previous {
        None => next,
        Some(p) => PresenceView {
            connected: if next.has_connection_status {
                next.connected
            } else {
                p.connected
            },
            has_connection_status: next.has_connection_status || p.has_connection_status,
            mic_muted: or_else(next.mic_muted, p.mic_muted),
            battery_percent: or_else(next.battery_percent, p.battery_percent),
            game_volume: or_else(next.game_volume, p.game_volume),
            chat_volume: or_else(next.chat_volume, p.chat_volume),
            raw_response: next.raw_response,
            device_path: or_else(next.device_path, p.device_path),
            error: next.error,
            observed_at_ms: next.observed_at_ms,
        },
    }
}

/// Whether anything the user can see changed between the recorded and the new presence.
pub open spec fn spec_presence_changed(previous: Option<PresenceView>, next: PresenceView) -> bool {
    match previous {
        None => true,
        Some(p) => p.connected != next.connected || p.mic_muted != next.mic_muted
            || p.battery_percent != next.battery_percent || p.game_volume != next.game_volume
            || p.chat_volume != next.chat_volume || p.error != next.error,
    }
}

/// The view of an optional snapshot.
pub open spec fn opt_snapshot_view(s: Option<PresenceSnapshot>) -> Option<PresenceView> {
    match s {
        Some(x) => Some(x@),
        None => None,
    }
}

/// What the monitor must do with a processed snapshot.
#[derive(Debug, Clone, Copy, PartialEq, Eq, Structural)]
pub enum PresenceAction {
    /// The snapshot reports an error: record it, resync ChatMix and surface the error.
    ReportError,
    /// Nothing visible changed: only record the merged presence.
    Record,
    /// Something visible changed but not the connection: record, resync ChatMix and
    /// notify the UI.
    Refresh,
    /// The connection changed: record, resync ChatMix and re-run the autoswitch; on a
    /// connect, also re-read the ChatMix wheel position.
    SwitchConnection { connected: bool },
}

/// The result of processing one snapshot.
pub struct MonitorStep {
    /// The presence to record.
    pub presence: PresenceSnapshot,
    /// The connection state the autoswitch last acted on.
    pub stable_connected: Option<bool>,
    /// The effects to perform.
    pub action: PresenceAction,
}

/// The presence to record after processing a snapshot.
pub open spec fn spec_step_presence(last: Option<PresenceView>, snapshot: PresenceView) -> PresenceView {
    if snapshot.error is Some {
        snapshot
    } else {
        spec_merge_presence(last, snapshot)
    }
}

/// The action a snapshot calls for.
pub open spec fn spec_step_action(
    last: Option<PresenceView>,
    stable_connected: Option<bool>,
    snapshot: PresenceView,
) -> PresenceAction {
    let merged = spec_merge_presence(last, snapshot);
    if snapshot.error is Some {
        PresenceAction::ReportError
    } else if !spec_presence_changed(last, merged) {
        PresenceAction::Record
    } else if merged.has_connection_status && stable_connected != Some(merged.connected) {
        PresenceAction::SwitchConnection { connected: merged.connected }
    } else {
        PresenceAction::Refresh
    }
}

/// The connection state the autoswitch has acted on after a step.
pub open spec fn spec_step_stable(
    last: Option<PresenceView>,
    stable_connected: Option<bool>,
    snapshot: PresenceView,
) -> Option<bool> {
    match spec_step_action(last, stable_connected, snapshot) {
        PresenceAction::SwitchConnection { connected } => Some(connected),
        _ => stable_connected,
    }
}

// ---------------------------------------------------------------------------------------
// Executable decisions
// ---------------------------------------------------------------------------------------

/// Merge an incoming snapshot onto the recorded presence (see [`spec_merge_presence`]).
pub fn merge_presence_snapshot(previous: Option<PresenceSnapshot>, snapshot: PresenceSnapshot) -> (m:
    PresenceSnapshot)
    ensures
        m@ == spec_merge_presence(opt_snapshot_view(previous), snapshot@),
{
    let previous = match previous {
        Some(p) => p,
        None => return snapshot,
    };
    PresenceSnapshot {
        connected: if snapshot.has_connection_status {
            snapshot.connected
        } else {
            previous.connected
        },
        has_connection_status: snapshot.has_connection_status || previous.has_connection_status,
        mic_muted: match snapshot.mic_muted {
            Some(v) => Some(v),
            None => previous.mic_muted,
        },
        battery_percent: match snapshot.battery_percent {
            Some(v) => Some(v),
            None => previous.battery_percent,
        },
        game_volume: match snapshot.game_volume {
            Some(v) => Some(v),
            None => previous.game_volume,
        },
        chat_volume: match snapshot.chat_volume {
            Some(v) => Some(v),
            None => previous.chat_volume,
        },
        raw_response: snapshot.raw_response,
        device_path: match snapshot.device_path {
            Some(v) => Some(v),
            None => previous.device_path,
        },
        error: snapshot.error,
        observed_at_ms: snapshot.observed_at_ms,
    }
}

fn opt_u8_eq(a: Option<u8>, b: Option<u8>) -> (r: bool)
    ensures
        r == (a == b),
{
    match (a, b) {
        (Some(x), Some(y)) => x == y,
        (None, None) => true,
        _ => false,
    }
}

fn opt_bool_eq(a: Option<bool>, b: Option<bool>) -> (r: bool)
    ensures
        r == (a == b),
{
    match (a, b) {
        (Some(x), Some(y)) => x == y,
        (None, None) => true,
        _ => false,
    }
}

fn opt_string_eq(a: &Option<String>, b: &Option<String>) -> (r: bool)
    ensures
        r == (opt_string_view(*a) == opt_string_view(*b)),
{
    match (a, b) {
        (Some(x), Some(y)) => *x == *y,
        (None, None) => true,
        _ => false,
    }
}

/// Whether anything the user can see changed (see [`spec_presence_changed`]).
pub fn presence_changed(previous: &Option<PresenceSnapshot>, next: &PresenceSnapshot) -> (r: bool)
    ensures
        r == spec_presence_changed(opt_snapshot_view(*previous), next@),
{
    match previous {
        None => true,
        Some(p) => p.connected != next.connected || !opt_bool_eq(p.mic_muted, next.mic_muted)
            || !opt_u8_eq(p.battery_percent, next.battery_percent) || !opt_u8_eq(
            p.game_volume,
            next.game_volume,
        ) || !opt_u8_eq(p.chat_volume, next.chat_volume) || !opt_string_eq(
            &p.error,
            &next.error,
        ),
    }
}

/// Process one snapshot: the presence to record, the connection state the autoswitch
/// acts on, and the effects to perform. Only a change of the (known) connection state
/// re-runs the autoswitch; ChatMix, mute and battery reports only refresh.
pub fn process_snapshot_step(
    last: Option<PresenceSnapshot>,
    stable_connected: Option<bool>,
    snapshot: PresenceSnapshot,
) -> (step: MonitorStep)
    ensures
        step.presence@ == spec_step_presence(opt_snapshot_view(last), snapshot@),
        step.action == spec_step_action(opt_snapshot_view(last), stable_connected, snapshot@),
        step.stable_connected == spec_step_stable(
            opt_snapshot_view(last),
            stable_connected,
            snapshot@,
        ),
{
    if snapshot.error.is_some() {
        return MonitorStep { presence: snapshot, stable_connected, action: PresenceAction::ReportError };
    }
    let ghost last_view = opt_snapshot_view(last);
    let previous = match &last {
        Some(p) => Some(clone_snapshot(p)),
        None => None,
    };
    assert(opt_snapshot_view(previous) == last_view);
    let merged = merge_presence_snapshot(previous, snapshot);
    if !presence_changed(&last, &merged) {
        return MonitorStep { presence: merged, stable_connected, action: PresenceAction::Record };
    }
    let connection_changed = merged.has_connection_status && match stable_connected {
        Some(c) => c != merged.connected,
        None => true,
    };
    if connection_changed {
        let connected = merged.connected;
        MonitorStep {
            presence: merged,
            stable_connected: Some(connected),
            action: PresenceAction::SwitchConnection { connected },
        }
    } else {
        MonitorStep { presence: merged, stable_connected, action: PresenceAction::Refresh }
    }
}

/// Apply a wheel position read back after a connect: the recorded presence takes it
/// only when it still says the headset is connected (a late read after a disconnect is
/// ignored).
pub fn apply_connect_wheel(current: Option<PresenceSnapshot>, game: u8, chat: u8) -> (r: Option<
    PresenceSnapshot,
>)
    ensures
        match current {
            Some(c) => if c.connected {
                r matches Some(u) && u@ == (PresenceView {
                    game_volume: Some(game),
                    chat_volume: Some(chat),
                    ..c@
                })
            } else {
                r is None
            },
            None => r is None,
        },
{
    match current {
        Some(c) => {
            if c.connected {
                let mut u = c;
                u.game_volume = Some(game);
                u.chat_volume = Some(chat);
                Some(u)
            } else {
                None
            }
        },
        None => None,
    }
}

/// The log after appending an event: the newest [`MAX_EVENTS`] events, in order.
pub open spec fn ring_push(log: Seq<DiagnosticEvent>, event: DiagnosticEvent) -> Seq<DiagnosticEvent> {
    if log.len() + 1 > MAX_EVENTS {
        log.push(event).subrange(log.len() + 1 - MAX_EVENTS, log.len() + 1int)
    } else {
        log.push(event)
    }
}

/// Append a diagnostic event, dropping the oldest ones once more than [`MAX_EVENTS`]
/// are held.
pub fn push_event(diagnostics: &mut VecDeque<DiagnosticEvent>, event: DiagnosticEvent)
    ensures
        final(diagnostics)@ == ring_push(old(diagnostics)@, event),
{
    let ghost all = old(diagnostics)@.push(event);
    diagnostics.push_back(event);
    while diagnostics.len() > MAX_EVENTS
        invariant
            all.len() == old(diagnostics)@.len() + 1,
            1 <= diagnostics@.len() <= all.len(),
            diagnostics@ == all.subrange(all.len() - diagnostics@.len(), all.len() as int),
            diagnostics@.len() >= MAX_EVENTS || diagnostics@.len() == all.len(),
        decreases diagnostics@.len(),
    {
        let ghost before = diagnostics@;
        let _ = diagnostics.pop_front();
        assert(diagnostics@ == before.subrange(1, before.len() as int));
        assert(diagnostics@ =~= all.subrange(all.len() - diagnostics@.len(), all.len() as int));
    }
    proof {
        if all.len() <= MAX_EVENTS {
            assert(diagnostics@ =~= all);
        }
    }
}

// ---------------------------------------------------------------------------------------
// Diagnostic messages
// ---------------------------------------------------------------------------------------

/// A wheel value as shown in the log: its decimal value, or `?` when unknown.
pub open spec fn wheel_text(v: Option<u8>) -> Seq<char> {
    match v {
        Some(x) => decimal(x as nat),
        None => "?"@,
    }
}

fn push_wheel(s: &mut String, v: Option<u8>)
    ensures
        final(s)@ == old(s)@ + wheel_text(v),
{
    match v {
        Some(x) => push_decimal(s, x as u64),
        None => push_str(s, "?"),
    }
}

/// `ChatMix wheel (<source>): game=<game>, chat=<chat>`, where `source` records where
/// the reading came from (a wheel turn, the on-connect re-query, the startup poll).
pub fn chatmix_wheel_message(source: &str, game: Option<u8>, chat: Option<u8>) -> (m: String)
    ensures
        m@ == "ChatMix wheel ("@ + source@ + "): game="@ + wheel_text(game) + ", chat="@
            + wheel_text(chat),
{
    let mut m = "ChatMix wheel (".to_owned();
    push_str(&mut m, source);
    push_str(&mut m, "): game=");
    push_wheel(&mut m, game);
    push_str(&mut m, ", chat=");
    push_wheel(&mut m, chat);
    m
}

/// `<Initial|Event> autoswitch applied: <reason> (<connected|disconnected>)`.
pub fn autoswitch_applied_message(initial: bool, reason: &str, connected: bool) -> (m: String)
    ensures
        m@ == (if initial {
            "Initial"@
        } else {
            "Event"@
        }) + " autoswitch applied: "@ + reason@ + " ("@ + (if connected {
            "connected"@
        } else {
            "disconnected"@
        }) + ")"@,
{
    let mut m = if initial {
        "Initial".to_owned()
    } else {
        "Event".to_owned()
    };
    push_str(&mut m, " autoswitch applied: ");
    push_str(&mut m, reason);
    push_str(&mut m, " (");
    if connected {
        push_str(&mut m, "connected");
    } else {
        push_str(&mut m, "disconnected");
    }
    push_str(&mut m, ")");
    m
}

/// `Setting render default: <id>` or `Setting capture default: <id>`.
pub fn set_default_message(action: &DecisionAction) -> (m: String)
    ensures
        m@ == (match action_view(*action).0 {
            crate::models::EndpointFlow::Render => "Setting render default: "@,
            crate::models::EndpointFlow::Capture => "Setting capture default: "@,
        }) + action_view(*action).1,
{
    match action {
        DecisionAction::SetRenderDefault { endpoint_id } => {
            let mut m = "Setting render default: ".to_owned();
            push_str(&mut m, endpoint_id.as_str());
            m
        },
        DecisionAction::SetCaptureDefault { endpoint_id } => {
            let mut m = "Setting capture default: ".to_owned();
            push_str(&mut m, endpoint_id.as_str());
            m
        },
    }
}

// ---------------------------------------------------------------------------------------
// Laws
// ---------------------------------------------------------------------------------------

/// Feeding the same (error-free) report again right after it was processed changes
/// nothing visible: the second step only records, so a repeated report never re-runs
/// the autoswitch.
pub proof fn law_repeated_report_only_records(
    last: Option<PresenceView>,
    stable_connected: Option<bool>,
    snapshot: PresenceView,
)
    requires
        snapshot.error is None,
    ensures
        ({
            let first = spec_step_presence(last, snapshot);
            let stable = spec_step_stable(last, stable_connected, snapshot);
            &&& spec_step_action(Some(first), stable, snapshot) == PresenceAction::Record
            &&& spec_step_presence(Some(first), snapshot).connected == first.connected
        }),
{
}

/// The autoswitch is re-run only on a transition of a known connection state, and after
/// such a step the acted-on state is the new connection state.
pub proof fn law_switch_only_on_connection_transition(
    last: Option<PresenceView>,
    stable_connected: Option<bool>,
    snapshot: PresenceView,
)
    ensures
        spec_step_action(last, stable_connected, snapshot) is SwitchConnection ==> {
            let merged = spec_step_presence(last, snapshot);
            &&& snapshot.error is None
            &&& merged.has_connection_status
            &&& stable_connected != Some(merged.connected)
            &&& spec_step_stable(last, stable_connected, snapshot) == Some(merged.connected)
        },
        !(spec_step_action(last, stable_connected, snapshot) is SwitchConnection) ==> spec_step_stable(
            last,
            stable_connected,
            snapshot,
        ) == stable_connected,
{
}

/// A report that flips the known connection state always re-runs the autoswitch at once,
/// towards the reported state.
pub proof fn law_connection_transition_switches(last: PresenceView, snapshot: PresenceView)
    requires
        snapshot.error is None,
        snapshot.has_connection_status,
        snapshot.connected != last.connected,
    ensures
        spec_step_action(Some(last), Some(last.connected), snapshot)
            == (PresenceAction::SwitchConnection { connected: snapshot.connected }),
        spec_step_stable(Some(last), Some(last.connected), snapshot) == Some(snapshot.connected),
{
}

/// A report that carries no connection state (ChatMix, mute, battery) never re-runs the
/// autoswitch once the acted-on state matches the recorded connection.
pub proof fn law_partial_reports_never_switch(
    last: PresenceView,
    snapshot: PresenceView,
)
    requires
        !snapshot.has_connection_status,
    ensures
        !(spec_step_action(Some(last), Some(last.connected), snapshot) is SwitchConnection),
{
}

/// The diagnostics log never holds more than [`MAX_EVENTS`] events, the event just
/// pushed is always the newest one kept, and the events before it keep their order.
pub proof fn law_diagnostics_ring_is_bounded(log: Seq<DiagnosticEvent>, event: DiagnosticEvent)
    ensures
        ring_push(log, event).len() <= MAX_EVENTS || ring_push(log, event).len() == log.len() + 1,
        log.len() < MAX_EVENTS ==> ring_push(log, event) == log.push(event),
        log.len() >= MAX_EVENTS ==> ring_push(log, event).len() == MAX_EVENTS,
        ring_push(log, event).last() == event,
        forall|i: int|
            0 <= i < ring_push(log, event).len() - 1 ==> #[trigger] ring_push(log, event)[i]
                == log[log.len() + 1 - ring_push(log, event).len() + i],
{
}

/// Merging keeps the newest readings: each of mute, battery, game and chat volume and the
/// device path takes the incoming report's value whenever it carries one and keeps the
/// recorded value otherwise; the connection state follows the report only when the report
/// knows it; the raw response, error and observation time are the report's own.
pub proof fn law_newer_readings_win(previous: PresenceView, next: PresenceView)
    ensures
        ({
            let m = spec_merge_presence(Some(previous), next);
            &&& next.mic_muted is Some ==> m.mic_muted == next.mic_muted
            &&& next.mic_muted is None ==> m.mic_muted == previous.mic_muted
            &&& next.battery_percent is Some ==> m.battery_percent == next.battery_percent
            &&& next.battery_percent is None ==> m.battery_percent == previous.battery_percent
            &&& next.game_volume is Some ==> m.game_volume == next.game_volume
            &&& next.game_volume is None ==> m.game_volume == previous.game_volume
            &&& next.chat_volume is Some ==> m.chat_volume == next.chat_volume
            &&& next.chat_volume is None ==> m.chat_volume == previous.chat_volume
            &&& next.device_path is Some ==> m.device_path == next.device_path
            &&& next.device_path is None ==> m.device_path == previous.device_path
            &&& next.has_connection_status ==> m.connected == next.connected
            &&& !next.has_connection_status ==> m.connected == previous.connected
            &&& m.has_connection_status == (next.has_connection_status
                || previous.has_connection_status)
            &&& m.raw_response == next.raw_response
            &&& m.error == next.error
            &&& m.observed_at_ms == next.observed_at_ms
        }),
        spec_merge_presence(None, next) == next,
{
}

/// A report without error that changes anything the user can see (connection, mute,
/// battery, game or chat volume, or clears an error) is never merely recorded: ChatMix is
/// resynced and the UI refreshed, or the autoswitch re-run. A report that changes none of
/// them is only recorded.
pub proof fn law_visible_changes_are_acted_on(
    last: Option<PresenceView>,
    stable_connected: Option<bool>,
    snapshot: PresenceView,
)
    requires
        snapshot.error is None,
    ensures
        ({
            let merged = spec_step_presence(last, snapshot);
            let action = spec_step_action(last, stable_connected, snapshot);
            &&& last is None ==> action != PresenceAction::Record
            &&& last matches Some(l) ==> ((l.connected != merged.connected || l.mic_muted
                != merged.mic_muted || l.battery_percent != merged.battery_percent
                || l.game_volume != merged.game_volume || l.chat_volume != merged.chat_volume
                || l.error != merged.error) <==> action != PresenceAction::Record)
        }),
{
}

} // verus!
