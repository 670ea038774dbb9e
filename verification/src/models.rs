//! The data model shared by the switching rules, the presence pipeline and ChatMix.

use std::time::{Duration, SystemTime, SystemTimeError, UNIX_EPOCH};
use vstd::prelude::*;

use crate::text::str_eq;

verus! {

// ---------------------------------------------------------------------------------------
// Audio endpoints
// ---------------------------------------------------------------------------------------

/// Direction of an audio endpoint.
#[derive(Debug, Clone, Copy, PartialEq, Eq, Structural)]
pub enum EndpointFlow {
    Render,
    Capture,
}

/// Device state of an audio endpoint as the OS reports it.
#[derive(Debug, Clone, Copy, PartialEq, Eq, Structural)]
pub enum EndpointState {
    Active,
    Disabled,
    NotPresent,
    Unplugged,
    Unknown,
}

/// One audio endpoint (output or input device).
#[derive(Debug, Clone, PartialEq, Eq)]
pub struct AudioEndpoint {
    pub id: String,
    pub name: String,
    pub flow: EndpointFlow,
    pub state: EndpointState,
    /// True for endpoints (e.g. SteelSeries/Arctis) whose real availability depends
    /// on the wireless HID presence rather than the OS endpoint state, because
    /// their USB dongle stays present even while the headset is powered off.
    pub is_presence_tracked: bool,
    pub is_default_console: bool,
    pub is_default_multimedia: bool,
    pub is_default_communications: bool,
}

// ---------------------------------------------------------------------------------------
// Configuration
// ---------------------------------------------------------------------------------------

/// One entry in a flow's priority list.
#[derive(Debug, Clone, PartialEq, Eq)]
pub struct DevicePref {
    /// OS endpoint id (stable identifier).
    pub id: String,
    /// Last-known friendly name, retained so offline devices still render.
    pub name: String,
    /// When true the device sits in the "ignore" section and is never selected.
    pub excluded: bool,
}

/// Priority list of one flow.
#[derive(Debug, Clone, PartialEq, Eq)]
pub struct FlowConfig {
    /// Ordered priority list: index 0 is the highest priority.
    pub priorities: Vec<DevicePref>,
}

impl Default for FlowConfig {
    fn default() -> (r: Self)
        ensures
            r.priorities@.len() == 0,
    {
        FlowConfig { priorities: Vec::new() }
    }
}

/// Mic sidetone level: the value byte of the `0x39` HID output report.
#[derive(Debug, Clone, Copy, PartialEq, Eq, Structural)]
pub enum Sidetone {
    Off,
    Low,
    Medium,
    High,
}

impl Default for Sidetone {
    fn default() -> (r: Self)
        ensures
            r == Sidetone::Off,
    {
        Sidetone::Off
    }
}

/// The value byte that follows the `0x39` opcode for a sidetone level.
pub open spec fn spec_level_byte(s: Sidetone) -> u8 {
    match s {
        Sidetone::Off => 0x00,
        Sidetone::Low => 0x01,
        Sidetone::Medium => 0x02,
        Sidetone::High => 0x03,
    }
}

impl Sidetone {
    /// The value byte that follows the `0x39` opcode in the sidetone report.
    pub fn level_byte(self) -> (b: u8)
        ensures
            b == spec_level_byte(self),
    {
        match self {
            Sidetone::Off => 0x00,
            Sidetone::Low => 0x01,
            Sidetone::Medium => 0x02,
            Sidetone::High => 0x03,
        }
    }
}

/// Debug switches for the ChatMix volume manager and session polling.
#[derive(Debug, Clone, PartialEq, Eq)]
pub struct DebugConfig {
    pub chatmix_enabled: bool,
    pub chatmix_dry_run: bool,
    pub audio_session_polling_enabled: bool,
}

impl Default for DebugConfig {
    fn default() -> (r: Self)
        ensures
            r.chatmix_enabled,
            !r.chatmix_dry_run,
            r.audio_session_polling_enabled,
    {
        DebugConfig {
            chatmix_enabled: default_true(),
            chatmix_dry_run: false,
            audio_session_polling_enabled: default_true(),
        }
    }
}

/// The value a missing boolean switch defaults to.
pub fn default_true() -> (b: bool)
    ensures
        b,
{
    true
}

/// The default low-battery notification threshold, in percent.
pub fn default_low_battery_percent() -> (p: u8)
    ensures
        p == 15,
{
    15
}

/// Which ChatMix channel an application is routed to.
#[derive(Debug, Clone, Copy, PartialEq, Eq, Structural)]
pub enum ChatMixRoute {
    Game,
    Chat,
}

/// A manual ChatMix routing saved for one application.
#[derive(Debug, Clone, PartialEq, Eq)]
pub struct ChatMixAppRoute {
    pub route: ChatMixRoute,
    pub display_name: String,
}

/// Manual ChatMix routes, keyed by application id. When an id occurs more than once,
/// its first entry is the one in force.
#[derive(Debug, Clone, PartialEq, Eq)]
pub struct ChatMixConfig {
    pub app_routes: Vec<(String, ChatMixAppRoute)>,
}

/// The route in force for `key`: the value of the first entry with that key.
pub open spec fn route_lookup(entries: Seq<(String, ChatMixAppRoute)>, key: Seq<char>) -> Option<
    ChatMixAppRoute,
>
    decreases entries.len(),
{
    if entries.len() == 0 {
        None
    } else if entries[0].0@ == key {
        Some(entries[0].1)
    } else {
        route_lookup(entries.drop_first(), key)
    }
}

impl View for ChatMixConfig {
    type V = Map<Seq<char>, ChatMixAppRoute>;

    /// The routes as a map from application id to route.
    open spec fn view(&self) -> Map<Seq<char>, ChatMixAppRoute> {
        Map::new(
            |k: Seq<char>| route_lookup(self.app_routes@, k) is Some,
            |k: Seq<char>| route_lookup(self.app_routes@, k).unwrap(),
        )
    }
}

/// Skipping entries whose key differs does not change a lookup.
proof fn lemma_route_lookup_skip(entries: Seq<(String, ChatMixAppRoute)>, key: Seq<char>, i: int)
    requires
        0 <= i <= entries.len(),
        forall|j: int| 0 <= j < i ==> (#[trigger] entries[j]).0@ != key,
    ensures
        route_lookup(entries, key) == route_lookup(entries.subrange(i, entries.len() as int), key),
    decreases i,
{
    if i == 0 {
        assert(entries.subrange(0, entries.len() as int) =~= entries);
    } else {
        lemma_route_lookup_skip(entries, key, i - 1);
        let tail = entries.subrange(i - 1, entries.len() as int);
        assert(tail[0] == entries[i - 1]);
        assert(tail.drop_first() =~= entries.subrange(i, entries.len() as int));
    }
}

/// Replacing an entry whose old and new keys both differ from `key` does not change
/// the lookup of `key`.
proof fn lemma_route_lookup_update(
    entries: Seq<(String, ChatMixAppRoute)>,
    p: int,
    e: (String, ChatMixAppRoute),
    key: Seq<char>,
)
    requires
        0 <= p < entries.len(),
        entries[p].0@ != key,
        e.0@ != key,
    ensures
        route_lookup(entries.update(p, e), key) == route_lookup(entries, key),
    decreases entries.len(),
{
    let updated = entries.update(p, e);
    if p == 0 {
        assert(updated.drop_first() =~= entries.drop_first());
    } else {
        assert(updated[0] == entries[0]);
        if entries[0].0@ != key {
            assert(updated.drop_first() =~= entries.drop_first().update(p - 1, e));
            lemma_route_lookup_update(entries.drop_first(), p - 1, e, key);
        }
    }
}

/// Appending an entry with a fresh key adds exactly that key.
proof fn lemma_route_lookup_push(
    entries: Seq<(String, ChatMixAppRoute)>,
    e: (String, ChatMixAppRoute),
    key: Seq<char>,
)
    requires
        forall|j: int| 0 <= j < entries.len() ==> (#[trigger] entries[j]).0@ != e.0@,
    ensures
        route_lookup(entries.push(e), key) == (if key == e.0@ {
            Some(e.1)
        } else {
            route_lookup(entries, key)
        }),
    decreases entries.len(),
{
    let pushed = entries.push(e);
    if entries.len() == 0 {
        assert(pushed[0] == e);
        assert(pushed.drop_first() =~= Seq::<(String, ChatMixAppRoute)>::empty());
        assert(route_lookup(pushed.drop_first(), key) is None);
    } else {
        assert(pushed[0] == entries[0]);
        assert(pushed.drop_first() =~= entries.drop_first().push(e));
        assert forall|j: int| 0 <= j < entries.drop_first().len() implies (
        #[trigger] entries.drop_first()[j]).0@ != e.0@ by {
            assert(entries.drop_first()[j] == entries[j + 1]);
        }
        lemma_route_lookup_push(entries.drop_first(), e, key);
        assert(entries[0].0@ != e.0@);
    }
}

impl Default for ChatMixConfig {
    fn default() -> (r: Self)
        ensures
            r.app_routes@.len() == 0,
            r.keys_unique(),
    {
        ChatMixConfig { app_routes: Vec::new() }
    }
}

impl ChatMixConfig {
    /// No application id has more than one entry: the shape that [`ChatMixConfig::insert`]
    /// keeps, so that the entries and the map view hold the same routes.
    pub open spec fn keys_unique(self) -> bool {
        forall|a: int, b: int|
            0 <= a < b < self.app_routes@.len() ==> (#[trigger] self.app_routes@[a]).0@
                != (#[trigger] self.app_routes@[b]).0@
    }

    /// The saved route for an application id, if any.
    pub fn get(&self, app_id: &str) -> (res: Option<&ChatMixAppRoute>)
        ensures
            res matches Some(r) ==> self@.contains_key(app_id@) && *r == self@[app_id@],
            res is None ==> !self@.contains_key(app_id@),
    {
        let mut i: usize = 0;
        while i < self.app_routes.len()
            invariant
                i <= self.app_routes@.len(),
                forall|j: int| 0 <= j < i ==> (#[trigger] self.app_routes@[j]).0@ != app_id@,
            decreases self.app_routes@.len() - i,
        {
            if str_eq(self.app_routes[i].0.as_str(), app_id) {
                proof {
                    lemma_route_lookup_skip(self.app_routes@, app_id@, i as int);
                }
                return Some(&self.app_routes[i].1);
            }
            i = i + 1;
        }
        proof {
            lemma_route_lookup_skip(self.app_routes@, app_id@, i as int);
        }
        None
    }

    /// Save (or replace) the route for an application id.
    pub fn insert(&mut self, app_id: String, route: ChatMixAppRoute)
        ensures
            final(self)@ == old(self)@.insert(app_id@, route),
            old(self).keys_unique() ==> final(self).keys_unique(),
    {
        let ghost key = app_id@;
        let mut i: usize = 0;
        while i < self.app_routes.len()
            invariant
                i <= self.app_routes@.len(),
                self.app_routes@ == old(self).app_routes@,
                key == app_id@,
                forall|j: int| 0 <= j < i ==> (#[trigger] self.app_routes@[j]).0@ != key,
            decreases self.app_routes@.len() - i,
        {
            if str_eq(self.app_routes[i].0.as_str(), app_id.as_str()) {
                let ghost before = self.app_routes@;
                let ghost entry = (app_id, route);
                self.app_routes.set(i, (app_id, route));
                proof {
                    assert(self.app_routes@ == before.update(i as int, entry));
                    assert forall|k: Seq<char>| #![auto]
                        route_lookup(self.app_routes@, k) == (if k == key {
                            Some(route)
                        } else {
                            route_lookup(before, k)
                        }) by {
                        if k == key {
                            assert forall|j: int| 0 <= j < i implies (
                            #[trigger] self.app_routes@[j]).0@ != key by {
                                assert(self.app_routes@[j] == before[j]);
                            }
                            lemma_route_lookup_skip(self.app_routes@, key, i as int);
                        } else {
                            lemma_route_lookup_update(before, i as int, entry, k);
                        }
                    }
                    assert(final(self)@ =~= old(self)@.insert(key, route));
                    assert forall|j: int| 0 <= j < before.len() implies (
                    #[trigger] self.app_routes@[j]).0@ == before[j].0@ by {}
                }
                return;
            }
            i = i + 1;
        }
        let ghost before = self.app_routes@;
        let ghost entry = (app_id, route);
        self.app_routes.push((app_id, route));
        proof {
            assert forall|k: Seq<char>| #![auto]
                route_lookup(self.app_routes@, k) == (if k == key {
                    Some(route)
                } else {
                    route_lookup(before, k)
                }) by {
                lemma_route_lookup_push(before, entry, k);
            }
            assert(final(self)@ =~= old(self)@.insert(key, route));
            assert(self.app_routes@[before.len() as int] == entry);
            assert forall|j: int| 0 <= j < before.len() implies (
            #[trigger] self.app_routes@[j]) == before[j] by {}
        }
    }
}

/// The persisted application configuration.
#[derive(Debug, Clone, PartialEq, Eq)]
pub struct AppConfig {
    pub autoswitch_enabled: bool,
    pub output: FlowConfig,
    pub input: FlowConfig,
    pub chatmix: ChatMixConfig,
    /// Mic sidetone, re-applied on connect to keep the headset in sync.
    pub sidetone: Sidetone,
    /// Notify when the battery drops to or below this percentage while connected.
    /// `0` disables the notification.
    pub low_battery_percent: u8,
    pub debug: DebugConfig,
}

impl Default for AppConfig {
    fn default() -> (r: Self)
        ensures
            r.autoswitch_enabled,
            r.output.priorities@.len() == 0,
            r.input.priorities@.len() == 0,
            r.chatmix.app_routes@.len() == 0,
            r.sidetone == Sidetone::Off,
            r.low_battery_percent == 15,
            r.debug.chatmix_enabled,
            !r.debug.chatmix_dry_run,
            r.debug.audio_session_polling_enabled,
    {
        AppConfig {
            autoswitch_enabled: true,
            output: FlowConfig::default(),
            input: FlowConfig::default(),
            chatmix: ChatMixConfig::default(),
            sidetone: Sidetone::default(),
            low_battery_percent: default_low_battery_percent(),
            debug: DebugConfig::default(),
        }
    }
}

// ---------------------------------------------------------------------------------------
// Presence and decisions
// ---------------------------------------------------------------------------------------

/// What is known of the headset: connection, mute, battery and ChatMix wheel.
#[derive(Debug, Clone, PartialEq, Eq)]
pub struct PresenceSnapshot {
    pub connected: bool,
    pub has_connection_status: bool,
    pub mic_muted: Option<bool>,
    pub battery_percent: Option<u8>,
    pub game_volume: Option<u8>,
    pub chat_volume: Option<u8>,
    pub raw_response: Option<String>,
    pub device_path: Option<String>,
    pub error: Option<String>,
    pub observed_at_ms: u128,
}

/// The view of an optional string.
pub open spec fn opt_string_view(o: Option<String>) -> Option<Seq<char>> {
    match o {
        Some(s) => Some(s@),
        None => None,
    }
}

/// A copy of an optional string.
pub fn clone_opt_string(o: &Option<String>) -> (r: Option<String>)
    ensures
        opt_string_view(r) == opt_string_view(*o),
{
    match o {
        Some(s) => Some(s.clone()),
        None => None,
    }
}

/// The mathematical content of a presence snapshot: its strings as character
/// sequences.
pub ghost struct PresenceView {
    pub connected: bool,
    pub has_connection_status: bool,
    pub mic_muted: Option<bool>,
    pub battery_percent: Option<u8>,
    pub game_volume: Option<u8>,
    pub chat_volume: Option<u8>,
    pub raw_response: Option<Seq<char>>,
    pub device_path: Option<Seq<char>>,
    pub error: Option<Seq<char>>,
    pub observed_at_ms: u128,
}

impl View for PresenceSnapshot {
    type V = PresenceView;

    open spec fn view(&self) -> PresenceView {
        PresenceView {
            connected: self.connected,
            has_connection_status: self.has_connection_status,
            mic_muted: self.mic_muted,
            battery_percent: self.battery_percent,
            game_volume: self.game_volume,
            chat_volume: self.chat_volume,
            raw_response: opt_string_view(self.raw_response),
            device_path: opt_string_view(self.device_path),
            error: opt_string_view(self.error),
            observed_at_ms: self.observed_at_ms,
        }
    }
}

/// A copy of a presence snapshot.
pub fn clone_snapshot(s: &PresenceSnapshot) -> (r: PresenceSnapshot)
    ensures
        r@ == s@,
{
    PresenceSnapshot {
        connected: s.connected,
        has_connection_status: s.has_connection_status,
        mic_muted: s.mic_muted,
        battery_percent: s.battery_percent,
        game_volume: s.game_volume,
        chat_volume: s.chat_volume,
        raw_response: clone_opt_string(&s.raw_response),
        device_path: clone_opt_string(&s.device_path),
        error: clone_opt_string(&s.error),
        observed_at_ms: s.observed_at_ms,
    }
}

/// A snapshot that carries nothing but its observation time.
pub open spec fn is_empty_snapshot(s: PresenceSnapshot) -> bool {
    &&& !s.connected
    &&& !s.has_connection_status
    &&& s.mic_muted is None
    &&& s.battery_percent is None
    &&& s.game_volume is None
    &&& s.chat_volume is None
    &&& s.raw_response is None
    &&& s.device_path is None
    &&& s.error is None
}

/// An empty snapshot observed now; partial reports fill in the fields they carry.
impl Default for PresenceSnapshot {
    fn default() -> (r: Self)
        ensures
            is_empty_snapshot(r),
    {
        PresenceSnapshot {
            connected: false,
            has_connection_status: false,
            mic_muted: None,
            battery_percent: None,
            game_volume: None,
            chat_volume: None,
            raw_response: None,
            device_path: None,
            error: None,
            observed_at_ms: now_ms(),
        }
    }
}

impl PresenceSnapshot {
    /// An empty snapshot, observed now, that carries an error message.
    pub fn error(message: String) -> (r: Self)
        ensures
            !r.connected,
            !r.has_connection_status,
            r.mic_muted is None,
            r.battery_percent is None,
            r.game_volume is None,
            r.chat_volume is None,
            r.raw_response is None,
            r.device_path is None,
            r.error == Some(message),
    {
        PresenceSnapshot { error: Some(message), ..PresenceSnapshot::default() }
    }
}

/// A change of default device that the switching rules ask for.
#[derive(Debug, Clone, PartialEq, Eq)]
pub enum DecisionAction {
    SetRenderDefault { endpoint_id: String },
    SetCaptureDefault { endpoint_id: String },
}

/// The flow and endpoint id an action sets as default.
pub open spec fn action_view(a: DecisionAction) -> (EndpointFlow, Seq<char>) {
    match a {
        DecisionAction::SetRenderDefault { endpoint_id } => (EndpointFlow::Render, endpoint_id@),
        DecisionAction::SetCaptureDefault { endpoint_id } => (EndpointFlow::Capture, endpoint_id@),
    }
}

/// The actions of a decision, each as its flow and endpoint id.
pub open spec fn actions_view(actions: Seq<DecisionAction>) -> Seq<(EndpointFlow, Seq<char>)> {
    actions.map_values(|a: DecisionAction| action_view(a))
}

/// What the switching rules decided, and why.
#[derive(Debug, Clone, PartialEq, Eq)]
pub struct SwitchDecision {
    pub reason: String,
    pub actions: Vec<DecisionAction>,
}

// ---------------------------------------------------------------------------------------
// Diagnostics
// ---------------------------------------------------------------------------------------

/// Severity of a diagnostic event.
#[derive(Debug, Clone, Copy, PartialEq, Eq, Structural)]
pub enum DiagnosticLevel {
    Info,
    Warn,
}

/// Coarse grouping used by the diagnostics UI filter: chatmix-related events can be
/// shown/hidden on their own.
#[derive(Debug, Clone, Copy, PartialEq, Eq, Structural)]
pub enum DiagnosticCategory {
    General,
    Chatmix,
}

/// One entry of the diagnostics log.
#[derive(Debug, Clone)]
pub struct DiagnosticEvent {
    pub timestamp_ms: u128,
    pub level: DiagnosticLevel,
    pub category: DiagnosticCategory,
    pub message: String,
}

impl DiagnosticEvent {
    /// An informational event in the general category, stamped now.
    pub fn info(message: String) -> (e: Self)
        ensures
            e.level == DiagnosticLevel::Info,
            e.category == DiagnosticCategory::General,
            e.message == message,
    {
        Self::new(DiagnosticLevel::Info, message)
    }

    /// A warning event in the general category, stamped now.
    pub fn warn(message: String) -> (e: Self)
        ensures
            e.level == DiagnosticLevel::Warn,
            e.category == DiagnosticCategory::General,
            e.message == message,
    {
        Self::new(DiagnosticLevel::Warn, message)
    }

    fn new(level: DiagnosticLevel, message: String) -> (e: Self)
        ensures
            e.level == level,
            e.category == DiagnosticCategory::General,
            e.message == message,
    {
        DiagnosticEvent {
            timestamp_ms: now_ms(),
            level,
            category: DiagnosticCategory::General,
            message,
        }
    }

    /// Tag this event with a non-default category for UI filtering.
    pub fn category(self, category: DiagnosticCategory) -> (e: Self)
        ensures
            e.category == category,
            e.level == self.level,
            e.message == self.message,
            e.timestamp_ms == self.timestamp_ms,
    {
        let mut event = self;
        event.category = category;
        event
    }
}

// ---------------------------------------------------------------------------------------
// Wall-clock time
// ---------------------------------------------------------------------------------------

#[verifier::external_type_specification]
#[verifier::external_body]
pub struct ExSystemTime(SystemTime);

#[verifier::external_type_specification]
#[verifier::external_body]
pub struct ExSystemTimeError(SystemTimeError);

/// `SystemTime::now`: the current wall-clock time. Nothing is claimed of it: it
/// depends on the machine's clock.
#[verifier::external_body]
fn system_time_now() -> SystemTime {
    SystemTime::now()
}

/// `SystemTime::duration_since(UNIX_EPOCH)`: how long after the Unix epoch `t` lies,
/// or an error when `t` is earlier. Nothing is claimed of the value.
#[verifier::external_body]
fn duration_since_unix_epoch(t: &SystemTime) -> Result<Duration, SystemTimeError> {
    t.duration_since(UNIX_EPOCH)
}

/// `Duration::as_millis`: the whole milliseconds of a duration. Nothing is claimed of
/// the value, as `Duration` is opaque here.
#[verifier::external_body]
fn duration_as_millis(d: &Duration) -> u128 {
    d.as_millis()
}

/// Milliseconds since the Unix epoch, or 0 when the clock reads earlier than it.
pub fn now_ms() -> u128 {
    let now = system_time_now();
    match duration_since_unix_epoch(&now) {
        Ok(duration) => duration_as_millis(&duration),
        Err(_) => 0,
    }
}

} // verus!
