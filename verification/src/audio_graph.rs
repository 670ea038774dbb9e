//! Identity and classification of the audio graph's objects, shared by the native
//! audio backends: which nodes are devices or app streams, how a device maps to an
//! [`AudioEndpoint`], how an app stream is named and routed, and the values written to
//! the PipeWire `default` metadata object.

use vstd::prelude::*;

use crate::chatmix::{app_id_for_session, route_for_app, spec_app_id_for_session, spec_route_for_app};
use crate::models::{
    clone_opt_string, opt_string_view, AudioEndpoint, ChatMixConfig, ChatMixRoute, EndpointFlow,
    EndpointState,
};
use crate::text::{
    parse_u32, spec_parse_u32, ascii_lower, contains, decimal, file_name, push_decimal, push_str, seq_contains,
    spec_file_name, str_eq, to_ascii_lowercase, trim, trimmed, TrimSet,
};

verus! {

// ---------------------------------------------------------------------------------------
// Node classification
// ---------------------------------------------------------------------------------------

/// How a graph node participates in the audio graph.
#[derive(Debug, Clone, Copy, PartialEq, Eq, Structural)]
pub enum NodeKind {
    Sink,
    Source,
    Stream,
}

/// The node kind a `media.class` names, if it is one the backend tracks.
pub open spec fn spec_classify(media_class: Seq<char>) -> Option<NodeKind> {
    if media_class == "Audio/Sink"@ {
        Some(NodeKind::Sink)
    } else if media_class == "Audio/Source"@ {
        Some(NodeKind::Source)
    } else if media_class == "Stream/Output/Audio"@ {
        Some(NodeKind::Stream)
    } else {
        None
    }
}

/// Classify a node by its `media.class`.
pub fn classify(media_class: &str) -> (k: Option<NodeKind>)
    ensures
        k == spec_classify(media_class@),
{
    if str_eq(media_class, "Audio/Sink") {
        Some(NodeKind::Sink)
    } else if str_eq(media_class, "Audio/Source") {
        Some(NodeKind::Source)
    } else if str_eq(media_class, "Stream/Output/Audio") {
        Some(NodeKind::Stream)
    } else {
        None
    }
}

/// SteelSeries/Arctis endpoints stay present while the wireless headset is off, so
/// their real availability is driven by HID presence: recognised by a (case-folded)
/// name containing `arctis` or `steelseries`.
pub open spec fn spec_is_presence_tracked(name: Seq<char>) -> bool {
    seq_contains(ascii_lower(name), "arctis"@) || seq_contains(ascii_lower(name), "steelseries"@)
}

/// Whether an endpoint name marks a presence-tracked (SteelSeries) device.
pub fn is_presence_tracked(name: &str) -> (r: bool)
    ensures
        r == spec_is_presence_tracked(name@),
{
    let lower = to_ascii_lowercase(name);
    contains(lower.as_str(), "arctis") || contains(lower.as_str(), "steelseries")
}

// ---------------------------------------------------------------------------------------
// Devices
// ---------------------------------------------------------------------------------------

/// A device or stream node as the registry describes it.
#[derive(Debug, Clone, PartialEq, Eq)]
pub struct GraphNode {
    pub kind: NodeKind,
    /// `node.name`, the stable identifier used as endpoint id.
    pub node_name: Option<String>,
    pub description: Option<String>,
    pub app_name: Option<String>,
    pub app_binary: Option<String>,
    /// `application.process.id`, 0 when unknown.
    pub process_id: u32,
    /// `client.id` of the app that owns a stream.
    pub client_id: Option<u32>,
}

/// The endpoint a device node stands for: sinks are outputs, sources inputs; the id is
/// the node name, the display name its description (else the id); a node is the
/// default for all roles when it is the current default of its flow. Streams and
/// unnamed nodes are no endpoints.
pub open spec fn endpoint_matches_node(
    e: AudioEndpoint,
    node: GraphNode,
    default_sink: Option<Seq<char>>,
    default_source: Option<Seq<char>>,
) -> bool {
    let id = opt_string_view(node.node_name).unwrap();
    let name = match opt_string_view(node.description) {
        Some(d) => d,
        None => id,
    };
    let is_default = if node.kind == NodeKind::Sink {
        default_sink == Some(id)
    } else {
        default_source == Some(id)
    };
    &&& e.id@ == id
    &&& e.name@ == name
    &&& e.flow == (if node.kind == NodeKind::Sink {
        EndpointFlow::Render
    } else {
        EndpointFlow::Capture
    })
    &&& e.state == EndpointState::Active
    &&& e.is_presence_tracked == spec_is_presence_tracked(name)
    &&& e.is_default_console == is_default
    &&& e.is_default_multimedia == is_default
    &&& e.is_default_communications == is_default
}

fn opt_str_eq(a: &Option<String>, b: &str) -> (r: bool)
    ensures
        r == (opt_string_view(*a) == Some(b@)),
{
    match a {
        Some(x) => str_eq(x.as_str(), b),
        None => false,
    }
}

/// The endpoint a device node stands for (see [`endpoint_matches_node`]); `None` for
/// streams and for nodes without a name.
pub fn endpoint_for_node(
    node: &GraphNode,
    default_sink: &Option<String>,
    default_source: &Option<String>,
) -> (r: Option<AudioEndpoint>)
    ensures
        (node.kind == NodeKind::Stream || node.node_name is None) ==> r is None,
        !(node.kind == NodeKind::Stream || node.node_name is None) ==> (r matches Some(e)
            && endpoint_matches_node(
            e,
            *node,
            opt_string_view(*default_sink),
            opt_string_view(*default_source),
        )),
{
    let (flow, default) = match node.kind {
        NodeKind::Sink => (EndpointFlow::Render, default_sink),
        NodeKind::Source => (EndpointFlow::Capture, default_source),
        NodeKind::Stream => return None,
    };
    let id = match &node.node_name {
        Some(id) => id.clone(),
        None => return None,
    };
    let name = match &node.description {
        Some(d) => d.clone(),
        None => id.clone(),
    };
    let is_default = opt_str_eq(default, id.as_str());
    let presence_tracked = is_presence_tracked(name.as_str());
    Some(
        AudioEndpoint {
            id,
            name,
            flow,
            state: EndpointState::Active,
            is_presence_tracked: presence_tracked,
            is_default_console: is_default,
            is_default_multimedia: is_default,
            is_default_communications: is_default,
        },
    )
}

// ---------------------------------------------------------------------------------------
// App streams
// ---------------------------------------------------------------------------------------

/// Identity of a client (the app behind one or more streams).
#[derive(Debug, Clone, PartialEq, Eq)]
pub struct ClientInfo {
    pub app_name: Option<String>,
    pub app_binary: Option<String>,
    /// `application.process.id` from the bound info, when present and plausible.
    pub info_pid: Option<u32>,
    /// `pipewire.sec.pid`, the host pid the daemon authenticated.
    pub sec_pid: Option<u32>,
}

impl ClientInfo {
    /// Best available process id: the authenticated host pid first, then the
    /// self-reported one, else 0.
    pub fn process_id(&self) -> (pid: u32)
        ensures
            pid == (match self.sec_pid {
                Some(p) => p,
                None => match self.info_pid {
                    Some(p) => p,
                    None => 0,
                },
            }),
    {
        match self.sec_pid {
            Some(p) => p,
            None => match self.info_pid {
                Some(p) => p,
                None => 0,
            },
        }
    }
}

/// Who an app stream belongs to, and how ChatMix routes it.
#[derive(Debug, Clone, PartialEq, Eq)]
pub struct SessionIdentity {
    pub id: String,
    pub app_id: String,
    pub display_name: String,
    pub executable_path: Option<String>,
    pub process_id: u32,
    pub route: ChatMixRoute,
    pub route_source: String,
}

/// The first present of several optional strings.
pub open spec fn first_present(a: Option<Seq<char>>, b: Option<Seq<char>>) -> Option<Seq<char>> {
    match a {
        Some(x) => Some(x),
        None => b,
    }
}

/// The display name of a stream: the node's app name, the client's app name, the
/// node description, the node name, or `Stream <id>`, whichever is first present.
pub open spec fn spec_stream_display_name(id: u32, node: GraphNode, client: Option<ClientInfo>) -> Seq<
    char,
> {
    let client_name = match client {
        Some(c) => opt_string_view(c.app_name),
        None => None,
    };
    match first_present(
        first_present(
            first_present(opt_string_view(node.app_name), client_name),
            opt_string_view(node.description),
        ),
        opt_string_view(node.node_name),
    ) {
        Some(n) => n,
        None => "Stream "@ + decimal(id as nat),
    }
}

/// The executable of a stream: the node's binary, else the client's.
pub open spec fn spec_stream_executable(node: GraphNode, client: Option<ClientInfo>) -> Option<
    Seq<char>,
> {
    let client_binary = match client {
        Some(c) => opt_string_view(c.app_binary),
        None => None,
    };
    first_present(opt_string_view(node.app_binary), client_binary)
}

/// The process id of a stream: the node's own when known (non-zero), else the
/// client's best process id, else 0.
pub open spec fn spec_stream_process_id(node: GraphNode, client: Option<ClientInfo>) -> u32 {
    if node.process_id != 0 {
        node.process_id
    } else {
        match client {
            Some(c) => match c.sec_pid {
                Some(p) => p,
                None => match c.info_pid {
                    Some(p) => p,
                    None => 0,
                },
            },
            None => 0,
        }
    }
}

fn first_present_string(a: &Option<String>, b: Option<&String>) -> (r: Option<String>)
    ensures
        opt_string_view(r) == first_present(
            opt_string_view(*a),
            match b {
                Some(s) => Some(s@),
                None => None,
            },
        ),
{
    match a {
        Some(x) => Some(x.clone()),
        None => match b {
            Some(y) => Some(y.clone()),
            None => None,
        },
    }
}

/// Who a stream belongs to, and how ChatMix routes it.
pub fn stream_identity(id: u32, node: &GraphNode, client: Option<&ClientInfo>, chatmix: &ChatMixConfig) -> (s:
    SessionIdentity)
    ensures
        s.id@ == decimal(id as nat),
        s.display_name@ == spec_stream_display_name(
            id,
            *node,
            match client {
                Some(c) => Some(*c),
                None => None,
            },
        ),
        opt_string_view(s.executable_path) == spec_stream_executable(
            *node,
            match client {
                Some(c) => Some(*c),
                None => None,
            },
        ),
        s.process_id == spec_stream_process_id(
            *node,
            match client {
                Some(c) => Some(*c),
                None => None,
            },
        ),
        s.app_id@ == spec_app_id_for_session(
            opt_string_view(s.executable_path),
            s.display_name@,
            s.process_id,
        ),
        (s.route, s.route_source@) == spec_route_for_app(
            s.app_id@,
            s.display_name@,
            opt_string_view(s.executable_path),
            chatmix@,
        ),
{
    let client_name = match client {
        Some(c) => match &c.app_name {
            Some(n) => Some(n),
            None => None,
        },
        None => None,
    };
    let name1 = first_present_string(&node.app_name, client_name);
    let name2 = first_present_string(&name1, match &node.description {
        Some(d) => Some(d),
        None => None,
    });
    let name3 = first_present_string(&name2, match &node.node_name {
        Some(n) => Some(n),
        None => None,
    });
    let display_name = match name3 {
        Some(n) => n,
        None => {
            let mut n = "Stream ".to_owned();
            push_decimal(&mut n, id as u64);
            n
        },
    };
    let client_binary = match client {
        Some(c) => match &c.app_binary {
            Some(b) => Some(b),
            None => None,
        },
        None => None,
    };
    let executable_path = first_present_string(&node.app_binary, client_binary);
    let process_id = if node.process_id != 0 {
        node.process_id
    } else {
        match client {
            Some(c) => c.process_id(),
            None => 0,
        }
    };
    let exe = match &executable_path {
        Some(p) => Some(p.as_str()),
        None => None,
    };
    let app_id = app_id_for_session(exe, display_name.as_str(), process_id);
    let (route, route_source) = route_for_app(app_id.as_str(), display_name.as_str(), exe, chatmix);
    let mut sid = String::new();
    push_decimal(&mut sid, id as u64);
    assert(sid@ =~= decimal(id as nat));
    SessionIdentity {
        id: sid,
        app_id,
        display_name,
        executable_path,
        process_id,
        route,
        route_source,
    }
}

/// The display name of an OS audio session: its own display name when it is not
/// blank, else the file name of its executable, else `Process <pid>`.
pub open spec fn spec_session_display_name(
    raw_display: Option<Seq<char>>,
    executable_path: Option<Seq<char>>,
    process_id: u32,
) -> Seq<char> {
    let raw = match raw_display {
        Some(r) => if trimmed(r, TrimSet::WhiteSpace).len() > 0 {
            Some(r)
        } else {
            None
        },
        None => None,
    };
    let from_exe = match executable_path {
        Some(p) => spec_file_name(p),
        None => None,
    };
    match first_present(raw, from_exe) {
        Some(n) => n,
        None => "Process "@ + decimal(process_id as nat),
    }
}

/// The display name of an OS audio session (see [`spec_session_display_name`]).
pub fn session_display_name(raw_display: Option<String>, executable_path: Option<&str>, process_id: u32) -> (n:
    String)
    ensures
        n@ == spec_session_display_name(
            opt_string_view(raw_display),
            match executable_path {
                Some(p) => Some(p@),
                None => None,
            },
            process_id,
        ),
{
    match raw_display {
        Some(raw) => {
            let t = trim(raw.as_str());
            if t.unicode_len() > 0 {
                return raw;
            }
        },
        None => {},
    }
    let from_exe = match executable_path {
        Some(p) => file_name(p),
        None => None,
    };
    match from_exe {
        Some(f) => f,
        None => {
            let mut n = "Process ".to_owned();
            push_decimal(&mut n, process_id as u64);
            n
        },
    }
}

/// Who an OS audio session belongs to, and how ChatMix routes it: the session keeps the
/// OS's instance id, is named by [`spec_session_display_name`], and is keyed and routed
/// as any other session.
pub fn os_session_identity(
    id: String,
    raw_display: Option<String>,
    executable_path: Option<String>,
    process_id: u32,
    chatmix: &ChatMixConfig,
) -> (s: SessionIdentity)
    ensures
        s.id@ == id@,
        s.display_name@ == spec_session_display_name(
            opt_string_view(raw_display),
            opt_string_view(executable_path),
            process_id,
        ),
        opt_string_view(s.executable_path) == opt_string_view(executable_path),
        s.process_id == process_id,
        s.app_id@ == spec_app_id_for_session(
            opt_string_view(executable_path),
            s.display_name@,
            process_id,
        ),
        (s.route, s.route_source@) == spec_route_for_app(
            s.app_id@,
            s.display_name@,
            opt_string_view(executable_path),
            chatmix@,
        ),
{
    let exe = match &executable_path {
        Some(p) => Some(p.as_str()),
        None => None,
    };
    let display_name = session_display_name(raw_display, exe, process_id);
    let app_id = app_id_for_session(exe, display_name.as_str(), process_id);
    let (route, route_source) = route_for_app(app_id.as_str(), display_name.as_str(), exe, chatmix);
    SessionIdentity { id, app_id, display_name, executable_path, process_id, route, route_source }
}

/// SteelSeries Sonar's virtual devices: listed by the OS, but not a real output or
/// input, so the device list leaves them out.
pub open spec fn spec_is_sonar_virtual(name: Seq<char>) -> bool {
    seq_contains(ascii_lower(name), "steelseries sonar"@)
}

/// Whether an endpoint name is one of SteelSeries Sonar's virtual devices.
pub fn is_sonar_virtual(name: &str) -> (r: bool)
    ensures
        r == spec_is_sonar_virtual(name@),
{
    let lower = to_ascii_lowercase(name);
    contains(lower.as_str(), "steelseries sonar")
}

/// An endpoint the device list shows: any but a Sonar virtual device.
pub open spec fn spec_listed(e: AudioEndpoint) -> bool {
    !spec_is_sonar_virtual(e.name@)
}

fn clone_endpoint(e: &AudioEndpoint) -> (r: AudioEndpoint)
    ensures
        r == *e,
{
    AudioEndpoint {
        id: e.id.clone(),
        name: e.name.clone(),
        flow: e.flow,
        state: e.state,
        is_presence_tracked: e.is_presence_tracked,
        is_default_console: e.is_default_console,
        is_default_multimedia: e.is_default_multimedia,
        is_default_communications: e.is_default_communications,
    }
}

/// The device list without Sonar's virtual devices, in the order the OS gave. No
/// Sonar virtual device is ever listed, so none is ever chosen as a default.
pub fn without_sonar_virtual(endpoints: Vec<AudioEndpoint>) -> (r: Vec<AudioEndpoint>)
    ensures
        r@ == endpoints@.filter(|e: AudioEndpoint| spec_listed(e)),
        forall|k: int| 0 <= k < r@.len() ==> !spec_is_sonar_virtual(#[trigger] r@[k].name@),
{
    let ghost pred = |e: AudioEndpoint| spec_listed(e);
    let mut r: Vec<AudioEndpoint> = Vec::new();
    let mut i: usize = 0;
    while i < endpoints.len()
        invariant
            i <= endpoints@.len(),
            pred == (|e: AudioEndpoint| spec_listed(e)),
            r@ == endpoints@.subrange(0, i as int).filter(pred),
            forall|k: int| 0 <= k < r@.len() ==> !spec_is_sonar_virtual(#[trigger] r@[k].name@),
        decreases endpoints@.len() - i,
    {
        let e = &endpoints[i];
        if !is_sonar_virtual(e.name.as_str()) {
            r.push(clone_endpoint(e));
        }
        proof {
            let next = endpoints@.subrange(0, i + 1);
            assert(next.drop_last() =~= endpoints@.subrange(0, i as int));
            assert(next.last() == endpoints@[i as int]);
            reveal(Seq::filter);
            assert(next.filter(pred) == (if pred(next.last()) {
                next.drop_last().filter(pred).push(next.last())
            } else {
                next.drop_last().filter(pred)
            }));
            assert(r@ =~= next.filter(pred));
        }
        i = i + 1;
    }
    assert(endpoints@.subrange(0, endpoints@.len() as int) =~= endpoints@);
    r
}

// ---------------------------------------------------------------------------------------
// The `default` metadata object
// ---------------------------------------------------------------------------------------

/// The metadata key that holds the user's configured default for a flow.
pub open spec fn spec_default_metadata_key(flow: EndpointFlow) -> Seq<char> {
    match flow {
        EndpointFlow::Render => "default.configured.audio.sink"@,
        EndpointFlow::Capture => "default.configured.audio.source"@,
    }
}

/// The metadata key that holds the user's configured default for a flow (the key
/// `wpctl set-default` writes).
pub fn default_metadata_key(flow: EndpointFlow) -> (k: &'static str)
    ensures
        k@ == spec_default_metadata_key(flow),
{
    match flow {
        EndpointFlow::Render => "default.configured.audio.sink",
        EndpointFlow::Capture => "default.configured.audio.source",
    }
}

/// JSON string escaping of one character: `\` and `"` get a leading backslash.
pub open spec fn escape_char(c: char) -> Seq<char> {
    if c == '\\' {
        seq!['\\', '\\']
    } else if c == '"' {
        seq!['\\', '"']
    } else {
        seq![c]
    }
}

/// Minimal JSON string escaping: backslashes and double quotes are escaped.
pub open spec fn spec_escape_json(s: Seq<char>) -> Seq<char>
    decreases s.len(),
{
    if s.len() == 0 {
        Seq::empty()
    } else {
        spec_escape_json(s.drop_last()) + escape_char(s.last())
    }
}

/// Minimal JSON string escaping for a node name injected into a metadata value.
pub fn escape_json(value: &str) -> (r: String)
    ensures
        r@ == spec_escape_json(value@),
{
    let chars = crate::text::chars_of(value);
    let mut r = String::new();
    let mut i: usize = 0;
    while i < chars.len()
        invariant
            i <= chars@.len(),
            chars@ == value@,
            r@ == spec_escape_json(value@.subrange(0, i as int)),
        decreases chars@.len() - i,
    {
        let c = chars[i];
        if c == '\\' {
            r.push('\\');
            r.push('\\');
        } else if c == '"' {
            r.push('\\');
            r.push('"');
        } else {
            r.push(c);
        }
        proof {
            let next = value@.subrange(0, i + 1);
            assert(next.drop_last() =~= value@.subrange(0, i as int));
            assert(next.last() == c);
        }
        i = i + 1;
        assert(r@ =~= spec_escape_json(value@.subrange(0, i as int)));
    }
    assert(value@.subrange(0, i as int) =~= value@);
    r
}

/// The metadata value naming a default node: `{"name":"<escaped node name>"}`.
pub fn default_metadata_value(node_name: &str) -> (v: String)
    ensures
        v@ == "{\"name\":\""@ + spec_escape_json(node_name@) + "\"}"@,
{
    let mut v = "{\"name\":\"".to_owned();
    let escaped = escape_json(node_name);
    push_str(&mut v, escaped.as_str());
    push_str(&mut v, "\"}");
    v
}

/// The string member `key` of the JSON object written in `text`: `None` when `text`
/// is not valid JSON, not an object, or has no string-valued member `key`.
pub uninterp spec fn json_string_member(text: Seq<char>, key: Seq<char>) -> Option<Seq<char>>;

/// `serde_json::from_str::<serde_json::Value>`, then `Value::get(key)` and
/// `Value::as_str`: the string member `key` of the JSON document in `text`. The result
/// is claimed to be a function of the text and the key alone (named
/// [`json_string_member`]); nothing more of JSON parsing is stated.
#[verifier::external_body]
fn json_string_member_of(text: &str, key: &str) -> (r: Option<String>)
    ensures
        opt_string_view(r) == json_string_member(text@, key@),
{
    serde_json::from_str::<serde_json::Value>(text).ok()?.get(key)?.as_str().map(str::to_string)
}

/// The node name in a default sink/source metadata value: the string member `name` of
/// its JSON object (`{"name":"alsa_output...."}`), the member that
/// [`default_metadata_value`] writes.
pub fn parse_default_name(value: &str) -> (r: Option<String>)
    ensures
        opt_string_view(r) == json_string_member(value@, "name"@),
{
    json_string_member_of(value, "name")
}

// ---------------------------------------------------------------------------------------
// Registry properties
// ---------------------------------------------------------------------------------------

/// The registry properties of a node global that the backend reads.
#[derive(Debug, Clone, PartialEq, Eq)]
pub struct NodeProps {
    /// `node.name`
    pub node_name: Option<String>,
    /// `node.description`
    pub node_description: Option<String>,
    /// `node.nick`
    pub node_nick: Option<String>,
    /// `application.name`
    pub application_name: Option<String>,
    /// `media.name`
    pub media_name: Option<String>,
    /// `application.process.binary`
    pub process_binary: Option<String>,
    /// `application.process.id`
    pub process_id: Option<String>,
    /// `client.id`
    pub client_id: Option<String>,
}

/// A numeric property: its value when it parses as a `u32`.
pub open spec fn spec_numeric_prop(text: Option<Seq<char>>) -> Option<u32> {
    match text {
        Some(t) => spec_parse_u32(t),
        None => None,
    }
}

fn numeric_prop(text: &Option<String>) -> (r: Option<u32>)
    ensures
        r == spec_numeric_prop(opt_string_view(*text)),
{
    match text {
        Some(t) => parse_u32(t.as_str()),
        None => None,
    }
}

/// Build the mirrored node for a registry global: its description falls back from
/// `node.description` to `node.nick`, `application.name` and `media.name`; its app name
/// from `application.name` to `media.name`; an unparsable process id counts as 0.
pub fn graph_node_from_props(kind: NodeKind, props: &NodeProps) -> (n: GraphNode)
    ensures
        n.kind == kind,
        opt_string_view(n.node_name) == opt_string_view(props.node_name),
        opt_string_view(n.description) == first_present(
            first_present(
                first_present(
                    opt_string_view(props.node_description),
                    opt_string_view(props.node_nick),
                ),
                opt_string_view(props.application_name),
            ),
            opt_string_view(props.media_name),
        ),
        opt_string_view(n.app_name) == first_present(
            opt_string_view(props.application_name),
            opt_string_view(props.media_name),
        ),
        opt_string_view(n.app_binary) == opt_string_view(props.process_binary),
        n.process_id == (match spec_numeric_prop(opt_string_view(props.process_id)) {
            Some(p) => p,
            None => 0,
        }),
        n.client_id == spec_numeric_prop(opt_string_view(props.client_id)),
{
    let d1 = first_present_string(&props.node_description, match &props.node_nick {
        Some(x) => Some(x),
        None => None,
    });
    let d2 = first_present_string(&d1, match &props.application_name {
        Some(x) => Some(x),
        None => None,
    });
    let description = first_present_string(&d2, match &props.media_name {
        Some(x) => Some(x),
        None => None,
    });
    let app_name = first_present_string(&props.application_name, match &props.media_name {
        Some(x) => Some(x),
        None => None,
    });
    GraphNode {
        kind,
        node_name: clone_opt_string(&props.node_name),
        description,
        app_name,
        app_binary: clone_opt_string(&props.process_binary),
        process_id: match numeric_prop(&props.process_id) {
            Some(p) => p,
            None => 0,
        },
        client_id: numeric_prop(&props.client_id),
    }
}

/// The client identity seeded from a client global: `application.name` and the
/// authenticated pid `pipewire.sec.pid` (when it parses).
pub fn client_info_from_global(application_name: Option<String>, sec_pid: &Option<String>) -> (c:
    ClientInfo)
    ensures
        opt_string_view(c.app_name) == opt_string_view(application_name),
        c.app_binary is None,
        c.info_pid is None,
        c.sec_pid == spec_numeric_prop(opt_string_view(*sec_pid)),
{
    ClientInfo {
        app_name: application_name,
        app_binary: None,
        info_pid: None,
        sec_pid: numeric_prop(sec_pid),
    }
}

/// Fold a bound client's `info` properties into its identity: a present
/// `application.name` or `application.process.binary` replaces the old value, and an
/// `application.process.id` that parses to a non-zero pid replaces the info pid.
pub fn client_info_apply_info(
    info: ClientInfo,
    application_name: Option<String>,
    process_binary: Option<String>,
    process_id: &Option<String>,
) -> (c: ClientInfo)
    ensures
        opt_string_view(c.app_name) == first_present(
            opt_string_view(application_name),
            opt_string_view(info.app_name),
        ),
        opt_string_view(c.app_binary) == first_present(
            opt_string_view(process_binary),
            opt_string_view(info.app_binary),
        ),
        c.info_pid == (match spec_numeric_prop(opt_string_view(*process_id)) {
            Some(p) => if p != 0 {
                Some(p)
            } else {
                info.info_pid
            },
            None => info.info_pid,
        }),
        c.sec_pid == info.sec_pid,
{
    let mut c = info;
    match application_name {
        Some(name) => c.app_name = Some(name),
        None => {},
    }
    match process_binary {
        Some(binary) => c.app_binary = Some(binary),
        None => {},
    }
    match numeric_prop(process_id) {
        Some(pid) => if pid != 0 {
            c.info_pid = Some(pid);
        },
        None => {},
    }
    c
}

/// Which default a `default` metadata key reports: `default.audio.sink` the output,
/// `default.audio.source` the input; other keys are ignored.
pub open spec fn spec_default_key_flow(key: Seq<char>) -> Option<EndpointFlow> {
    if key == "default.audio.sink"@ {
        Some(EndpointFlow::Render)
    } else if key == "default.audio.source"@ {
        Some(EndpointFlow::Capture)
    } else {
        None
    }
}

/// Which default a `default` metadata key reports (see [`spec_default_key_flow`]).
pub fn default_key_flow(key: &str) -> (f: Option<EndpointFlow>)
    ensures
        f == spec_default_key_flow(key@),
{
    if str_eq(key, "default.audio.sink") {
        Some(EndpointFlow::Render)
    } else if str_eq(key, "default.audio.source") {
        Some(EndpointFlow::Capture)
    } else {
        None
    }
}

/// The reconnect backoff after a lost connection: doubled each time, capped at 5 s.
pub fn next_backoff_ms(backoff_ms: u64) -> (next: u64)
    ensures
        next == (if backoff_ms * 2 < 5000 {
            backoff_ms * 2
        } else {
            5000
        }),
{
    if backoff_ms < 2500 {
        backoff_ms * 2
    } else {
        5000
    }
}

/// The device list leaves out exactly the Sonar virtual devices: an endpoint is listed
/// if and only if its ASCII lower-cased name does not contain `steelseries sonar`,
/// whatever its state (unplugged, disabled or absent devices stay listed, so they can be
/// ranked).
pub proof fn law_only_sonar_devices_are_left_out(endpoints: Seq<AudioEndpoint>, i: int)
    requires
        0 <= i < endpoints.len(),
    ensures
        endpoints.filter(|e: AudioEndpoint| spec_listed(e)).contains(endpoints[i]) <==> !seq_contains(
            ascii_lower(endpoints[i].name@),
            "steelseries sonar"@,
        ),
{
    let pred = |e: AudioEndpoint| spec_listed(e);
    let listed = endpoints.filter(pred);
    broadcast use vstd::seq_lib::group_filter_ensures;
    if listed.contains(endpoints[i]) {
        let k = choose|k: int| 0 <= k < listed.len() && listed[k] == endpoints[i];
        assert(pred(listed[k]));
    }
    if pred(endpoints[i]) {
        endpoints.lemma_filter_contains(pred, i);
    }
}

// ---------------------------------------------------------------------------------------
// Connection readiness
// ---------------------------------------------------------------------------------------

/// Where a new PipeWire connection stands on its way to "ready": waiting for the first
/// core roundtrip (which delivers every existing global), then for a second one (which
/// delivers the property replay of objects bound in the first), then done. The numbers
/// are the raw sequence values of the pending `sync` requests.
#[derive(Debug, Clone, Copy, PartialEq, Eq, Structural)]
pub enum ReadyPhase {
    AwaitingFirst(i32),
    AwaitingSecond(i32),
    Done,
}

/// What the connection must do after a readiness step.
#[derive(Debug, Clone, Copy, PartialEq, Eq, Structural)]
pub enum ReadyAction {
    /// Nothing.
    Ignore,
    /// Issue the second core `sync` and report its outcome to
    /// [`ready_after_second_sync`].
    IssueSecondSync,
    /// Tell the waiting constructor that the graph is populated.
    SignalReady,
}

/// The readiness step for a core `done` event: `from_core` says whether the event is
/// the core object's own, `seq` is its raw sequence value. Only the core's completion
/// of the sync being waited for moves the phase on; once done, nothing more happens.
pub fn ready_on_done(phase: ReadyPhase, from_core: bool, seq: i32) -> (r: (ReadyPhase, ReadyAction))
    ensures
        r == (match phase {
            ReadyPhase::AwaitingFirst(expected) => if from_core && seq == expected {
                (phase, ReadyAction::IssueSecondSync)
            } else {
                (phase, ReadyAction::Ignore)
            },
            ReadyPhase::AwaitingSecond(expected) => if from_core && seq == expected {
                (ReadyPhase::Done, ReadyAction::SignalReady)
            } else {
                (phase, ReadyAction::Ignore)
            },
            ReadyPhase::Done => (phase, ReadyAction::Ignore),
        }),
{
    match phase {
        ReadyPhase::AwaitingFirst(expected) => {
            if from_core && seq == expected {
                (phase, ReadyAction::IssueSecondSync)
            } else {
                (phase, ReadyAction::Ignore)
            }
        },
        ReadyPhase::AwaitingSecond(expected) => {
            if from_core && seq == expected {
                (ReadyPhase::Done, ReadyAction::SignalReady)
            } else {
                (phase, ReadyAction::Ignore)
            }
        },
        ReadyPhase::Done => (phase, ReadyAction::Ignore),
    }
}

/// The readiness step after issuing the second `sync`: wait for it when it was sent
/// (its raw sequence value), else signal ready at once rather than never.
pub fn ready_after_second_sync(second: Option<i32>) -> (r: (ReadyPhase, ReadyAction))
    ensures
        r == (match second {
            Some(s) => (ReadyPhase::AwaitingSecond(s), ReadyAction::Ignore),
            None => (ReadyPhase::Done, ReadyAction::SignalReady),
        }),
{
    match second {
        Some(s) => (ReadyPhase::AwaitingSecond(s), ReadyAction::Ignore),
        None => (ReadyPhase::Done, ReadyAction::SignalReady),
    }
}


} // verus!
