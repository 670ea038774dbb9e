//! ChatMix routing: which channel (game or chat) an application's audio follows, and
//! the stable key an audio session is identified by.

use vstd::prelude::*;

use crate::models::{ChatMixConfig, ChatMixRoute};
use crate::text::{
    ascii_lower, contains, decimal, file_name, push_decimal, seq_contains, spec_file_name,
    str_eq, to_ascii_lowercase, trim, trimmed, TrimSet,
};

verus! {

// ---------------------------------------------------------------------------------------
// Specification
// ---------------------------------------------------------------------------------------

/// Executable names of well-known voice-chat applications.
pub open spec fn chat_executables() -> Seq<Seq<char>> {
    seq![
        "discord.exe"@,
        "teams.exe"@,
        "msteams.exe"@,
        "slack.exe"@,
        "zoom.exe"@,
        "skype.exe"@,
        "telegram.exe"@,
        "whatsapp.exe"@,
        "signal.exe"@,
        "mumble.exe"@,
        "ts3client_win64.exe"@,
        "ts3client_win32.exe"@,
        "teamspeak.exe"@,
    ]
}

/// Display-name fragments of well-known voice-chat applications.
pub open spec fn chat_name_fragments() -> Seq<Seq<char>> {
    seq![
        "discord"@,
        "teams"@,
        "slack"@,
        "zoom"@,
        "skype"@,
        "telegram"@,
        "whatsapp"@,
        "signal"@,
        "mumble"@,
        "teamspeak"@,
    ]
}

/// The (lower-cased) executable name is one of the known chat executables.
pub open spec fn spec_is_chat_executable(executable: Seq<char>) -> bool {
    chat_executables().contains(executable)
}

/// The (lower-cased) display name contains one of the known chat fragments.
pub open spec fn spec_is_chat_name(name: Seq<char>) -> bool {
    exists|i: int|
        0 <= i < chat_name_fragments().len() && seq_contains(
            name,
            #[trigger] chat_name_fragments()[i],
        )
}

/// The key an application is remembered by: trimmed and ASCII lower-cased.
pub open spec fn spec_normalize_app_key(value: Seq<char>) -> Seq<char> {
    ascii_lower(trimmed(value, TrimSet::WhiteSpace))
}

/// The executable a route decision looks at: the file name of the executable path,
/// falling back to the application id.
pub open spec fn route_executable(app_id: Seq<char>, executable_path: Option<Seq<char>>) -> Seq<
    char,
> {
    let file = match executable_path {
        Some(p) => spec_file_name(p),
        None => None,
    };
    match file {
        Some(f) => ascii_lower(f),
        None => ascii_lower(app_id),
    }
}

/// The ChatMix route of an application and where the decision came from: a saved
/// manual route, the chat heuristic, or the game default.
pub open spec fn spec_route_for_app(
    app_id: Seq<char>,
    display_name: Seq<char>,
    executable_path: Option<Seq<char>>,
    routes: Map<Seq<char>, crate::models::ChatMixAppRoute>,
) -> (ChatMixRoute, Seq<char>) {
    if routes.contains_key(app_id) {
        (routes[app_id].route, "manual"@)
    } else if spec_is_chat_executable(route_executable(app_id, executable_path))
        || spec_is_chat_name(ascii_lower(display_name)) {
        (ChatMixRoute::Chat, "heuristic"@)
    } else {
        (ChatMixRoute::Game, "default"@)
    }
}

/// The stable key of an audio session: the normalized executable path when it is not
/// empty, else the normalized display name when that is not empty, else `pid:<pid>`.
pub open spec fn spec_app_id_for_session(
    executable_path: Option<Seq<char>>,
    display_name: Seq<char>,
    process_id: u32,
) -> Seq<char> {
    let from_path = match executable_path {
        Some(p) => spec_normalize_app_key(p),
        None => Seq::empty(),
    };
    if from_path.len() > 0 {
        from_path
    } else if spec_normalize_app_key(display_name).len() > 0 {
        spec_normalize_app_key(display_name)
    } else {
        "pid:"@ + decimal(process_id as nat)
    }
}

/// The view of an optional string slice.
pub open spec fn opt_str_view(o: Option<&str>) -> Option<Seq<char>> {
    match o {
        Some(s) => Some(s@),
        None => None,
    }
}

// ---------------------------------------------------------------------------------------
// Executable routing
// ---------------------------------------------------------------------------------------

/// Decide the ChatMix route of an application: a saved manual route wins; otherwise
/// known chat apps (by executable or display name) go to chat, everything else to game.
pub fn route_for_app(
    app_id: &str,
    display_name: &str,
    executable_path: Option<&str>,
    config: &ChatMixConfig,
) -> (res: (ChatMixRoute, String))
    ensures
        (res.0, res.1@) == spec_route_for_app(
            app_id@,
            display_name@,
            opt_str_view(executable_path),
            config@,
        ),
{
    match config.get(app_id) {
        Some(saved) => {
            return (saved.route, "manual".to_owned());
        },
        None => {},
    }
    let file = match executable_path {
        Some(path) => file_name(path),
        None => None,
    };
    let executable = match file {
        Some(f) => to_ascii_lowercase(f.as_str()),
        None => to_ascii_lowercase(app_id),
    };
    let name = to_ascii_lowercase(display_name);
    if is_chat_executable(executable.as_str()) || is_chat_name(name.as_str()) {
        (ChatMixRoute::Chat, "heuristic".to_owned())
    } else {
        (ChatMixRoute::Game, "default".to_owned())
    }
}

/// The stable key of an audio session (see [`spec_app_id_for_session`]).
pub fn app_id_for_session(
    executable_path: Option<&str>,
    display_name: &str,
    process_id: u32,
) -> (id: String)
    ensures
        id@ == spec_app_id_for_session(opt_str_view(executable_path), display_name@, process_id),
{
    match executable_path {
        Some(path) => {
            let key = normalize_app_key(path);
            if key.unicode_len() > 0 {
                return key;
            }
        },
        None => {},
    }
    let fallback = normalize_app_key(display_name);
    if fallback.unicode_len() > 0 {
        fallback
    } else {
        let mut id = "pid:".to_owned();
        push_decimal(&mut id, process_id as u64);
        id
    }
}

/// Trim and ASCII lower-case an application key.
pub fn normalize_app_key(value: &str) -> (key: String)
    ensures
        key@ == spec_normalize_app_key(value@),
{
    let trimmed_value = trim(value);
    to_ascii_lowercase(trimmed_value.as_str())
}

/// The well-known chat executables, in the order they are checked.
fn chat_executable_list() -> (v: Vec<&'static str>)
    ensures
        v@.len() == chat_executables().len(),
        forall|i: int| 0 <= i < v@.len() ==> (#[trigger] v@[i])@ == chat_executables()[i],
{
    let mut v: Vec<&'static str> = Vec::new();
    v.push("discord.exe");
    v.push("teams.exe");
    v.push("msteams.exe");
    v.push("slack.exe");
    v.push("zoom.exe");
    v.push("skype.exe");
    v.push("telegram.exe");
    v.push("whatsapp.exe");
    v.push("signal.exe");
    v.push("mumble.exe");
    v.push("ts3client_win64.exe");
    v.push("ts3client_win32.exe");
    v.push("teamspeak.exe");
    v
}

/// The well-known chat display-name fragments, in the order they are checked.
fn chat_name_list() -> (v: Vec<&'static str>)
    ensures
        v@.len() == chat_name_fragments().len(),
        forall|i: int| 0 <= i < v@.len() ==> (#[trigger] v@[i])@ == chat_name_fragments()[i],
{
    let mut v: Vec<&'static str> = Vec::new();
    v.push("discord");
    v.push("teams");
    v.push("slack");
    v.push("zoom");
    v.push("skype");
    v.push("telegram");
    v.push("whatsapp");
    v.push("signal");
    v.push("mumble");
    v.push("teamspeak");
    v
}

/// Whether a lower-cased executable name is a known chat executable.
pub fn is_chat_executable(executable: &str) -> (r: bool)
    ensures
        r == spec_is_chat_executable(executable@),
{
    let list = chat_executable_list();
    let mut i: usize = 0;
    while i < list.len()
        invariant
            i <= list@.len(),
            list@.len() == chat_executables().len(),
            forall|k: int| 0 <= k < list@.len() ==> (#[trigger] list@[k])@ == chat_executables()[k],
            forall|k: int| 0 <= k < i ==> chat_executables()[k] != executable@,
        decreases list@.len() - i,
    {
        if str_eq(list[i], executable) {
            assert(chat_executables()[i as int] == executable@);
            return true;
        }
        i = i + 1;
    }
    false
}

/// Whether a lower-cased display name contains a known chat fragment.
pub fn is_chat_name(name: &str) -> (r: bool)
    ensures
        r == spec_is_chat_name(name@),
{
    let list = chat_name_list();
    let mut i: usize = 0;
    while i < list.len()
        invariant
            i <= list@.len(),
            list@.len() == chat_name_fragments().len(),
            forall|k: int|
                0 <= k < list@.len() ==> (#[trigger] list@[k])@ == chat_name_fragments()[k],
            forall|k: int|
                0 <= k < i ==> !seq_contains(name@, #[trigger] chat_name_fragments()[k]),
        decreases list@.len() - i,
    {
        if contains(name, list[i]) {
            assert(seq_contains(name@, chat_name_fragments()[i as int]));
            return true;
        }
        i = i + 1;
    }
    false
}

// ---------------------------------------------------------------------------------------
// Laws
// ---------------------------------------------------------------------------------------

/// A route saved manually for an application always wins over the heuristic: once it
/// is inserted, that application is routed as saved, with source `manual`.
pub proof fn law_manual_route_wins(
    routes: Map<Seq<char>, crate::models::ChatMixAppRoute>,
    app_id: Seq<char>,
    saved: crate::models::ChatMixAppRoute,
    display_name: Seq<char>,
    executable_path: Option<Seq<char>>,
)
    ensures
        spec_route_for_app(app_id, display_name, executable_path, routes.insert(app_id, saved)) == (
        saved.route, "manual"@),
{
}

/// Without a saved route, a known chat executable is routed to chat whatever its
/// display name, and an application that matches no chat name or executable is routed
/// to game.
pub proof fn law_heuristic_routes(
    routes: Map<Seq<char>, crate::models::ChatMixAppRoute>,
    app_id: Seq<char>,
    display_name: Seq<char>,
    executable_path: Option<Seq<char>>,
)
    requires
        !routes.contains_key(app_id),
    ensures
        spec_is_chat_executable(route_executable(app_id, executable_path)) ==> spec_route_for_app(
            app_id,
            display_name,
            executable_path,
            routes,
        ).0 == ChatMixRoute::Chat,
        !spec_is_chat_executable(route_executable(app_id, executable_path)) && !spec_is_chat_name(
            ascii_lower(display_name),
        ) ==> spec_route_for_app(app_id, display_name, executable_path, routes) == (
        ChatMixRoute::Game, "default"@),
{
}

/// Without a saved route, the well-known voice-chat applications go to the chat
/// channel by the heuristic: by executable file name (`discord.exe`, `teams.exe`,
/// `msteams.exe`, `slack.exe`, `zoom.exe`, `skype.exe`, `telegram.exe`, `whatsapp.exe`,
/// `signal.exe`, `mumble.exe`, `ts3client_win64.exe`, `ts3client_win32.exe`,
/// `teamspeak.exe`, compared ASCII case-insensitively), or by a display name containing
/// `discord`, `teams`, `slack`, `zoom`, `skype`, `telegram`, `whatsapp`, `signal`,
/// `mumble` or `teamspeak` (ASCII case-insensitively).
pub proof fn law_known_chat_apps_route_to_chat(
    routes: Map<Seq<char>, crate::models::ChatMixAppRoute>,
    app_id: Seq<char>,
    display_name: Seq<char>,
    executable_path: Option<Seq<char>>,
)
    requires
        !routes.contains_key(app_id),
    ensures
        ({
            let exes = seq![
                "discord.exe"@,
                "teams.exe"@,
                "msteams.exe"@,
                "slack.exe"@,
                "zoom.exe"@,
                "skype.exe"@,
                "telegram.exe"@,
                "whatsapp.exe"@,
                "signal.exe"@,
                "mumble.exe"@,
                "ts3client_win64.exe"@,
                "ts3client_win32.exe"@,
                "teamspeak.exe"@,
            ];
            let fragments = seq![
                "discord"@,
                "teams"@,
                "slack"@,
                "zoom"@,
                "skype"@,
                "telegram"@,
                "whatsapp"@,
                "signal"@,
                "mumble"@,
                "teamspeak"@,
            ];
            let heuristic = (ChatMixRoute::Chat, "heuristic"@);
            &&& (executable_path matches Some(p) && spec_file_name(p) matches Some(f)
                && exes.contains(ascii_lower(f))) ==> spec_route_for_app(
                app_id,
                display_name,
                executable_path,
                routes,
            ) == heuristic
            &&& (executable_path is None && exes.contains(ascii_lower(app_id))) ==> spec_route_for_app(
                app_id,
                display_name,
                executable_path,
                routes,
            ) == heuristic
            &&& (exists|k: int|
                0 <= k < fragments.len() && seq_contains(
                    ascii_lower(display_name),
                    #[trigger] fragments[k],
                )) ==> spec_route_for_app(app_id, display_name, executable_path, routes)
                == heuristic
        }),
{
    let exes = seq![
        "discord.exe"@,
        "teams.exe"@,
        "msteams.exe"@,
        "slack.exe"@,
        "zoom.exe"@,
        "skype.exe"@,
        "telegram.exe"@,
        "whatsapp.exe"@,
        "signal.exe"@,
        "mumble.exe"@,
        "ts3client_win64.exe"@,
        "ts3client_win32.exe"@,
        "teamspeak.exe"@,
    ];
    let fragments = seq![
        "discord"@,
        "teams"@,
        "slack"@,
        "zoom"@,
        "skype"@,
        "telegram"@,
        "whatsapp"@,
        "signal"@,
        "mumble"@,
        "teamspeak"@,
    ];
    assert(exes =~= chat_executables());
    assert(fragments =~= chat_name_fragments());
}

} // verus!
