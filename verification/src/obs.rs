//! The decisions of the OBS side of the bridge: how a command is carried out
//! against the scene list, how OBS events and the periodic scene-list poll
//! are turned into responses, and which errors mean the connection is lost.
//! The OBS WebSocket calls themselves are made by the caller, which hands
//! their results in.

use vstd::prelude::*;
use vstd::string::*;
use crate::bridge::{AppStatus, BridgeCommand, BridgeResponse};
use crate::text::{contains_str, has_substring};

verus! {

/// Seconds to wait before reconnecting to OBS after a connection ended.
pub const RECONNECT_DELAY_SECS: u64 = 5;

/// Seconds between two polls of the scene list (OBS sends no event for a
/// reordering of scenes).
pub const SCENE_POLL_INTERVAL_SECS: u64 = 1;

// ---------------------------------------------------------------------------
// Scene lookup
// ---------------------------------------------------------------------------

/// `i` is the first position of a scene named `name` in `names`.
pub open spec fn is_first_position(names: Seq<String>, name: Seq<char>, i: int) -> bool {
    &&& 0 <= i < names.len()
    &&& names[i]@ == name
    &&& forall|j: int| 0 <= j < i ==> names[j]@ != name
}

/// The 0-based position of the first scene named `name`, or 0 when there is
/// none.
pub open spec fn scene_position(names: Seq<String>, name: Seq<char>) -> int {
    if exists|i: int| is_first_position(names, name, i) {
        choose|i: int| is_first_position(names, name, i)
    } else {
        0
    }
}

proof fn lemma_first_position_unique(names: Seq<String>, name: Seq<char>, i: int, k: int)
    requires
        is_first_position(names, name, i),
        is_first_position(names, name, k),
    ensures
        i == k,
{
}

/// Find the index of a given scene name in the scene list (0 when absent).
pub fn get_scene_index(names: &Vec<String>, scene_name: &str) -> (r: usize)
    ensures
        r == scene_position(names@, scene_name@),
{
    let mut i: usize = 0;
    while i < names.len()
        invariant
            i <= names.len(),
            forall|j: int| 0 <= j < i ==> names@[j]@ != scene_name@,
        decreases names.len() - i,
    {
        if crate::text::str_equal(names[i].as_str(), scene_name) {
            proof {
                assert(is_first_position(names@, scene_name@, i as int));
                let k = choose|k: int| is_first_position(names@, scene_name@, k);
                lemma_first_position_unique(names@, scene_name@, i as int, k);
            }
            return i;
        }
        i = i + 1;
    }
    assert(!exists|k: int| is_first_position(names@, scene_name@, k));
    0
}

/// The response announcing the active scene `name`: its position in the
/// fetched scene list, or 0 when the list could not be fetched.
pub open spec fn active_scene_announcement(names: Option<Seq<String>>, name: String) -> BridgeResponse {
    BridgeResponse::ActiveScene {
        index: match names {
            Some(ns) => scene_position(ns, name@) as usize,
            None => 0,
        },
        name,
    }
}

/// The `/activeSceneReturn` response for the active scene `name`, given the
/// scene list fetched for it (`None` when fetching it failed).
pub fn active_scene_response(names: Option<&Vec<String>>, name: String) -> (r: BridgeResponse)
    ensures
        r == active_scene_announcement(
            match names {
                Some(v) => Some(v@),
                None => None,
            },
            name,
        ),
{
    let index = match names {
        Some(v) => get_scene_index(v, name.as_str()),
        None => 0,
    };
    BridgeResponse::ActiveScene { index, name }
}

// ---------------------------------------------------------------------------
// Commands
// ---------------------------------------------------------------------------

/// How a command is answered, once the scene list is known.
#[derive(Debug)]
pub enum CommandOutcome {
    /// Make the named scene the program scene; on success the status becomes
    /// `Connected` with that scene (OBS then announces the change itself).
    SwitchTo(String),
    /// Send this response to the OSC side.
    Respond(BridgeResponse),
}

/// The name of the current program scene as the bridge reports it: the empty
/// name when OBS reported none.
pub open spec fn current_scene_name(current: Option<String>) -> Seq<char> {
    match current {
        Some(c) => c@,
        None => Seq::empty(),
    }
}

/// Some scene in `names` is named `name`.
pub open spec fn has_scene(names: Seq<String>, name: Seq<char>) -> bool {
    exists|i: int| 0 <= i < names.len() && #[trigger] names[i]@ == name
}

/// `out` is the outcome of `cmd` given the scene list `names` and the current
/// program scene, if OBS reported one. A request for the list answers with
/// it; a request for the active scene answers with the current scene and
/// its 0-based position; a scene name or 1-based index that names a scene
/// switches to it, and any other name or index answers with the scene list
/// so that the controller can resync.
pub open spec fn is_command_outcome(
    cmd: BridgeCommand,
    names: Seq<String>,
    current: Option<String>,
    out: CommandOutcome,
) -> bool {
    match cmd {
        BridgeCommand::GetSceneList => out matches CommandOutcome::Respond(
            BridgeResponse::SceneList(v),
        ) && v@ == names,
        BridgeCommand::GetActiveScene => out matches CommandOutcome::Respond(
            BridgeResponse::ActiveScene { index, name },
        ) && name@ == current_scene_name(current) && index == scene_position(names, name@) as usize,
        BridgeCommand::SetSceneByName(name) => if has_scene(names, name@) {
            out == CommandOutcome::SwitchTo(name)
        } else {
            out matches CommandOutcome::Respond(BridgeResponse::SceneList(v)) && v@ == names
        },
        BridgeCommand::SetSceneByIndex(idx) => if 1 <= idx && idx - 1 < names.len() {
            out == CommandOutcome::SwitchTo(names[idx - 1])
        } else {
            out matches CommandOutcome::Respond(BridgeResponse::SceneList(v)) && v@ == names
        },
    }
}

/// Whether some scene in the list is named `name`.
pub fn scene_exists(names: &Vec<String>, name: &str) -> (r: bool)
    ensures
        r == has_scene(names@, name@),
{
    let mut i: usize = 0;
    while i < names.len()
        invariant
            i <= names.len(),
            forall|j: int| 0 <= j < i ==> names@[j]@ != name@,
        decreases names.len() - i,
    {
        if crate::text::str_equal(names[i].as_str(), name) {
            return true;
        }
        i = i + 1;
    }
    false
}

/// Handle a single bridge command, given the scene list that OBS returned
/// for it and the current program scene that came with the list.
pub fn handle_command(cmd: BridgeCommand, names: Vec<String>, current: Option<String>) -> (r:
    CommandOutcome)
    ensures
        is_command_outcome(cmd, names@, current, r),
{
    match cmd {
        BridgeCommand::GetSceneList => CommandOutcome::Respond(BridgeResponse::SceneList(names)),
        BridgeCommand::GetActiveScene => {
            let current_name = match current {
                Some(c) => c,
                None => String::new(),
            };
            let index = get_scene_index(&names, current_name.as_str());
            CommandOutcome::Respond(BridgeResponse::ActiveScene { index, name: current_name })
        },
        BridgeCommand::SetSceneByName(name) => {
            if scene_exists(&names, name.as_str()) {
                CommandOutcome::SwitchTo(name)
            } else {
                CommandOutcome::Respond(BridgeResponse::SceneList(names))
            }
        },
        BridgeCommand::SetSceneByIndex(idx) => {
            if idx < 1 {
                return CommandOutcome::Respond(BridgeResponse::SceneList(names));
            }
            let zero_idx = (idx - 1) as usize;
            if zero_idx < names.len() {
                let name = names[zero_idx].clone();
                CommandOutcome::SwitchTo(name)
            } else {
                CommandOutcome::Respond(BridgeResponse::SceneList(names))
            }
        },
    }
}

// ---------------------------------------------------------------------------
// Events and the scene-list poll
// ---------------------------------------------------------------------------

/// An event from OBS, as far as the bridge reads it.
#[derive(Debug)]
pub enum ObsEvent {
    /// The program scene changed to the named scene.
    ProgramSceneChanged(String),
    /// A scene was created.
    SceneCreated(String),
    /// A scene was removed.
    SceneRemoved(String),
    /// A scene was renamed.
    SceneRenamed { old_name: String, new_name: String },
    /// The scene list changed.
    SceneListChanged,
    /// Any other event.
    Other,
    /// The event stream ended (OBS went away).
    StreamEnded,
}

/// What the bridge does about an OBS event.
#[derive(Debug)]
pub enum EventAction {
    /// Set the status to `Connected` with this scene, fetch the scene list
    /// and send `active_scene_response` for it.
    AnnounceActiveScene(String),
    /// Fetch the scene list and push it with `SceneSync::push_scene_list`.
    PushSceneList,
    /// Nothing to do.
    Ignore,
    /// Leave the connection (it is closed).
    Disconnect,
}

/// The action for an event: a program scene change is announced, any change
/// to the set, names or order of scenes pushes the scene list, the end of
/// the stream ends the connection, and other events are ignored.
pub open spec fn event_action(ev: ObsEvent) -> EventAction {
    match ev {
        ObsEvent::ProgramSceneChanged(name) => EventAction::AnnounceActiveScene(name),
        ObsEvent::SceneCreated(_) => EventAction::PushSceneList,
        ObsEvent::SceneRemoved(_) => EventAction::PushSceneList,
        ObsEvent::SceneRenamed { .. } => EventAction::PushSceneList,
        ObsEvent::SceneListChanged => EventAction::PushSceneList,
        ObsEvent::Other => EventAction::Ignore,
        ObsEvent::StreamEnded => EventAction::Disconnect,
    }
}

/// Decide what to do about an OBS event.
pub fn react_to_event(ev: ObsEvent) -> (r: EventAction)
    ensures
        r == event_action(ev),
{
    match ev {
        ObsEvent::ProgramSceneChanged(name) => EventAction::AnnounceActiveScene(name),
        ObsEvent::SceneCreated(_) => EventAction::PushSceneList,
        ObsEvent::SceneRemoved(_) => EventAction::PushSceneList,
        ObsEvent::SceneRenamed { .. } => EventAction::PushSceneList,
        ObsEvent::SceneListChanged => EventAction::PushSceneList,
        ObsEvent::Other => EventAction::Ignore,
        ObsEvent::StreamEnded => EventAction::Disconnect,
    }
}

/// Two scene lists hold the same names in the same order.
pub open spec fn same_names(a: Seq<String>, b: Seq<String>) -> bool {
    &&& a.len() == b.len()
    &&& forall|i: int| 0 <= i < a.len() ==> #[trigger] a[i]@ == b[i]@
}

/// Whether a poll that finds `names` while the last known list is `cached`
/// pushes the list: only when it differs from a list that was already known.
pub open spec fn poll_pushes(cached: Seq<String>, names: Seq<String>) -> bool {
    !same_names(cached, names) && cached.len() > 0
}

/// Whether two scene lists hold the same names in the same order.
pub fn names_equal(a: &Vec<String>, b: &Vec<String>) -> (r: bool)
    ensures
        r == same_names(a@, b@),
{
    if a.len() != b.len() {
        return false;
    }
    let mut i: usize = 0;
    while i < a.len()
        invariant
            a.len() == b.len(),
            i <= a.len(),
            forall|j: int| 0 <= j < i ==> #[trigger] a@[j]@ == b@[j]@,
        decreases a.len() - i,
    {
        if a[i] != b[i] {
            return false;
        }
        i = i + 1;
    }
    true
}

/// A copy of a scene list.
pub fn copy_names(v: &Vec<String>) -> (r: Vec<String>)
    ensures
        r@ == v@,
{
    let mut r: Vec<String> = Vec::new();
    let mut i: usize = 0;
    while i < v.len()
        invariant
            i <= v.len(),
            r@ == v@.take(i as int),
        decreases v.len() - i,
    {
        r.push(v[i].clone());
        i = i + 1;
        assert(r@ =~= v@.take(i as int));
    }
    assert(v@.take(i as int) =~= v@);
    r
}

/// The last scene list that was sent to (or, on the first poll, found for)
/// the controllers, used to detect changes that OBS sends no event for, such
/// as reordering.
pub struct SceneSync {
    pub cached_scene_list: Vec<String>,
}

impl SceneSync {
    /// No scene list known yet.
    pub fn new() -> (r: SceneSync)
        ensures
            r.cached_scene_list@.len() == 0,
    {
        SceneSync { cached_scene_list: Vec::new() }
    }

    /// Push a freshly fetched scene list (after a scene was created, removed
    /// or renamed, or the list changed): it becomes the known list and is
    /// sent to the controllers.
    pub fn push_scene_list(&mut self, names: Vec<String>) -> (r: BridgeResponse)
        ensures
            final(self).cached_scene_list@ == names@,
            r matches BridgeResponse::SceneList(v) && v@ == names@,
    {
        self.cached_scene_list = copy_names(&names);
        BridgeResponse::SceneList(names)
    }

    /// The periodic poll found `names`. When they differ from the known list
    /// they become the known list, and they are sent to the controllers
    /// unless no list was known before (the first poll only primes it).
    pub fn on_poll(&mut self, names: Vec<String>) -> (r: Option<BridgeResponse>)
        ensures
            !same_names(old(self).cached_scene_list@, names@) ==> final(self).cached_scene_list@
                == names@,
            same_names(old(self).cached_scene_list@, names@) ==> final(self).cached_scene_list@
                == old(self).cached_scene_list@,
            r is Some <==> poll_pushes(old(self).cached_scene_list@, names@),
            r matches Some(BridgeResponse::SceneList(v)) ==> v@ == names@,
            r matches Some(resp) ==> resp is SceneList,
    {
        if !names_equal(&names, &self.cached_scene_list) {
            let was_known = self.cached_scene_list.len() > 0;
            self.cached_scene_list = copy_names(&names);
            if was_known {
                return Some(BridgeResponse::SceneList(names));
            }
            return None;
        }
        None
    }
}

// ---------------------------------------------------------------------------
// Connection errors
// ---------------------------------------------------------------------------

#[verifier::external_type_specification]
#[verifier::external_body]
pub struct ExAnyhowError(anyhow::Error);

/// The lowercase mapping of a string (`str::to_lowercase`, full Unicode).
pub uninterp spec fn unicode_lowercase(s: Seq<char>) -> Seq<char>;

/// Lowercases with `str::to_lowercase`.
/// Trusted: the result is that function's Unicode lowercase mapping of `s`,
/// which depends on `s` alone; the mapping itself is only named.
#[verifier::external_body]
fn to_lowercase(s: &str) -> (r: String)
    ensures
        r@ == unicode_lowercase(s@),
{
    s.to_lowercase()
}

/// The `Debug` rendering of an error (`format!("{e:?}")`), which for anyhow
/// holds the whole chain of causes. Nothing is stated of the text: it may
/// also hold a backtrace, which depends on the environment.
#[verifier::external_body]
fn error_debug_text(e: &anyhow::Error) -> String {
    format!("{e:?}")
}

/// Whether lowercased error text mentions a lost connection.
pub open spec fn mentions_connection_loss(lower: Seq<char>) -> bool {
    ||| has_substring(lower, "disconnect"@)
    ||| has_substring(lower, "connection"@)
    ||| has_substring(lower, "websocket"@)
    ||| has_substring(lower, "closed"@)
    ||| has_substring(lower, "broken pipe"@)
}

/// Whether the text of an error signals a lost connection: its lowercase
/// form mentions a disconnect, a connection, the WebSocket, a closed channel
/// or a broken pipe.
pub fn text_signals_connection_loss(text: &str) -> (r: bool)
    ensures
        r == mentions_connection_loss(unicode_lowercase(text@)),
{
    let lower = to_lowercase(text);
    let l = lower.as_str();
    contains_str(l, "disconnect") || contains_str(l, "connection") || contains_str(l, "websocket")
        || contains_str(l, "closed") || contains_str(l, "broken pipe")
}

/// Check if an error is likely a connection/disconnect error: the test of
/// `text_signals_connection_loss` on the error's `Debug` text. That text
/// (the error's message, its causes and, when the environment enables
/// backtrace capture, a backtrace) is not named, so the contract says that
/// the result is the connection-loss test of the lowercase form of some text,
/// the one that `error_debug_text` returned.
pub fn is_connection_error(e: &anyhow::Error) -> (r: bool)
    ensures
        exists|text: Seq<char>| r == mentions_connection_loss(#[trigger] unicode_lowercase(text)),
{
    let text = error_debug_text(e);
    let r = text_signals_connection_loss(text.as_str());
    assert(r == mentions_connection_loss(unicode_lowercase(text@)));
    r
}

// ---------------------------------------------------------------------------
// Session ends
// ---------------------------------------------------------------------------

/// The WebSocket close code with which obs-websocket rejects an `Identify`
/// whose authentication failed (`AuthenticationFailed`).
pub open spec fn authentication_failed_code() -> u16 {
    4009
}

/// The status after a connection to OBS ended or failed: a rejected
/// authentication is an error that says whether the password is missing or
/// wrong; anything else means OBS is disconnected and will be retried.
pub open spec fn connection_end_status(close_code: Option<u16>, password: Seq<char>) -> Seq<
    char,
> {
    if close_code == Some(authentication_failed_code()) {
        if password.len() == 0 {
            "OBS password not set"@
        } else {
            "OBS password incorrect"@
        }
    } else {
        Seq::empty()
    }
}

/// The status after a connection to OBS ended, given the WebSocket close code
/// of a failed handshake (`None` when the connection ended otherwise) and
/// the configured password.
pub fn status_after_connection(close_code: Option<u16>, password: &str) -> (r: AppStatus)
    ensures
        close_code == Some(authentication_failed_code()) ==> (r matches AppStatus::Error(m)
            && m@ == connection_end_status(close_code, password@)),
        close_code == Some(authentication_failed_code()) && password@.len() == 0 ==> (r matches AppStatus::Error(m)
            && m@ == "OBS password not set"@),
        close_code == Some(authentication_failed_code()) && password@.len() > 0 ==> (r matches AppStatus::Error(m)
            && m@ == "OBS password incorrect"@),
        close_code != Some(authentication_failed_code()) ==> r is ObsDisconnected,
{
    match close_code {
        Some(code) => {
            if code == 4009 {
                if password.unicode_len() == 0 {
                    AppStatus::Error(String::from_str("OBS password not set"))
                } else {
                    AppStatus::Error(String::from_str("OBS password incorrect"))
                }
            } else {
                AppStatus::ObsDisconnected
            }
        },
        None => AppStatus::ObsDisconnected,
    }
}

/// Something that happened while connected, other than an OBS event.
#[derive(Debug)]
pub enum SessionEvent {
    /// A command was carried out.
    CommandHandled,
    /// A command failed; `connection_error` tells whether the error signals a
    /// lost connection (`is_connection_error`).
    CommandFailed { connection_error: bool },
    /// The command channel closed (the OSC side is shutting down).
    CommandChannelClosed,
    /// The scene-list poll found the list (handled by `SceneSync::on_poll`).
    PollSucceeded,
    /// The scene-list poll failed; `connection_error` as above.
    PollFailed { connection_error: bool },
}

/// Whether the connection is kept after a session event: it is left when
/// the command channel closes or when a failure signals a lost connection.
pub open spec fn keeps_session(ev: SessionEvent) -> bool {
    match ev {
        SessionEvent::CommandHandled => true,
        SessionEvent::CommandFailed { connection_error } => !connection_error,
        SessionEvent::CommandChannelClosed => false,
        SessionEvent::PollSucceeded => true,
        SessionEvent::PollFailed { connection_error } => !connection_error,
    }
}

/// Decide whether to stay connected after a session event.
pub fn session_continues(ev: &SessionEvent) -> (r: bool)
    ensures
        r == keeps_session(*ev),
{
    match ev {
        SessionEvent::CommandHandled => true,
        SessionEvent::CommandFailed { connection_error } => !*connection_error,
        SessionEvent::CommandChannelClosed => false,
        SessionEvent::PollSucceeded => true,
        SessionEvent::PollFailed { connection_error } => !*connection_error,
    }
}

} // verus!
