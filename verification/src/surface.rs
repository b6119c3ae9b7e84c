//! The operations that the user interface invokes, as far as they are more
//! than a call into the launcher or the reaper: the wording of replies, the
//! health answer and the system description.

use vstd::prelude::*;
use crate::health::{alive, ConnectOutcome};
use crate::launcher::StartOutcome;

verus! {

/// Whether an outcome is reported as success. Finding a backend already
/// there is one; a shutdown under way or a failed spawn is not.
pub open spec fn is_success(outcome: StartOutcome) -> bool {
    match outcome {
        StartOutcome::AlreadyTracked => true,
        StartOutcome::AlreadyExternal => true,
        StartOutcome::Started => true,
        _ => false,
    }
}

/// The line reported for an outcome. `detail` is the launcher's own error
/// text and appears only after a failure to spawn.
pub open spec fn reply_text(outcome: StartOutcome, detail: Seq<char>) -> Seq<char> {
    match outcome {
        StartOutcome::ShuttingDown => "Application is shutting down"@,
        StartOutcome::AlreadyTracked => "Backend already running (tracked)"@,
        StartOutcome::AlreadyExternal => "Backend already running (external)"@,
        StartOutcome::Started => "Backend started"@,
        StartOutcome::LaunchFailed => "Failed to spawn backend: "@ + detail,
        StartOutcome::SidecarUnavailable => "Failed to create sidecar command: "@ + detail,
        StartOutcome::SpawnFailed => "Failed to spawn backend: "@ + detail,
    }
}

/// Words the result of a start attempt for the caller.
pub fn start_reply(outcome: StartOutcome, detail: &str) -> (reply: Result<String, String>)
    ensures
        reply is Ok <==> is_success(outcome),
        match reply {
            Ok(text) => text@ == reply_text(outcome, detail@),
            Err(text) => text@ == reply_text(outcome, detail@),
        },
{
    match outcome {
        StartOutcome::ShuttingDown => Err("Application is shutting down".to_string()),
        StartOutcome::AlreadyTracked => Ok("Backend already running (tracked)".to_string()),
        StartOutcome::AlreadyExternal => Ok("Backend already running (external)".to_string()),
        StartOutcome::Started => Ok("Backend started".to_string()),
        StartOutcome::SidecarUnavailable => {
            let mut text = "Failed to create sidecar command: ".to_string();
            text.append(detail);
            Err(text)
        },
        StartOutcome::LaunchFailed | StartOutcome::SpawnFailed => {
            let mut text = "Failed to spawn backend: ".to_string();
            text.append(detail);
            Err(text)
        },
    }
}

/// Answers a health request from the outcome of the probe.
pub fn check_backend_health(outcome: ConnectOutcome) -> (healthy: bool)
    ensures
        healthy == alive(outcome),
{
    crate::health::is_backend_running(outcome)
}

/// Something the user interface reports that may concern the backend.
#[derive(Clone, Copy, Debug, PartialEq, Eq, Structural)]
pub enum ShellEvent {
    /// The window was asked to close.
    CloseRequested,
    /// The window is gone.
    WindowDestroyed,
    /// The user chose to quit.
    QuitRequested,
    /// The operator hit the kill switch.
    KillSwitch,
    /// Anything else.
    Other,
}

/// What the supervisor does about an event of the user interface.
#[derive(Clone, Copy, Debug, PartialEq, Eq, Structural)]
pub enum Reaction {
    /// Nothing.
    Ignore,
    /// The graceful teardown.
    Shutdown,
    /// The graceful teardown, after which the process exits.
    ShutdownAndExit,
    /// The emergency teardown.
    Emergency,
}

/// The reaction owed to an event: closing and quitting shut the backend
/// down before the process may exit, and the kill switch is the emergency.
pub open spec fn reaction_to(event: ShellEvent) -> Reaction {
    match event {
        ShellEvent::CloseRequested => Reaction::Shutdown,
        ShellEvent::WindowDestroyed => Reaction::Shutdown,
        ShellEvent::QuitRequested => Reaction::ShutdownAndExit,
        ShellEvent::KillSwitch => Reaction::Emergency,
        ShellEvent::Other => Reaction::Ignore,
    }
}

/// Decides what to do about an event of the user interface.
pub fn on_shell_event(event: ShellEvent) -> (reaction: Reaction)
    ensures
        reaction == reaction_to(event),
{
    match event {
        ShellEvent::CloseRequested => Reaction::Shutdown,
        ShellEvent::WindowDestroyed => Reaction::Shutdown,
        ShellEvent::QuitRequested => Reaction::ShutdownAndExit,
        ShellEvent::KillSwitch => Reaction::Emergency,
        ShellEvent::Other => Reaction::Ignore,
    }
}

/// A JSON value of `serde_json`.
#[verifier::external_type_specification]
#[verifier::external_body]
pub struct ExJsonValue(serde_json::Value);

/// A JSON object of `serde_json`.
#[verifier::external_type_specification]
#[verifier::external_body]
#[verifier::reject_recursive_types(K)]
#[verifier::reject_recursive_types(V)]
pub struct ExJsonObject<K, V>(serde_json::Map<K, V>);

/// A JSON object as `serde_json` builds it.
pub type JsonObject = serde_json::Map<String, serde_json::Value>;

/// What is known of a member's value: its text if it is a string, nothing
/// otherwise.
pub type Member = Option<Seq<char>>;

/// The members of a JSON object: every key that it holds, with the text of
/// the value where the value is a string.
pub uninterp spec fn object_members(object: JsonObject) -> Map<Seq<char>, Member>;

/// The members of the object that a JSON value is.
pub uninterp spec fn value_members(value: serde_json::Value) -> Map<Seq<char>, Member>;

/// No member at all.
pub open spec fn no_members() -> Map<Seq<char>, Member> {
    Map::empty()
}

/// `serde_json::Map::new`: an object without members.
#[verifier::external_body]
fn new_object() -> (object: JsonObject)
    ensures
        object_members(object) == no_members(),
{
    serde_json::Map::new()
}

/// `serde_json::Map::insert` with a `serde_json::Value::String`: the object
/// then holds the string under the key, in place of whatever the key held,
/// and its other members as before.
#[verifier::external_body]
fn put_string(object: &mut JsonObject, key: &str, value: &str)
    ensures
        object_members(*final(object)) == object_members(*old(object)).insert(
            key@,
            Some(value@),
        ),
{
    object.insert(key.to_string(), serde_json::Value::String(value.to_string()));
}

/// `serde_json::Value::Object`: the value that is the given object.
#[verifier::external_body]
fn object_value(object: JsonObject) -> (value: serde_json::Value)
    ensures
        value_members(value) == object_members(object),
{
    serde_json::Value::Object(object)
}

/// What the system description holds: three strings under fixed keys, and
/// nothing else.
pub open spec fn system_description(os: Seq<char>, arch: Seq<char>, version: Seq<char>) -> Map<
    Seq<char>,
    Member,
> {
    no_members().insert("os"@, Some(os)).insert("arch"@, Some(arch)).insert(
        "version"@,
        Some(version),
    )
}

/// Describes the system as a JSON object: operating system, processor
/// architecture and application version, as the build knows them.
pub fn get_system_info(os: &str, arch: &str, version: &str) -> (info: serde_json::Value)
    ensures
        value_members(info) == system_description(os@, arch@, version@),
{
    let mut object = new_object();
    put_string(&mut object, "os", os);
    put_string(&mut object, "arch", arch);
    put_string(&mut object, "version", version);
    object_value(object)
}

} // verus!
