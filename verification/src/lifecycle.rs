//! What the application does on the events of its main loop and its windows, where it serves
//! media from, and its logging default.

use vstd::prelude::*;

verus! {

/// The events of the main loop that the application tells apart.
#[derive(Clone, Copy, Debug, PartialEq, Eq, Structural)]
pub enum RunEvent {
    /// The event loop is live.
    Ready,
    /// The user opened the application again from the dock or the file manager.
    Reopen,
    /// Any other event.
    Other,
}

/// What an event of the main loop can ask for.
#[derive(Clone, Copy, Debug, PartialEq, Eq, Structural)]
pub enum RunAction {
    /// Show the recorder popover.
    ShowRecorder,
    /// Schedule the check for updates that follows a start.
    CheckForUpdates,
}

/// The actions that an event of the main loop asks for, in the order they are performed.
pub open spec fn run_actions(event: RunEvent) -> Seq<RunAction> {
    match event {
        RunEvent::Ready => seq![RunAction::ShowRecorder, RunAction::CheckForUpdates],
        RunEvent::Reopen => seq![RunAction::ShowRecorder],
        RunEvent::Other => Seq::empty(),
    }
}

/// Decides what an event of the main loop does: the actions to perform, one after the other.
/// All of them are owed, whatever comes of the ones before. Launching, or reopening, the
/// application goes straight to the recorder: clicking it means that the user wants to record.
/// Only a launch checks for updates, once the recorder was shown or failed to show.
pub fn on_run_event(event: RunEvent) -> (actions: Vec<RunAction>)
    ensures
        actions@ == run_actions(event),
{
    let mut actions: Vec<RunAction> = Vec::new();
    match event {
        RunEvent::Ready => {
            actions.push(RunAction::ShowRecorder);
            actions.push(RunAction::CheckForUpdates);
        },
        RunEvent::Reopen => {
            actions.push(RunAction::ShowRecorder);
        },
        RunEvent::Other => {},
    }
    assert(actions@ =~= run_actions(event));
    actions
}

/// The recorder is shown on a launch and on a reopen, once and before anything else; the check
/// for updates follows on a launch only, once; nothing else is ever asked for.
pub proof fn law_run_actions(event: RunEvent, actions: Vec<RunAction>)
    requires
        call_ensures(on_run_event, (event,), actions),
    ensures
        actions@.len() > 0 <==> event == RunEvent::Ready || event == RunEvent::Reopen,
        actions@.len() > 0 ==> actions@[0] == RunAction::ShowRecorder,
        actions@.len() > 1 <==> event == RunEvent::Ready,
        actions@.len() > 1 ==> actions@[1] == RunAction::CheckForUpdates,
        actions@.len() <= 2,
{
}

/// The events of a window that the application tells apart.
#[derive(Clone, Copy, Debug, PartialEq, Eq, Structural)]
pub enum WindowEvent {
    /// The window is gone.
    Destroyed,
    /// Any other event.
    Other,
}

/// Whether an event of a window asks for the activation policy to be refreshed: only a window
/// that is gone can change it.
pub fn on_window_event(event: WindowEvent) -> (refresh: bool)
    ensures
        refresh <==> event is Destroyed,
{
    match event {
        WindowEvent::Destroyed => true,
        WindowEvent::Other => false,
    }
}

/// Where local media is served from.
#[derive(Clone, Copy, Debug, PartialEq, Eq, Structural)]
pub enum MediaRoot {
    /// The application's data directory.
    AppData,
    /// The directory [`MEDIA_FALLBACK_DIR`] under the system's temporary directory.
    Temporary,
}

/// The directory that stands in for the data directory, under the system's temporary one.
pub const MEDIA_FALLBACK_DIR: &'static str = "Capptivo";

/// Decides where local media is served from, given whether the data directory was found.
pub fn media_root(app_data_found: bool) -> (root: MediaRoot)
    ensures
        root is AppData <==> app_data_found,
        root is Temporary <==> !app_data_found,
{
    if app_data_found {
        MediaRoot::AppData
    } else {
        MediaRoot::Temporary
    }
}

/// What is logged where the environment does not say.
pub const DEFAULT_LOG_FILTER: &'static str = "info,desktop_lib=debug";

/// The filter of the console log: what the environment asks for, or the default.
pub fn console_log_filter(from_env: Option<String>) -> (filter: String)
    ensures
        filter@ == (match from_env {
            Some(asked) => asked@,
            None => DEFAULT_LOG_FILTER@,
        }),
{
    match from_env {
        Some(asked) => asked,
        None => DEFAULT_LOG_FILTER.to_string(),
    }
}

/// The console log follows the environment wherever that says something, whatever it says, and
/// the default otherwise.
pub proof fn law_environment_decides_log_filter(from_env: Option<String>, filter: String)
    requires
        call_ensures(console_log_filter, (from_env,), filter),
    ensures
        from_env matches Some(asked) ==> filter@ == asked@,
        from_env is None ==> filter@ == "info,desktop_lib=debug"@,
{
}

} // verus!
