//! Machine-readable recorder status for automation drivers.
//!
//! The recorder bar and tray are excluded from screen capture, so a script that drives the
//! application through the `--action` channel cannot see them. The recorder's live state is
//! written to a small JSON file that the driver can poll.
//!
//! Poll contract:
//! - after `--action start`, wait for `status == "recording"` before acting;
//! - after `--action stop`, wait for `status == "idle"` and `screenPath` non-null: that pair
//!   means the take is finalized on disk at `screenPath`. `screenPath` is null while recording
//!   and stays null on a discarded or failed take, so it doubles as the "file is ready" signal.

use vstd::prelude::*;
use crate::clock::read_clock;
use crate::json::{insert_member, new_object, object_text};
use crate::publish::{StateWrite, WriteStep};

verus! {

/// The states of the recorder, as far as a status tells them apart.
#[derive(Clone, Copy, Debug, PartialEq, Eq, Structural)]
pub enum RecorderState {
    Idle,
    Countdown,
    Recording,
    Paused,
    Finalizing,
    Error,
}

/// The stable status string of a state.
pub open spec fn status_name(state: RecorderState) -> Seq<char> {
    match state {
        RecorderState::Idle => "idle"@,
        RecorderState::Countdown => "countdown"@,
        RecorderState::Recording => "recording"@,
        RecorderState::Paused => "paused"@,
        RecorderState::Finalizing => "finalizing"@,
        RecorderState::Error => "error"@,
    }
}

/// Stable status string for the state machine (kept in sync with the discriminants that the
/// user interface uses).
pub fn status_str(state: &RecorderState) -> (status: &'static str)
    ensures
        status@ == status_name(*state),
{
    match state {
        RecorderState::Idle => "idle",
        RecorderState::Countdown => "countdown",
        RecorderState::Recording => "recording",
        RecorderState::Paused => "paused",
        RecorderState::Finalizing => "finalizing",
        RecorderState::Error => "error",
    }
}

/// A recording project.
pub struct Project {
    pub id: String,
}

/// The part of the application's state that the status file shows.
pub struct AppState {
    /// The project being captured, if any.
    pub current_project: Option<Project>,
}

/// The characters of an optional string.
pub open spec fn opt_view(s: Option<String>) -> Option<Seq<char>> {
    match s {
        Some(s) => Some(s@),
        None => None,
    }
}

/// The id of the project being captured: none where the application has no state yet, or
/// captures no project.
pub open spec fn project_id_of(app: Option<&AppState>) -> Option<Seq<char>> {
    match app {
        Some(state) => match state.current_project {
            Some(project) => Some(project.id@),
            None => None,
        },
        None => None,
    }
}

/// Project id currently being captured, if any.
pub fn current_project_id(app: Option<&AppState>) -> (id: Option<String>)
    ensures
        opt_view(id) == project_id_of(app),
{
    match app {
        Some(state) => match &state.current_project {
            Some(project) => Some(project.id.clone()),
            None => None,
        },
        None => None,
    }
}

/// What a document of the status file says.
pub struct StateFields {
    pub status: Seq<char>,
    pub project_id: Option<Seq<char>>,
    pub screen_path: Option<Seq<char>>,
    pub updated_at: Seq<char>,
}

/// The document that says `fields`.
pub open spec fn state_text(fields: StateFields) -> Seq<char> {
    let end = ",\"updatedAt\":"@ + (crate::json::json_string(fields.updated_at) + "}"@);
    let status = ",\"status\":"@ + (crate::json::json_string(fields.status) + end);
    let path = ",\"screenPath\":"@ + (crate::json::json_optional(fields.screen_path) + status);
    "{\"projectId\":"@ + (crate::json::json_optional(fields.project_id) + path)
}

/// The document with this status, project and path, of the moment `updated_at`.
pub fn render_state(
    status: &str,
    project_id: Option<String>,
    screen_path: Option<String>,
    updated_at: String,
) -> (text: String)
    ensures
        text@ == state_text(
            (StateFields {
                status: status@,
                project_id: opt_view(project_id),
                screen_path: opt_view(screen_path),
                updated_at: updated_at@,
            }),
        ),
{
    let ghost fields = StateFields {
        status: status@,
        project_id: opt_view(project_id),
        screen_path: opt_view(screen_path),
        updated_at: updated_at@,
    };
    let mut object = new_object();
    insert_member(&mut object, "status".to_string(), Some(status.to_string()));
    insert_member(&mut object, "projectId".to_string(), project_id);
    insert_member(&mut object, "screenPath".to_string(), screen_path);
    insert_member(&mut object, "updatedAt".to_string(), Some(updated_at));
    proof {
        lemma_keys();
        lemma_members(fields, crate::json::object_members(object));
    }
    object_text(object)
}

/// What a write of the status file is to say.
pub struct StateRequest {
    pub status: Seq<char>,
    pub project_id: Option<Seq<char>>,
    pub screen_path: Option<Seq<char>>,
}

/// What the document of a request says when the clock read `updated_at`.
pub open spec fn fields_at(request: StateRequest, updated_at: Seq<char>) -> StateFields {
    StateFields {
        status: request.status,
        project_id: request.project_id,
        screen_path: request.screen_path,
        updated_at,
    }
}

/// Whether `text` is a document of the request, of a moment that the clock gave.
pub open spec fn is_state_document(text: Seq<char>, request: StateRequest) -> bool {
    exists|updated_at: Seq<char>| #[trigger]
        crate::clock::is_clock_reading(updated_at) && text == state_text(
            fields_at(request, updated_at),
        )
}

/// The document with this status, project and path, of the present moment.
pub fn document_now(
    status: &str,
    project_id: Option<String>,
    screen_path: Option<String>,
) -> (text: String)
    ensures
        is_state_document(
            text@,
            (StateRequest {
                status: status@,
                project_id: opt_view(project_id),
                screen_path: opt_view(screen_path),
            }),
        ),
{
    render_state(status, project_id, screen_path, read_clock())
}

/// Starts a write of the status file. `screen_path` is set only once a take is finalized on
/// disk, so a poller can treat `status == "idle" && screenPath != null` as "recording complete,
/// file ready".
///
/// Best-effort: the write passes over any failure, the application must never fall over
/// because it couldn't write a status file.
pub fn write_state(
    status: &str,
    project_id: Option<String>,
    screen_path: Option<String>,
) -> (write: StateWrite)
    ensures
        write.next() == WriteStep::ResolveDir,
        write.request() == (StateRequest {
            status: status@,
            project_id: opt_view(project_id),
            screen_path: opt_view(screen_path),
        }),
        write.text() == Seq::<char>::empty(),
{
    StateWrite::begin(status.to_string(), project_id, screen_path)
}

/// What a state-machine transition has the status file say: no finalized path is known.
pub open spec fn transition_request(app: Option<&AppState>, state: RecorderState) -> StateRequest {
    StateRequest { status: status_name(state), project_id: project_id_of(app), screen_path: None }
}

/// Starts a write of the status file from a state-machine transition. No finalized path is
/// known here, so `screenPath` is cleared; that is also what resets a stale path when a new
/// take starts.
pub fn write_from_state(app: Option<&AppState>, state: &RecorderState) -> (write: StateWrite)
    ensures
        write.next() == WriteStep::ResolveDir,
        write.request() == transition_request(app, *state),
        write.text() == Seq::<char>::empty(),
{
    write_state(status_str(state), current_project_id(app), None)
}

/// What tells a poller that a take is complete and its file ready.
pub open spec fn signals_ready(fields: StateFields) -> bool {
    fields.status == "idle"@ && fields.screen_path is Some
}

/// Each state has a status string of its own.
pub proof fn law_status_names_distinct(a: RecorderState, b: RecorderState)
    ensures
        status_name(a) == status_name(b) ==> a == b,
{
    reveal_strlit("idle");
    reveal_strlit("countdown");
    reveal_strlit("recording");
    reveal_strlit("paused");
    reveal_strlit("finalizing");
    reveal_strlit("error");
    assert(status_name(a) == status_name(b) ==> status_name(a)[0] == status_name(b)[0]);
}

/// A document can be read in one way only: two documents with the same text say the same.
pub proof fn law_document_decodable(a: StateFields, b: StateFields)
    requires
        state_text(a) == state_text(b),
    ensures
        a == b,
{
    let end_a = crate::json::json_string(a.updated_at) + "}"@;
    let end_b = crate::json::json_string(b.updated_at) + "}"@;
    let status_a = crate::json::json_string(a.status) + (",\"updatedAt\":"@ + end_a);
    let status_b = crate::json::json_string(b.status) + (",\"updatedAt\":"@ + end_b);
    let path_a = crate::json::json_optional(a.screen_path) + (",\"status\":"@ + status_a);
    let path_b = crate::json::json_optional(b.screen_path) + (",\"status\":"@ + status_b);
    let project_a = crate::json::json_optional(a.project_id) + (",\"screenPath\":"@ + path_a);
    let project_b = crate::json::json_optional(b.project_id) + (",\"screenPath\":"@ + path_b);
    crate::json::lemma_cancel("{\"projectId\":"@, project_a, project_b);
    crate::json::law_optional_decodable(
        a.project_id,
        b.project_id,
        ",\"screenPath\":"@ + path_a,
        ",\"screenPath\":"@ + path_b,
    );
    crate::json::lemma_cancel(",\"screenPath\":"@, path_a, path_b);
    crate::json::law_optional_decodable(
        a.screen_path,
        b.screen_path,
        ",\"status\":"@ + status_a,
        ",\"status\":"@ + status_b,
    );
    crate::json::lemma_cancel(",\"status\":"@, status_a, status_b);
    crate::json::law_optional_decodable(
        Some(a.status),
        Some(b.status),
        ",\"updatedAt\":"@ + end_a,
        ",\"updatedAt\":"@ + end_b,
    );
    crate::json::lemma_cancel(",\"updatedAt\":"@, end_a, end_b);
    crate::json::law_optional_decodable(Some(a.updated_at), Some(b.updated_at), "}"@, "}"@);
}

/// A reader of a document finds in it exactly the status, the project and the path that were
/// asked for, and a moment that the clock gave.
pub proof fn law_reader_finds_what_was_written(
    text: Seq<char>,
    request: StateRequest,
    read: StateFields,
)
    requires
        is_state_document(text, request),
        text == state_text(read),
    ensures
        read.status == request.status,
        read.project_id == request.project_id,
        read.screen_path == request.screen_path,
        crate::clock::is_clock_reading(read.updated_at),
        crate::clock::is_utc_timestamp(read.updated_at),
{
    let updated_at = choose|updated_at: Seq<char>| #[trigger]
        crate::clock::is_clock_reading(updated_at) && text == state_text(
            fields_at(request, updated_at),
        );
    law_document_decodable(read, fields_at(request, updated_at));
    crate::clock::law_readings_are_utc(updated_at);
}

/// A document of a state-machine transition shows the state it was written for, and no path:
/// it reads "recording" only while recording, and it never signals that a file is ready.
pub proof fn law_transition_documents(
    text: Seq<char>,
    app: Option<&AppState>,
    state: RecorderState,
    read: StateFields,
)
    requires
        is_state_document(text, transition_request(app, state)),
        text == state_text(read),
    ensures
        forall|other: RecorderState|
            read.status == #[trigger] status_name(other) <==> other == state,
        read.project_id == project_id_of(app),
        read.screen_path is None,
        !signals_ready(read),
{
    law_reader_finds_what_was_written(text, transition_request(app, state), read);
    assert forall|other: RecorderState|
        read.status == #[trigger] status_name(other) <==> other == state by {
        law_status_names_distinct(other, state);
    }
}

/// A document signals that a file is ready if and only if it was asked for with the status of
/// the idle state and a path, and it then names that path.
pub proof fn law_ready_means_finalized(text: Seq<char>, request: StateRequest, read: StateFields)
    requires
        is_state_document(text, request),
        text == state_text(read),
    ensures
        signals_ready(read) <==> request.status == status_name(RecorderState::Idle)
            && request.screen_path is Some,
        read.screen_path == request.screen_path,
{
    law_reader_finds_what_was_written(text, request, read);
}

/// A transition's write that is published resets a stale path: whatever the status file held, a
/// reader then finds no path in it. It is published where every operation succeeds, creating
/// the directory aside.
pub proof fn law_transition_resets_stale_path(
    text: Seq<char>,
    app: Option<&AppState>,
    state: RecorderState,
    steps: Seq<WriteStep>,
    outcomes: Seq<bool>,
    disks: Seq<crate::publish::Disk>,
    read: StateFields,
)
    requires
        is_state_document(text, transition_request(app, state)),
        crate::publish::is_run(text, steps, outcomes, disks),
        forall|i: int|
            0 <= i < outcomes.len() && steps[i] !is CreateDir ==> #[trigger] outcomes[i],
        steps.last() == WriteStep::Finished,
        disks.last().target == Some(state_text(read)),
    ensures
        read.status == status_name(state),
        read.screen_path is None,
{
    crate::publish::law_successful_write_published(text, steps, outcomes, disks);
    law_reader_finds_what_was_written(text, transition_request(app, state), read);
}

/// The status string of each state.
pub proof fn law_status_strings(state: RecorderState, status: &'static str)
    requires
        call_ensures(status_str, (&state,), status),
    ensures
        status@ == status_name(state),
        state == RecorderState::Idle ==> status@ == "idle"@,
        state == RecorderState::Countdown ==> status@ == "countdown"@,
        state == RecorderState::Recording ==> status@ == "recording"@,
        state == RecorderState::Paused ==> status@ == "paused"@,
        state == RecorderState::Finalizing ==> status@ == "finalizing"@,
        state == RecorderState::Error ==> status@ == "error"@,
{
}

/// A value that is given is shown in full, and only an absent one as absent.
pub proof fn law_values_shown_in_full(value: Option<String>)
    ensures
        value matches Some(s) ==> opt_view(value) == Some(s@),
        value is None <==> opt_view(value) is None,
{
}

/// The id that is reported is the whole id of the project being captured, and none is reported
/// only where there is no state or no project.
pub proof fn law_project_id_in_full(app: Option<&AppState>, id: Option<String>)
    requires
        call_ensures(current_project_id, (app,), id),
    ensures
        opt_view(id) == project_id_of(app),
        id is Some <==> app is Some && app->0.current_project is Some,
        id matches Some(shown) ==> shown@ == app->0.current_project->0.id@,
{
}

/// The text of a document: the four members in ascending order of their keys, each value in
/// full.
pub proof fn law_document_text(fields: StateFields)
    ensures
        state_text(fields) == "{\"projectId\":"@ + (match fields.project_id {
            Some(id) => "\""@ + crate::json::json_escaped(id) + "\""@,
            None => "null"@,
        }) + ",\"screenPath\":"@ + (match fields.screen_path {
            Some(path) => "\""@ + crate::json::json_escaped(path) + "\""@,
            None => "null"@,
        }) + ",\"status\":"@ + ("\""@ + crate::json::json_escaped(fields.status) + "\""@)
            + ",\"updatedAt\":"@ + ("\""@ + crate::json::json_escaped(fields.updated_at) + "\""@)
            + "}"@,
{
    let p = match fields.project_id {
        Some(id) => "\""@ + crate::json::json_escaped(id) + "\""@,
        None => "null"@,
    };
    let s = match fields.screen_path {
        Some(path) => "\""@ + crate::json::json_escaped(path) + "\""@,
        None => "null"@,
    };
    if let Some(id) = fields.project_id {
        crate::json::law_values(id);
    }
    if let Some(path) = fields.screen_path {
        crate::json::law_values(path);
    }
    crate::json::law_values(fields.status);
    crate::json::law_values(fields.updated_at);
    lemma_flatten(
        "{\"projectId\":"@,
        p,
        ",\"screenPath\":"@,
        s,
        ",\"status\":"@,
        "\""@ + crate::json::json_escaped(fields.status) + "\""@,
        ",\"updatedAt\":"@,
        "\""@ + crate::json::json_escaped(fields.updated_at) + "\""@,
        "}"@,
    );
}

/// A rendered document says exactly what it was given: each value in full, null for one that
/// is absent.
pub proof fn law_rendered_document(
    status: &str,
    project_id: Option<String>,
    screen_path: Option<String>,
    updated_at: String,
    text: String,
)
    requires
        call_ensures(render_state, (status, project_id, screen_path, updated_at), text),
    ensures
        exists|read: StateFields| {
            &&& #[trigger] state_text(read) == text@
            &&& read.status == status@
            &&& project_id matches Some(s) ==> read.project_id == Some(s@)
            &&& project_id is None ==> read.project_id is None
            &&& screen_path matches Some(s) ==> read.screen_path == Some(s@)
            &&& screen_path is None ==> read.screen_path is None
            &&& read.updated_at == updated_at@
        },
{
    let fields = StateFields {
        status: status@,
        project_id: opt_view(project_id),
        screen_path: opt_view(screen_path),
        updated_at: updated_at@,
    };
    assert(state_text(fields) == text@);
}

/// A document of the present moment says exactly what it was given, and a moment that the
/// clock gave.
pub proof fn law_document_of_now(
    status: &str,
    project_id: Option<String>,
    screen_path: Option<String>,
    text: String,
)
    requires
        call_ensures(document_now, (status, project_id, screen_path), text),
    ensures
        exists|read: StateFields| {
            &&& #[trigger] state_text(read) == text@
            &&& read.status == status@
            &&& project_id matches Some(s) ==> read.project_id == Some(s@)
            &&& project_id is None ==> read.project_id is None
            &&& screen_path matches Some(s) ==> read.screen_path == Some(s@)
            &&& screen_path is None ==> read.screen_path is None
            &&& crate::clock::is_clock_reading(read.updated_at)
            &&& crate::clock::is_utc_timestamp(read.updated_at)
        },
{
    let request = StateRequest {
        status: status@,
        project_id: opt_view(project_id),
        screen_path: opt_view(screen_path),
    };
    law_documents_of_a_request(text@, request);
}

/// The documents of a request are exactly the texts that say its status, its project and its
/// path, and a moment that the clock gave: a reader finds these in each of them.
pub proof fn law_documents_of_a_request(text: Seq<char>, request: StateRequest)
    ensures
        is_state_document(text, request) <==> exists|read: StateFields| {
            &&& #[trigger] state_text(read) == text
            &&& read.status == request.status
            &&& read.project_id == request.project_id
            &&& read.screen_path == request.screen_path
            &&& crate::clock::is_clock_reading(read.updated_at)
            &&& crate::clock::is_utc_timestamp(read.updated_at)
        },
{
    if is_state_document(text, request) {
        let updated_at = choose|updated_at: Seq<char>| #[trigger]
            crate::clock::is_clock_reading(updated_at) && text == state_text(
                fields_at(request, updated_at),
            );
        crate::clock::law_readings_are_utc(updated_at);
        assert(state_text(fields_at(request, updated_at)) == text);
    } else {
        assert forall|read: StateFields| #[trigger]
            state_text(read) == text && read.status == request.status && read.project_id
                == request.project_id && read.screen_path == request.screen_path implies
            !crate::clock::is_clock_reading(read.updated_at) by {
            assert(read == fields_at(request, read.updated_at));
        }
    }
}

/// What a write started by `write_state` puts into the files is a document that a reader can
/// read, with exactly the status, the project and the path that it was started with: a take
/// announced as idle with a path is seen to be ready.
pub proof fn law_announced_document(
    status: &str,
    project_id: Option<String>,
    screen_path: Option<String>,
    started: StateWrite,
    under_way: &StateWrite,
    text: &str,
)
    requires
        call_ensures(write_state, (status, project_id, screen_path), started),
        under_way.request() == started.request(),
        crate::publish::works_on_files(under_way.next()),
        call_ensures(StateWrite::body, (under_way,), text),
    ensures
        exists|read: StateFields| {
            &&& #[trigger] state_text(read) == text@
            &&& read.status == status@
            &&& project_id matches Some(s) ==> read.project_id == Some(s@)
            &&& project_id is None ==> read.project_id is None
            &&& screen_path matches Some(s) ==> read.screen_path == Some(s@)
            &&& screen_path is None ==> read.screen_path is None
            &&& crate::clock::is_utc_timestamp(read.updated_at)
            &&& signals_ready(read) <==> status@ == "idle"@ && screen_path is Some
        },
{
    law_documents_of_a_request(text@, under_way.request());
}

/// What a write started by a state-machine transition puts into the files is a document that a
/// reader can read: it shows the state's status string, the whole id of the project being
/// captured, if there is one, and no path.
pub proof fn law_transition_document(
    app: Option<&AppState>,
    state: RecorderState,
    status: &'static str,
    started: StateWrite,
    under_way: &StateWrite,
    text: &str,
)
    requires
        call_ensures(status_str, (&state,), status),
        call_ensures(write_from_state, (app, &state), started),
        under_way.request() == started.request(),
        crate::publish::works_on_files(under_way.next()),
        call_ensures(StateWrite::body, (under_way,), text),
    ensures
        exists|read: StateFields| {
            &&& #[trigger] state_text(read) == text@
            &&& read.status == status@
            &&& read.project_id is Some <==> app is Some && app->0.current_project is Some
            &&& read.project_id is Some ==> read.project_id->0 == app->0.current_project->0.id@
            &&& read.screen_path is None
            &&& crate::clock::is_utc_timestamp(read.updated_at)
        },
{
    law_documents_of_a_request(text@, under_way.request());
}

/// A write starts with finding the directory, and has no document before that.
pub proof fn law_writes_start_without_document(
    status: &str,
    project_id: Option<String>,
    screen_path: Option<String>,
    started: StateWrite,
    app: Option<&AppState>,
    state: RecorderState,
    transition: StateWrite,
)
    requires
        call_ensures(write_state, (status, project_id, screen_path), started),
        call_ensures(write_from_state, (app, &state), transition),
    ensures
        started.next() == WriteStep::ResolveDir && started.text().len() == 0,
        transition.next() == WriteStep::ResolveDir && transition.text().len() == 0,
{
}

/// Documents of transitions tell states and projects apart: where two of them have the same
/// text, they were written for the same state and the same project.
pub proof fn law_transition_documents_tell_apart(
    text: Seq<char>,
    app_a: Option<&AppState>,
    state_a: RecorderState,
    app_b: Option<&AppState>,
    state_b: RecorderState,
)
    requires
        is_state_document(text, transition_request(app_a, state_a)),
        is_state_document(text, transition_request(app_b, state_b)),
    ensures
        state_a == state_b,
        app_a is Some && app_a->0.current_project is Some <==> app_b is Some
            && app_b->0.current_project is Some,
        app_a is Some && app_a->0.current_project is Some ==> app_a->0.current_project->0.id@
            == app_b->0.current_project->0.id@,
{
    law_documents_of_a_request(text, transition_request(app_a, state_a));
    let read = choose|read: StateFields| {
        &&& #[trigger] state_text(read) == text
        &&& read.status == status_name(state_a)
        &&& read.project_id == project_id_of(app_a)
    };
    law_reader_finds_what_was_written(text, transition_request(app_a, state_a), read);
    law_reader_finds_what_was_written(text, transition_request(app_b, state_b), read);
    law_status_names_distinct(state_a, state_b);
}

/// The signal that a file is ready is the pair of the status "idle" and a path.
pub proof fn law_ready_signal(fields: StateFields)
    ensures
        signals_ready(fields) <==> fields.status == "idle"@ && fields.screen_path is Some,
{
}

/// Brackets of a concatenation of nine parts, moved.
proof fn lemma_flatten(
    a: Seq<char>,
    b: Seq<char>,
    c: Seq<char>,
    d: Seq<char>,
    e: Seq<char>,
    f: Seq<char>,
    g: Seq<char>,
    h: Seq<char>,
    i: Seq<char>,
)
    ensures
        a + (b + (c + (d + (e + (f + (g + (h + i))))))) == a + b + c + d + e + f + g + h + i,
{
    assert(a + (b + (c + (d + (e + (f + (g + (h + i))))))) =~= a + b + c + d + e + f + g + h + i);
}

/// The keys of a document in ascending order.
spec fn state_keys() -> Seq<Seq<char>> {
    seq!["projectId"@, "screenPath"@, "status"@, "updatedAt"@]
}

/// The keys are in ascending order, and the constant parts of a document are made of them.
proof fn lemma_keys()
    ensures
        forall|i: int, j: int|
            0 <= i < j < 4 ==> crate::json::precedes(
                #[trigger] state_keys()[i],
                #[trigger] state_keys()[j],
            ),
        "projectId"@ != "screenPath"@,
        "projectId"@ != "status"@,
        "projectId"@ != "updatedAt"@,
        "screenPath"@ != "status"@,
        "screenPath"@ != "updatedAt"@,
        "status"@ != "updatedAt"@,
        "{\"projectId\":"@ == seq!['{'] + crate::json::json_string("projectId"@) + seq![':'],
        ",\"screenPath\":"@ == seq![','] + crate::json::json_string("screenPath"@) + seq![':'],
        ",\"status\":"@ == seq![','] + crate::json::json_string("status"@) + seq![':'],
        ",\"updatedAt\":"@ == seq![','] + crate::json::json_string("updatedAt"@) + seq![':'],
        "}"@ == seq!['}'],
{
    reveal_strlit("projectId");
    reveal_strlit("screenPath");
    reveal_strlit("status");
    reveal_strlit("updatedAt");
    reveal_strlit("{\"projectId\":");
    reveal_strlit(",\"screenPath\":");
    reveal_strlit(",\"status\":");
    reveal_strlit(",\"updatedAt\":");
    reveal_strlit("}");
    let keys = state_keys();
    assert(crate::json::differs_at(keys[0], keys[1], 0));
    assert(crate::json::differs_at(keys[0], keys[2], 0));
    assert(crate::json::differs_at(keys[0], keys[3], 0));
    assert(crate::json::differs_at(keys[1], keys[2], 1));
    assert(crate::json::differs_at(keys[1], keys[3], 0));
    assert(crate::json::differs_at(keys[2], keys[3], 0));
    assert("projectId"@[0] == 'p' && "screenPath"@[0] == 's' && "screenPath"@[1] == 'c');
    assert("status"@[0] == 's' && "status"@[1] == 't' && "updatedAt"@[0] == 'u');
    crate::json::lemma_plain_string("projectId"@);
    crate::json::lemma_plain_string("screenPath"@);
    crate::json::lemma_plain_string("status"@);
    crate::json::lemma_plain_string("updatedAt"@);
    assert("{\"projectId\":"@ =~= seq!['{'] + (seq!['"'] + "projectId"@ + seq!['"']) + seq![':']);
    assert(",\"screenPath\":"@ =~= seq![','] + (seq!['"'] + "screenPath"@ + seq!['"']) + seq![':']);
    assert(",\"status\":"@ =~= seq![','] + (seq!['"'] + "status"@ + seq!['"']) + seq![':']);
    assert(",\"updatedAt\":"@ =~= seq![','] + (seq!['"'] + "updatedAt"@ + seq!['"']) + seq![':']);
    assert("}"@ =~= seq!['}']);
}

/// Brackets of a concatenation, moved.
proof fn lemma_regroup(
    open: Seq<char>,
    key: Seq<char>,
    value: Seq<char>,
    others: Seq<char>,
    close: Seq<char>,
)
    ensures
        open + (key + seq![':'] + value + others) + close == (open + key + seq![':']) + (value + (
        others + close)),
{
    assert(open + (key + seq![':'] + value + others) + close =~= (open + key + seq![':']) + (value
        + (others + close)));
}

proof fn lemma_members(fields: StateFields, members: Map<Seq<char>, Seq<char>>)
    requires
        forall|key: Seq<char>| #[trigger]
            members.contains_key(key) <==> key == "status"@ || key == "projectId"@ || key
                == "screenPath"@ || key == "updatedAt"@,
        members["projectId"@] == crate::json::json_optional(fields.project_id),
        members["screenPath"@] == crate::json::json_optional(fields.screen_path),
        members["status"@] == crate::json::json_string(fields.status),
        members["updatedAt"@] == crate::json::json_string(fields.updated_at),
    ensures
        crate::json::lists_keys(state_keys(), members),
        seq!['{'] + crate::json::json_members(state_keys(), members) + seq!['}'] == state_text(
            fields,
        ),
{
    lemma_keys();
    let keys = state_keys();
    assert forall|key: Seq<char>| keys.contains(key) <==> #[trigger] members.contains_key(key) by {
        assert(keys[0] == "projectId"@ && keys[1] == "screenPath"@);
        assert(keys[2] == "status"@ && keys[3] == "updatedAt"@);
    }
    let tail1 = seq!["screenPath"@, "status"@, "updatedAt"@];
    let tail2 = seq!["status"@, "updatedAt"@];
    let tail3 = seq!["updatedAt"@];
    assert(keys.skip(1) =~= tail1);
    assert(tail1.skip(1) =~= tail2);
    assert(tail2.skip(1) =~= tail3);
    let m1 = crate::json::json_members(tail1, members);
    let m2 = crate::json::json_members(tail2, members);
    let m3 = crate::json::json_members(tail3, members);
    let p = crate::json::json_optional(fields.project_id);
    let s = crate::json::json_optional(fields.screen_path);
    let t = crate::json::json_string(fields.status);
    let u = crate::json::json_string(fields.updated_at);
    let none = Seq::<char>::empty();
    let close = seq!['}'];
    let k0 = crate::json::json_string("projectId"@);
    let k1 = crate::json::json_string("screenPath"@);
    let k2 = crate::json::json_string("status"@);
    let k3 = crate::json::json_string("updatedAt"@);
    let comma = seq![','];

    assert(m3 =~= k3 + seq![':'] + u + none);
    lemma_regroup(comma, k3, u, none, close);
    assert(none + close =~= close);

    assert(m2 =~= k2 + seq![':'] + t + (comma + m3));
    lemma_regroup(comma, k2, t, comma + m3, close);

    assert(m1 =~= k1 + seq![':'] + s + (comma + m2));
    lemma_regroup(comma, k1, s, comma + m2, close);

    let m0 = crate::json::json_members(keys, members);
    assert(m0 =~= k0 + seq![':'] + p + (comma + m1));
    lemma_regroup(seq!['{'], k0, p, comma + m1, close);
}

} // verus!
