use capptivo::automation::{
    current_project_id, document_now, render_state, status_str, write_from_state, write_state, AppState, Project,
    RecorderState,
};
use capptivo::publish::{StateWrite, WriteStep};

fn capturing(id: &str) -> AppState {
    AppState {
        current_project: Some(Project { id: id.to_string() }),
    }
}

/// The write once its data directory is found.
fn ready(mut write: StateWrite) -> StateWrite {
    write.advance(true);
    write
}

fn read(text: &str) -> serde_json::Map<String, serde_json::Value> {
    let value: serde_json::Value = serde_json::from_str(text).unwrap();
    value.as_object().unwrap().clone()
}

#[test]
fn status_strings_are_stable() {
    assert_eq!(status_str(&RecorderState::Idle), "idle");
    assert_eq!(status_str(&RecorderState::Countdown), "countdown");
    assert_eq!(status_str(&RecorderState::Recording), "recording");
    assert_eq!(status_str(&RecorderState::Paused), "paused");
    assert_eq!(status_str(&RecorderState::Finalizing), "finalizing");
    assert_eq!(status_str(&RecorderState::Error), "error");
}

#[test]
fn project_id_of_the_current_capture() {
    assert_eq!(current_project_id(None), None);
    assert_eq!(
        current_project_id(Some(&AppState { current_project: None })),
        None
    );
    assert_eq!(
        current_project_id(Some(&capturing("take-1"))),
        Some("take-1".to_string())
    );
}

#[test]
fn document_of_a_finalized_take() {
    assert_eq!(
        render_state(
            "idle",
            Some("p1".to_string()),
            Some("/takes/p1/screen.mp4".to_string()),
            "1996-12-19T16:39:57+00:00".to_string(),
        ),
        "{\"projectId\":\"p1\",\"screenPath\":\"/takes/p1/screen.mp4\",\"status\":\"idle\",\
         \"updatedAt\":\"1996-12-19T16:39:57+00:00\"}"
    );
}

#[test]
fn absent_fields_are_null() {
    assert_eq!(
        render_state("recording", None, None, "t".to_string()),
        "{\"projectId\":null,\"screenPath\":null,\"status\":\"recording\",\"updatedAt\":\"t\"}"
    );
}

#[test]
fn strings_are_escaped() {
    assert_eq!(
        render_state(
            "a\"b\\c",
            Some("\u{8}\t\n\u{c}\r".to_string()),
            Some("C:\\takes\\é\u{7f}/\u{0}\u{1}\u{b}\u{1f}".to_string()),
            String::new(),
        ),
        "{\"projectId\":\"\\b\\t\\n\\f\\r\",\
         \"screenPath\":\"C:\\\\takes\\\\é\u{7f}/\\u0000\\u0001\\u000b\\u001f\",\
         \"status\":\"a\\\"b\\\\c\",\"updatedAt\":\"\"}"
    );
}

#[test]
fn a_reader_finds_what_was_written() {
    let path = "C:\\takes\\\"x\"\n\u{2}.mp4";
    let text = render_state("idle", None, Some(path.to_string()), "now".to_string());
    let fields = read(&text);
    assert_eq!(fields.len(), 4);
    assert_eq!(fields["status"].as_str(), Some("idle"));
    assert!(fields["projectId"].is_null());
    assert_eq!(fields["screenPath"].as_str(), Some(path));
    assert_eq!(fields["updatedAt"].as_str(), Some("now"));
}

#[test]
fn null_and_the_word_null_differ() {
    let absent = render_state("idle", None, None, String::new());
    let word = render_state("idle", None, Some("null".to_string()), String::new());
    assert_ne!(absent, word);
    assert!(read(&absent)["screenPath"].is_null());
    assert_eq!(read(&word)["screenPath"].as_str(), Some("null"));
}

#[test]
fn transition_documents_carry_no_path() {
    let app = capturing("take-7");
    let states = [
        RecorderState::Idle,
        RecorderState::Countdown,
        RecorderState::Recording,
        RecorderState::Paused,
        RecorderState::Finalizing,
        RecorderState::Error,
    ];
    for state in states {
        let write = ready(write_from_state(Some(&app), &state));
        let fields = read(write.body());
        assert_eq!(fields["status"].as_str(), Some(status_str(&state)));
        assert_eq!(fields["projectId"].as_str(), Some("take-7"));
        assert!(fields["screenPath"].is_null());
    }
    let write = ready(write_from_state(None, &RecorderState::Idle));
    assert!(read(write.body())["projectId"].is_null());
}

#[test]
fn a_document_of_the_present_moment() {
    let text = document_now("paused", Some("p2".to_string()), None);
    let fields = read(&text);
    assert_eq!(fields["status"].as_str(), Some("paused"));
    assert_eq!(fields["projectId"].as_str(), Some("p2"));
    assert!(fields["screenPath"].is_null());
    let stamp = fields["updatedAt"].as_str().unwrap();
    assert!(chrono::DateTime::parse_from_rfc3339(stamp).is_ok());
}

#[test]
fn written_documents_carry_the_current_time() {
    let write = write_state("idle", None, Some("/screen.mp4".to_string()));
    assert!(write.step() == WriteStep::ResolveDir);
    assert_eq!(write.body(), "");
    let before = chrono::Utc::now();
    let write = ready(write);
    let after = chrono::Utc::now();
    let fields = read(write.body());
    assert_eq!(fields["screenPath"].as_str(), Some("/screen.mp4"));
    let stamp = fields["updatedAt"].as_str().unwrap();
    assert!(stamp.ends_with("+00:00"));
    let at = chrono::DateTime::parse_from_rfc3339(stamp).unwrap();
    assert!(before <= at && at <= after);
}
