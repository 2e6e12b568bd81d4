use capptivo::publish::{StateWrite, WriteStep, STATE_FILE, TEMP_FILE};

fn idle_write() -> StateWrite {
    StateWrite::begin("idle".to_string(), None, None)
}

fn steps(outcomes: &[bool]) -> Vec<WriteStep> {
    let mut write = idle_write();
    assert_eq!(write.body(), "");
    let mut document = String::new();
    let mut taken = Vec::new();
    for ok in outcomes {
        taken.push(write.step());
        write.advance(*ok);
        if taken.len() == 1 {
            document = write.body().to_string();
        }
        assert_eq!(write.body(), document);
    }
    taken.push(write.step());
    taken
}

#[test]
fn a_write_that_succeeds_is_published() {
    assert_eq!(
        steps(&[true, true, true, true, true, true]),
        vec![
            WriteStep::ResolveDir,
            WriteStep::CreateDir,
            WriteStep::CreateTemp,
            WriteStep::WriteTemp,
            WriteStep::SyncTemp,
            WriteStep::Publish,
            WriteStep::Finished,
        ]
    );
}

#[test]
fn without_a_directory_nothing_is_done() {
    assert_eq!(
        steps(&[false, true]),
        vec![WriteStep::ResolveDir, WriteStep::Finished, WriteStep::Finished]
    );
}

#[test]
fn the_document_is_made_once_the_directory_is_found() {
    let mut write = idle_write();
    write.advance(false);
    assert_eq!(write.body(), "");

    let mut write = idle_write();
    write.advance(true);
    assert!(write.body().starts_with(
        "{\"projectId\":null,\"screenPath\":null,\"status\":\"idle\",\"updatedAt\":\""
    ));
}

#[test]
fn a_directory_that_cannot_be_created_is_tried_all_the_same() {
    assert_eq!(
        steps(&[true, false, true, true, true, true])[2..],
        [
            WriteStep::CreateTemp,
            WriteStep::WriteTemp,
            WriteStep::SyncTemp,
            WriteStep::Publish,
            WriteStep::Finished,
        ]
    );
}

#[test]
fn a_failed_document_is_removed_and_never_published() {
    assert_eq!(
        steps(&[true, true, false, true])[3..],
        [WriteStep::RemoveTemp, WriteStep::Finished]
    );
    assert_eq!(
        steps(&[true, true, true, false, true])[4..],
        [WriteStep::RemoveTemp, WriteStep::Finished]
    );
    assert_eq!(
        steps(&[true, true, true, true, false, false])[5..],
        [WriteStep::RemoveTemp, WriteStep::Finished]
    );
}

#[test]
fn a_failed_rename_ends_the_write() {
    assert_eq!(
        steps(&[true, true, true, true, true, false])[6],
        WriteStep::Finished
    );
}

#[test]
fn every_write_finishes() {
    for pattern in 0..64u32 {
        let outcomes: Vec<bool> = (0..6).map(|i| pattern >> i & 1 == 1).collect();
        assert_eq!(steps(&outcomes)[6], WriteStep::Finished);
    }
}

#[test]
fn a_reader_sees_whole_documents_only() {
    for pattern in 0..64u32 {
        let mut write = idle_write();
        let mut target = "old".to_string();
        let mut temp: Option<String> = None;
        for i in 0..6 {
            let ok = pattern >> i & 1 == 1;
            match write.step() {
                WriteStep::CreateTemp if ok => temp = Some(String::new()),
                WriteStep::WriteTemp => {
                    let written = if ok { write.body() } else { &write.body()[..4] };
                    temp = Some(written.to_string());
                }
                WriteStep::Publish if ok => target = temp.take().unwrap(),
                WriteStep::RemoveTemp if ok => temp = None,
                _ => {}
            }
            write.advance(ok);
            assert!(target == "old" || target == write.body());
        }
    }
}

#[test]
fn file_names() {
    assert_eq!(STATE_FILE, "automation-state.json");
    assert_eq!(TEMP_FILE, "automation-state.json.tmp");
    let path = std::path::Path::new("data").join(STATE_FILE);
    assert_eq!(
        path.with_extension("json.tmp"),
        std::path::Path::new("data").join(TEMP_FILE)
    );
}
