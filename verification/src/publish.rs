//! Replacing the status file as a whole: the order of the file operations, and which of them
//! follows when one fails.

use vstd::prelude::*;
use crate::automation::document_now;

verus! {

/// The status file, in the application's data directory.
pub const STATE_FILE: &'static str = "automation-state.json";

/// The file beside it that a document is written to before it takes the status file's place.
pub const TEMP_FILE: &'static str = "automation-state.json.tmp";

/// The next operation of a write.
#[derive(Clone, Copy, Debug, PartialEq, Eq, Structural)]
pub enum WriteStep {
    /// Find the data directory.
    ResolveDir,
    /// Create the data directory and its parents.
    CreateDir,
    /// Create the temporary file, empty.
    CreateTemp,
    /// Write the document to the temporary file.
    WriteTemp,
    /// Flush the temporary file to disk.
    SyncTemp,
    /// Rename the temporary file to the status file.
    Publish,
    /// Remove the temporary file.
    RemoveTemp,
    /// Nothing is left to do.
    Finished,
}

/// The operation that follows `step`, given whether that succeeded. A failure is never
/// reported: without a data directory nothing is done, a document that could not be written in
/// full is removed again, and the other failures are passed over.
pub open spec fn step_after(step: WriteStep, ok: bool) -> WriteStep {
    match (step, ok) {
        (WriteStep::ResolveDir, true) => WriteStep::CreateDir,
        (WriteStep::ResolveDir, false) => WriteStep::Finished,
        (WriteStep::CreateDir, _) => WriteStep::CreateTemp,
        (WriteStep::CreateTemp, true) => WriteStep::WriteTemp,
        (WriteStep::WriteTemp, true) => WriteStep::SyncTemp,
        (WriteStep::SyncTemp, true) => WriteStep::Publish,
        (WriteStep::CreateTemp, false) => WriteStep::RemoveTemp,
        (WriteStep::WriteTemp, false) => WriteStep::RemoveTemp,
        (WriteStep::SyncTemp, false) => WriteStep::RemoveTemp,
        (WriteStep::Publish, _) => WriteStep::Finished,
        (WriteStep::RemoveTemp, _) => WriteStep::Finished,
        (WriteStep::Finished, _) => WriteStep::Finished,
    }
}

/// Whether an operation is one on the directory or the files that a document goes to.
pub open spec fn works_on_files(step: WriteStep) -> bool {
    step !is ResolveDir && step !is Finished
}

/// A write of the status file under way: what it is to say, the operation that is next, and,
/// once the data directory is found, the document.
pub struct StateWrite {
    step: WriteStep,
    status: String,
    project_id: Option<String>,
    screen_path: Option<String>,
    body: String,
}

impl StateWrite {
    /// The operation that is next.
    pub closed spec fn next(&self) -> WriteStep {
        self.step
    }

    /// What the document is to say.
    pub closed spec fn request(&self) -> crate::automation::StateRequest {
        crate::automation::StateRequest {
            status: self.status@,
            project_id: crate::automation::opt_view(self.project_id),
            screen_path: crate::automation::opt_view(self.screen_path),
        }
    }

    /// The document; empty before there is one.
    pub closed spec fn text(&self) -> Seq<char> {
        self.body@
    }

    /// While an operation on the files is next, there is a document of the request.
    #[verifier::type_invariant]
    spec fn documented(self) -> bool {
        works_on_files(self.step) ==> crate::automation::is_state_document(self.body@, self.request())
    }

    /// Starts a write of a document with this status, project and path.
    pub fn begin(
        status: String,
        project_id: Option<String>,
        screen_path: Option<String>,
    ) -> (write: StateWrite)
        ensures
            write.next() == WriteStep::ResolveDir,
            write.request() == (crate::automation::StateRequest {
                status: status@,
                project_id: crate::automation::opt_view(project_id),
                screen_path: crate::automation::opt_view(screen_path),
            }),
            write.text() == Seq::<char>::empty(),
    {
        StateWrite {
            step: WriteStep::ResolveDir,
            status,
            project_id,
            screen_path,
            body: String::new(),
        }
    }

    /// The operation to perform next.
    pub fn step(&self) -> (step: WriteStep)
        ensures
            step == self.next(),
    {
        self.step
    }

    /// The document to write.
    pub fn body(&self) -> (body: &str)
        ensures
            body@ == self.text(),
            works_on_files(self.next()) ==> crate::automation::is_state_document(body@, self.request()),
    {
        proof {
            use_type_invariant(self);
        }
        self.body.as_str()
    }

    /// Records whether the operation succeeded, and moves on to the one that follows. Once the
    /// data directory is found, and not before, the clock is read and the document made.
    pub fn advance(&mut self, ok: bool)
        ensures
            final(self).next() == step_after(old(self).next(), ok),
            final(self).request() == old(self).request(),
            if old(self).next() is ResolveDir && ok {
                crate::automation::is_state_document(final(self).text(), final(self).request())
            } else {
                final(self).text() == old(self).text()
            },
    {
        proof {
            use_type_invariant(&*self);
        }
        let next = match self.step {
            WriteStep::ResolveDir => if ok {
                let body = document_now(
                    self.status.as_str(),
                    self.project_id.clone(),
                    self.screen_path.clone(),
                );
                self.body = body;
                WriteStep::CreateDir
            } else {
                WriteStep::Finished
            },
            WriteStep::CreateDir => WriteStep::CreateTemp,
            WriteStep::CreateTemp => if ok {
                WriteStep::WriteTemp
            } else {
                WriteStep::RemoveTemp
            },
            WriteStep::WriteTemp => if ok {
                WriteStep::SyncTemp
            } else {
                WriteStep::RemoveTemp
            },
            WriteStep::SyncTemp => if ok {
                WriteStep::Publish
            } else {
                WriteStep::RemoveTemp
            },
            WriteStep::Publish => WriteStep::Finished,
            WriteStep::RemoveTemp => WriteStep::Finished,
            WriteStep::Finished => WriteStep::Finished,
        };
        self.step = next;
    }
}

/// What leads to each operation: the temporary file takes the status file's place only where it
/// was flushed, is flushed only where it was written, and written only where it was created; it
/// is removed exactly where one of these failed; nothing is touched unless the data directory
/// was found.
pub proof fn law_what_leads_to_each_step(step: WriteStep, ok: bool)
    ensures
        step_after(step, ok) is Publish <==> step is SyncTemp && ok,
        step_after(step, ok) is SyncTemp <==> step is WriteTemp && ok,
        step_after(step, ok) is WriteTemp <==> step is CreateTemp && ok,
        step_after(step, ok) is CreateTemp <==> step is CreateDir,
        step_after(step, ok) is CreateDir <==> step is ResolveDir && ok,
        step_after(step, ok) is RemoveTemp <==> !ok && (step is CreateTemp || step is WriteTemp
            || step is SyncTemp),
        step_after(step, ok) !is ResolveDir,
{
}

/// Every operation is one on the files, but for finding the directory and the end.
pub proof fn law_operations_on_files(step: WriteStep)
    ensures
        works_on_files(step) <==> {
            ||| step is CreateDir
            ||| step is CreateTemp
            ||| step is WriteTemp
            ||| step is SyncTemp
            ||| step is Publish
            ||| step is RemoveTemp
        },
{
}

/// What the status file and the temporary file hold; `None` where there is no such file.
pub struct Disk {
    pub target: Option<Seq<char>>,
    pub temp: Option<Seq<char>>,
}

/// What an operation of a write of `body` does to the two files. A failed operation on the
/// temporary file may leave anything in it.
pub open spec fn performs(
    step: WriteStep,
    ok: bool,
    body: Seq<char>,
    before: Disk,
    after: Disk,
) -> bool {
    match step {
        WriteStep::ResolveDir | WriteStep::CreateDir | WriteStep::Finished => after == before,
        WriteStep::CreateTemp => {
            &&& after.target == before.target
            &&& ok ==> after.temp == Some(Seq::<char>::empty())
        },
        WriteStep::WriteTemp => {
            &&& after.target == before.target
            &&& ok ==> after.temp == Some(before.temp->0 + body)
        },
        WriteStep::SyncTemp => {
            &&& after.target == before.target
            &&& ok ==> after.temp == before.temp
        },
        WriteStep::Publish => if ok {
            after.target == before.temp && after.temp is None
        } else {
            after == before
        },
        WriteStep::RemoveTemp => {
            &&& after.target == before.target
            &&& after.temp == (if ok {
                None
            } else {
                before.temp
            })
        },
    }
}

/// Whether a write of `body` may take these steps, with these outcomes, over these states of
/// the two files. Operation `i` is `steps[i]` and leads from `disks[i]` to `disks[i + 1]`.
pub open spec fn is_run(
    body: Seq<char>,
    steps: Seq<WriteStep>,
    outcomes: Seq<bool>,
    disks: Seq<Disk>,
) -> bool {
    &&& steps.len() == outcomes.len() + 1
    &&& disks.len() == outcomes.len() + 1
    &&& steps[0] == WriteStep::ResolveDir
    &&& forall|i: int|
        0 <= i < outcomes.len() ==> {
            &&& steps[i + 1] == step_after(steps[i], outcomes[i])
            &&& performs(steps[i], #[trigger] outcomes[i], body, disks[i], disks[i + 1])
        }
}

/// How many operations a write has left at most.
pub open spec fn steps_left(step: WriteStep) -> nat {
    match step {
        WriteStep::ResolveDir => 6,
        WriteStep::CreateDir => 5,
        WriteStep::CreateTemp => 4,
        WriteStep::WriteTemp => 3,
        WriteStep::SyncTemp => 2,
        WriteStep::Publish => 1,
        WriteStep::RemoveTemp => 1,
        WriteStep::Finished => 0,
    }
}

/// A reader never sees a half-written document: at every moment of a write the status file
/// holds what it held before, or the whole document.
pub proof fn law_never_half_written(
    body: Seq<char>,
    steps: Seq<WriteStep>,
    outcomes: Seq<bool>,
    disks: Seq<Disk>,
    i: int,
)
    requires
        is_run(body, steps, outcomes, disks),
        0 <= i <= outcomes.len(),
    ensures
        disks[i].target == disks[0].target || disks[i].target == Some(body),
{
    lemma_run(body, steps, outcomes, disks, i);
}

/// Where an operation other than creating the directory fails, the status file keeps what it
/// held, throughout the write.
pub proof fn law_failed_write_leaves_state_file(
    body: Seq<char>,
    steps: Seq<WriteStep>,
    outcomes: Seq<bool>,
    disks: Seq<Disk>,
    failed: int,
    i: int,
)
    requires
        is_run(body, steps, outcomes, disks),
        0 <= failed < outcomes.len(),
        !outcomes[failed],
        steps[failed] !is CreateDir,
        steps[failed] !is Finished,
        0 <= i <= outcomes.len(),
    ensures
        disks[i].target == disks[0].target,
{
    lemma_run(body, steps, outcomes, disks, failed);
    if i <= failed {
        lemma_target_kept(body, steps, outcomes, disks, i, failed);
    } else {
        lemma_after_failure(body, steps, outcomes, disks, failed, i);
        lemma_target_kept(body, steps, outcomes, disks, 0, failed);
    }
}

/// A write in which every operation succeeds, creating the directory aside, ends with the
/// document in the status file and no temporary file.
pub proof fn law_successful_write_published(
    body: Seq<char>,
    steps: Seq<WriteStep>,
    outcomes: Seq<bool>,
    disks: Seq<Disk>,
)
    requires
        is_run(body, steps, outcomes, disks),
        forall|i: int|
            0 <= i < outcomes.len() && steps[i] !is CreateDir ==> #[trigger] outcomes[i],
        steps.last() == WriteStep::Finished,
    ensures
        disks.last() == (Disk { target: Some(body), temp: None }),
{
    lemma_success(body, steps, outcomes, disks, outcomes.len() as int);
}

/// Each operation brings a write nearer to its end, whatever its outcome, so a write of any
/// outcomes is finished after at most six of them.
pub proof fn law_writes_finish(
    body: Seq<char>,
    steps: Seq<WriteStep>,
    outcomes: Seq<bool>,
    disks: Seq<Disk>,
    i: int,
)
    requires
        is_run(body, steps, outcomes, disks),
        0 <= i <= outcomes.len(),
    ensures
        steps[i] == WriteStep::Finished || i + steps_left(steps[i]) <= 6,
        i >= 6 ==> steps[i] == WriteStep::Finished,
    decreases i,
{
    if i > 0 {
        law_writes_finish(body, steps, outcomes, disks, i - 1);
        let ok = outcomes[i - 1];
        assert(steps[i] == step_after(steps[i - 1], ok));
    }
}

/// The temporary file has the status file's name with `.tmp` behind it, so the two stand in
/// one directory and are not the same file.
pub proof fn law_temp_file_beside_state_file()
    ensures
        STATE_FILE@ == "automation-state.json"@,
        TEMP_FILE@ == STATE_FILE@ + ".tmp"@,
        TEMP_FILE@ != STATE_FILE@,
        forall|i: int| 0 <= i < TEMP_FILE@.len() ==> #[trigger] TEMP_FILE@[i] != '/',
        forall|i: int| 0 <= i < TEMP_FILE@.len() ==> #[trigger] TEMP_FILE@[i] != '\\',
{
    reveal_strlit("automation-state.json");
    reveal_strlit("automation-state.json.tmp");
    reveal_strlit(".tmp");
    assert(TEMP_FILE@ =~= STATE_FILE@ + ".tmp"@);
}

/// What is true of the files when the operation `step` is next, where `first` is what the
/// status file held at the start.
spec fn between(body: Seq<char>, step: WriteStep, first: Option<Seq<char>>, disk: Disk) -> bool {
    match step {
        WriteStep::Finished => disk.target == first || disk.target == Some(body),
        WriteStep::WriteTemp => disk.target == first && disk.temp == Some(Seq::<char>::empty()),
        WriteStep::SyncTemp | WriteStep::Publish => disk.target == first && disk.temp == Some(body),
        _ => disk.target == first,
    }
}

proof fn lemma_run(
    body: Seq<char>,
    steps: Seq<WriteStep>,
    outcomes: Seq<bool>,
    disks: Seq<Disk>,
    i: int,
)
    requires
        is_run(body, steps, outcomes, disks),
        0 <= i <= outcomes.len(),
    ensures
        between(body, steps[i], disks[0].target, disks[i]),
    decreases i,
{
    if i > 0 {
        lemma_run(body, steps, outcomes, disks, i - 1);
        let ok = outcomes[i - 1];
        assert(performs(steps[i - 1], ok, body, disks[i - 1], disks[i - 1 + 1]));
        assert(Seq::<char>::empty() + body =~= body);
    }
}

/// Up to an operation that is not yet the end, the status file is untouched.
proof fn lemma_target_kept(
    body: Seq<char>,
    steps: Seq<WriteStep>,
    outcomes: Seq<bool>,
    disks: Seq<Disk>,
    i: int,
    later: int,
)
    requires
        is_run(body, steps, outcomes, disks),
        0 <= i <= later <= outcomes.len(),
        steps[later] !is Finished,
    ensures
        disks[i].target == disks[0].target,
        steps[i] !is Finished,
    decreases later - i,
{
    lemma_run(body, steps, outcomes, disks, i);
    if i < later {
        lemma_target_kept(body, steps, outcomes, disks, i + 1, later);
        let ok = outcomes[i];
        assert(steps[i + 1] == step_after(steps[i], ok));
    }
}

/// After a failed operation a write removes the temporary file, if anything, and ends.
proof fn lemma_after_failure(
    body: Seq<char>,
    steps: Seq<WriteStep>,
    outcomes: Seq<bool>,
    disks: Seq<Disk>,
    failed: int,
    i: int,
)
    requires
        is_run(body, steps, outcomes, disks),
        0 <= failed < i <= outcomes.len(),
        !outcomes[failed],
        steps[failed] !is CreateDir,
        steps[failed] !is Finished,
    ensures
        steps[i] is RemoveTemp || steps[i] is Finished,
        disks[i].target == disks[failed].target,
    decreases i - failed,
{
    if i > failed + 1 {
        lemma_after_failure(body, steps, outcomes, disks, failed, i - 1);
    }
    let ok = outcomes[i - 1];
    assert(steps[i - 1 + 1] == step_after(steps[i - 1], ok));
    assert(performs(steps[i - 1], ok, body, disks[i - 1], disks[i - 1 + 1]));
}

proof fn lemma_success(
    body: Seq<char>,
    steps: Seq<WriteStep>,
    outcomes: Seq<bool>,
    disks: Seq<Disk>,
    i: int,
)
    requires
        is_run(body, steps, outcomes, disks),
        forall|k: int|
            0 <= k < outcomes.len() && steps[k] !is CreateDir ==> #[trigger] outcomes[k],
        0 <= i <= outcomes.len(),
    ensures
        steps[i] !is RemoveTemp,
        steps[i] is Finished ==> disks[i] == (Disk { target: Some(body), temp: None }),
    decreases i,
{
    if i > 0 {
        lemma_success(body, steps, outcomes, disks, i - 1);
        lemma_run(body, steps, outcomes, disks, i - 1);
        let ok = outcomes[i - 1];
        assert(performs(steps[i - 1], ok, body, disks[i - 1], disks[i - 1 + 1]));
    }
}

} // verus!
