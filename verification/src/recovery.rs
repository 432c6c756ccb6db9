//! Recovering work after a crash: which snapshot the recovery bar asks
//! about, what each of its three answers does to the files, and when the
//! snapshot of an adopted session may finally be removed.
//!
//! The files themselves are written, read and removed by the application;
//! every method here is the decision from the current state and one event
//! to the next state and the step the application performs.

use vstd::prelude::*;

verus! {

/// Which snapshot the recovery bar is asking about.
#[derive(Debug, Clone, Copy, PartialEq, Eq, Structural)]
pub enum RecoverScope {
    /// Work left behind by an earlier run that never reached a file.
    LastSession,
    /// A snapshot of the document that was just opened, newer than its file.
    ThisDocument,
}

/// The three answers of the recovery bar.
#[derive(Debug, Clone, Copy, PartialEq, Eq, Structural)]
pub enum RecoverChoice {
    /// Bring the work back.
    Restore,
    /// Throw the snapshot away: the only answer that removes a file.
    Discard,
    /// Ask again next time; no file is touched.
    Later,
}

/// The status-bar notices of recovery.
#[derive(Debug, Clone, Copy, PartialEq, Eq, Structural)]
pub enum Notice {
    Ready,
    OpenFailed,
    RecoveredNotSavedYet,
    RecoveredIntoDocument,
}

/// What the application does with the files after an answer.
#[derive(Debug, Clone, PartialEq, Eq)]
pub enum RecoverStep {
    /// Nothing: no file is touched.
    Nothing,
    /// Put the open document's snapshot on the board and mark it unsaved.
    AdoptIntoDocument,
    /// Remove the open document's snapshot.
    DiscardDocumentSnapshot,
    /// Read the earlier run's snapshot at this path, then report with
    /// [`Recovery::snapshot_loaded`].
    LoadSnapshot(String),
    /// Remove the earlier run's snapshot at this path, with its companions.
    RemoveSnapshot(String),
}

/// The full answer to one event of recovery.
#[derive(Debug, Clone, PartialEq, Eq)]
pub struct RecoverAnswer {
    /// What to do with the files.
    pub step: RecoverStep,
    /// The notice to show, if any.
    pub notice: Option<Notice>,
    /// The new warning flag of the status bar, where it changes.
    pub warn: Option<bool>,
    /// Sweep the recovery and spool folders afterwards.
    pub sweep: bool,
}

/// How a background snapshot write ended, as far as the application has heard.
#[derive(Debug, Clone, Copy, PartialEq, Eq, Structural)]
pub enum AutosaveResult {
    /// The snapshot is on disk.
    Written,
    /// The write failed.
    Failed,
    /// No answer yet.
    StillRunning,
    /// The writer went away without answering.
    Lost,
}

/// What follows a look at the background snapshot write.
#[derive(Debug, Clone, PartialEq, Eq)]
pub struct AutosaveNext {
    /// A snapshot of an earlier run that may now be removed.
    pub remove: Option<String>,
    /// Go on to decide whether to write a new snapshot (`false`: the write
    /// under way has not answered yet).
    pub go_on: bool,
}

/// The recovery state of one run of the program.
#[derive(Debug, Clone, PartialEq, Eq)]
pub struct Recovery {
    /// The recovery bar is shown, asking about this.
    pub prompt: Option<RecoverScope>,
    /// The earlier run's snapshot waiting for an answer.
    pub pending_recovery: Option<String>,
    /// The open document's snapshot is waiting for an answer.
    pub pending_snapshot: bool,
    /// The earlier run's snapshot that was restored; kept until a snapshot
    /// of this run is on disk.
    pub adopted: Option<String>,
    /// A background snapshot write is under way.
    pub autosave_running: bool,
    /// The board revision the last snapshot captured.
    pub snapshot_revision: Option<u64>,
    /// The recovery folder has been looked at in this run.
    pub checked: bool,
}

/// The state after the window became ready, and whether to look for
/// left-over work now.
pub open spec fn scan_spec(s: Recovery) -> (Recovery, bool) {
    (Recovery { checked: true, ..s }, !s.checked)
}

/// The state and answer after `choice` on the recovery bar; `has_document`
/// says whether a document is still open.
pub open spec fn answer_spec(s: Recovery, choice: RecoverChoice, has_document: bool) -> (
    Recovery,
    RecoverAnswer,
) {
    let scope = match s.prompt {
        Some(scope) => scope,
        None => RecoverScope::LastSession,
    };
    let nothing = RecoverAnswer { step: RecoverStep::Nothing, notice: None, warn: None, sweep: false };
    if scope == RecoverScope::ThisDocument {
        let next = Recovery { prompt: None, pending_snapshot: false, ..s };
        if !s.pending_snapshot || !has_document {
            (next, nothing)
        } else {
            match choice {
                RecoverChoice::Restore => (
                    next,
                    RecoverAnswer {
                        step: RecoverStep::AdoptIntoDocument,
                        notice: Some(Notice::RecoveredIntoDocument),
                        warn: Some(true),
                        sweep: false,
                    },
                ),
                RecoverChoice::Discard => (
                    next,
                    RecoverAnswer {
                        step: RecoverStep::DiscardDocumentSnapshot,
                        notice: Some(Notice::Ready),
                        warn: Some(false),
                        sweep: false,
                    },
                ),
                RecoverChoice::Later => (next, nothing),
            }
        }
    } else {
        let next = Recovery { prompt: None, pending_recovery: None, ..s };
        match s.pending_recovery {
            None => (next, nothing),
            Some(path) => match choice {
                RecoverChoice::Restore => (
                    next,
                    RecoverAnswer {
                        step: RecoverStep::LoadSnapshot(path),
                        notice: None,
                        warn: None,
                        sweep: false,
                    },
                ),
                RecoverChoice::Discard => (
                    next,
                    RecoverAnswer {
                        step: RecoverStep::RemoveSnapshot(path),
                        notice: Some(Notice::Ready),
                        warn: None,
                        sweep: true,
                    },
                ),
                RecoverChoice::Later => (next, RecoverAnswer { sweep: true, ..nothing }),
            },
        }
    }
}

/// The state and answer after the application has tried to read the
/// earlier run's snapshot at `path`.
pub open spec fn loaded_spec(s: Recovery, path: String, loaded: bool) -> (Recovery, RecoverAnswer) {
    if loaded {
        (
            Recovery { adopted: Some(path), ..s },
            RecoverAnswer {
                step: RecoverStep::Nothing,
                notice: Some(Notice::RecoveredNotSavedYet),
                warn: Some(true),
                sweep: true,
            },
        )
    } else {
        (
            s,
            RecoverAnswer {
                step: RecoverStep::Nothing,
                notice: Some(Notice::OpenFailed),
                warn: Some(true),
                sweep: false,
            },
        )
    }
}

/// The state and next step after a look at the background snapshot write.
pub open spec fn autosave_spec(s: Recovery, result: AutosaveResult) -> (Recovery, AutosaveNext) {
    if !s.autosave_running {
        (s, AutosaveNext { remove: None, go_on: true })
    } else {
        match result {
            AutosaveResult::Written => (
                Recovery { autosave_running: false, adopted: None, ..s },
                AutosaveNext { remove: s.adopted, go_on: true },
            ),
            AutosaveResult::Failed => (
                Recovery { autosave_running: false, snapshot_revision: None, ..s },
                AutosaveNext { remove: None, go_on: true },
            ),
            AutosaveResult::StillRunning => (s, AutosaveNext { remove: None, go_on: false }),
            AutosaveResult::Lost => (
                Recovery { autosave_running: false, ..s },
                AutosaveNext { remove: None, go_on: true },
            ),
        }
    }
}

impl Recovery {
    /// A run that has not looked for left-over work yet.
    pub fn new() -> (r: Self)
        ensures
            r.prompt is None,
            r.pending_recovery is None,
            !r.pending_snapshot,
            r.adopted is None,
            !r.autosave_running,
            r.snapshot_revision is None,
            !r.checked,
    {
        Recovery {
            prompt: None,
            pending_recovery: None,
            pending_snapshot: false,
            adopted: None,
            autosave_running: false,
            snapshot_revision: None,
            checked: false,
        }
    }

    /// The window is ready: look for left-over work only the first time in
    /// a run, however often the window becomes ready again.
    pub fn start_scan(&mut self) -> (scan: bool)
        ensures
            (*final(self), scan) == scan_spec(*old(self)),
    {
        if self.checked {
            false
        } else {
            self.checked = true;
            true
        }
    }

    /// The scan found work left behind by an earlier run: ask about it.
    pub fn offer_last_session(&mut self, path: String)
        ensures
            *final(self) == (Recovery {
                prompt: Some(RecoverScope::LastSession),
                pending_recovery: Some(path),
                ..*old(self)
            }),
    {
        self.prompt = Some(RecoverScope::LastSession);
        self.pending_recovery = Some(path);
    }

    /// The document just opened has a newer snapshot: ask about it first;
    /// a question about an earlier run stays pending.
    pub fn offer_document_snapshot(&mut self)
        ensures
            *final(self) == (Recovery {
                prompt: Some(RecoverScope::ThisDocument),
                pending_snapshot: true,
                ..*old(self)
            }),
    {
        self.prompt = Some(RecoverScope::ThisDocument);
        self.pending_snapshot = true;
    }

    /// The user answered the recovery bar.
    pub fn answer(&mut self, choice: RecoverChoice, has_document: bool) -> (a: RecoverAnswer)
        ensures
            (*final(self), a) == answer_spec(*old(self), choice, has_document),
    {
        let scope = match self.prompt.take() {
            Some(scope) => scope,
            None => RecoverScope::LastSession,
        };
        let nothing = RecoverAnswer {
            step: RecoverStep::Nothing,
            notice: None,
            warn: None,
            sweep: false,
        };
        if scope == RecoverScope::ThisDocument {
            let pending = self.pending_snapshot;
            self.pending_snapshot = false;
            if !pending || !has_document {
                return nothing;
            }
            match choice {
                RecoverChoice::Restore => RecoverAnswer {
                    step: RecoverStep::AdoptIntoDocument,
                    notice: Some(Notice::RecoveredIntoDocument),
                    warn: Some(true),
                    sweep: false,
                },
                RecoverChoice::Discard => RecoverAnswer {
                    step: RecoverStep::DiscardDocumentSnapshot,
                    notice: Some(Notice::Ready),
                    warn: Some(false),
                    sweep: false,
                },
                RecoverChoice::Later => nothing,
            }
        } else {
            match self.pending_recovery.take() {
                None => nothing,
                Some(path) => match choice {
                    RecoverChoice::Restore => RecoverAnswer {
                        step: RecoverStep::LoadSnapshot(path),
                        notice: None,
                        warn: None,
                        sweep: false,
                    },
                    RecoverChoice::Discard => RecoverAnswer {
                        step: RecoverStep::RemoveSnapshot(path),
                        notice: Some(Notice::Ready),
                        warn: None,
                        sweep: true,
                    },
                    RecoverChoice::Later => RecoverAnswer { sweep: true, ..nothing },
                },
            }
        }
    }

    /// The application tried to read the earlier run's snapshot at `path`.
    /// Read: it is on the board and kept until this run's snapshot is on
    /// disk. Not read: say so, and sweep nothing.
    pub fn snapshot_loaded(&mut self, path: String, loaded: bool) -> (a: RecoverAnswer)
        ensures
            (*final(self), a) == loaded_spec(*old(self), path, loaded),
    {
        if loaded {
            self.adopted = Some(path);
            RecoverAnswer {
                step: RecoverStep::Nothing,
                notice: Some(Notice::RecoveredNotSavedYet),
                warn: Some(true),
                sweep: true,
            }
        } else {
            RecoverAnswer {
                step: RecoverStep::Nothing,
                notice: Some(Notice::OpenFailed),
                warn: Some(true),
                sweep: false,
            }
        }
    }

    /// A look at the background snapshot write. Once it is on disk, the
    /// adopted snapshot of the earlier run may go; after a failure the
    /// next tick tries again.
    pub fn autosave_result(&mut self, result: AutosaveResult) -> (next: AutosaveNext)
        ensures
            (*final(self), next) == autosave_spec(*old(self), result),
    {
        if !self.autosave_running {
            return AutosaveNext { remove: None, go_on: true };
        }
        match result {
            AutosaveResult::Written => {
                self.autosave_running = false;
                AutosaveNext { remove: self.adopted.take(), go_on: true }
            },
            AutosaveResult::Failed => {
                self.autosave_running = false;
                self.snapshot_revision = None;
                AutosaveNext { remove: None, go_on: true }
            },
            AutosaveResult::StillRunning => AutosaveNext { remove: None, go_on: false },
            AutosaveResult::Lost => {
                self.autosave_running = false;
                AutosaveNext { remove: None, go_on: true }
            },
        }
    }

    /// A background write of the snapshot of `revision` has started.
    pub fn autosave_started(&mut self, revision: u64)
        ensures
            *final(self) == (Recovery {
                autosave_running: true,
                snapshot_revision: Some(revision),
                ..*old(self)
            }),
    {
        self.autosave_running = true;
        self.snapshot_revision = Some(revision);
    }

    /// Another board took the place of the one on screen: no snapshot has
    /// captured it yet.
    pub fn board_replaced(&mut self)
        ensures
            *final(self) == (Recovery { snapshot_revision: None, ..*old(self) }),
    {
        self.snapshot_revision = None;
    }

    /// Whether to set a wake-up time for the next snapshot: never while a
    /// write is under way (waking could do nothing), nor with nowhere to
    /// write it.
    pub fn wants_deadline(&self, has_target: bool) -> (r: bool)
        ensures
            r == (!self.autosave_running && has_target),
    {
        !self.autosave_running && has_target
    }
}

/// "Later" never touches a file: whatever the state, it asks for no load
/// and no removal, and the question about an earlier run is asked again on
/// the next start (its file is left in place).
pub proof fn law_later_touches_no_file(s: Recovery, has_document: bool)
    ensures
        answer_spec(s, RecoverChoice::Later, has_document).1.step == RecoverStep::Nothing,
{
}

/// Of the three answers, only "Discard" removes a snapshot, and it removes
/// exactly the one that was asked about.
pub proof fn law_only_discard_removes(s: Recovery, choice: RecoverChoice, has_document: bool)
    ensures
        answer_spec(s, choice, has_document).1.step is RemoveSnapshot
            ==> choice == RecoverChoice::Discard && s.pending_recovery == Some(
            answer_spec(s, choice, has_document).1.step->RemoveSnapshot_0,
        ),
        answer_spec(s, choice, has_document).1.step is DiscardDocumentSnapshot
            ==> choice == RecoverChoice::Discard && s.pending_snapshot,
{
}

/// A restored snapshot of an earlier run is given up only once a snapshot
/// of this run is on disk: every other outcome of the write keeps it, and
/// answering the bar never drops it.
pub proof fn law_adopted_snapshot_outlives_failed_writes(
    s: Recovery,
    result: AutosaveResult,
    choice: RecoverChoice,
    has_document: bool,
)
    ensures
        result != AutosaveResult::Written ==> autosave_spec(s, result).0.adopted == s.adopted
            && autosave_spec(s, result).1.remove is None,
        s.autosave_running && result == AutosaveResult::Written ==> autosave_spec(s, result).1.remove
            == s.adopted && autosave_spec(s, result).0.adopted is None,
        answer_spec(s, choice, has_document).0.adopted == s.adopted,
{
}

/// The program looks for left-over work at most once per run: a second
/// ready window never scans again.
pub proof fn law_scan_happens_once(s: Recovery)
    ensures
        !scan_spec(scan_spec(s).0).1,
        scan_spec(scan_spec(s).0).0 == scan_spec(s).0,
{
}

/// Answering the bar, loading, and autosaving never make the program look
/// for left-over work a second time in the same run.
pub proof fn law_asked_once_per_run(
    s: Recovery,
    choice: RecoverChoice,
    has_document: bool,
    path: String,
    loaded: bool,
    result: AutosaveResult,
)
    requires
        s.checked,
    ensures
        answer_spec(s, choice, has_document).0.checked,
        loaded_spec(s, path, loaded).0.checked,
        autosave_spec(s, result).0.checked,
{
}

} // verus!
