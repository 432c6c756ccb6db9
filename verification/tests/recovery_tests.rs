use refx_ui::recovery::{
    AutosaveResult, Notice, RecoverChoice, RecoverScope, RecoverStep, Recovery,
};

const SNAPSHOT: &str = "/data/RefX/recovery/session-1.refx";

#[test]
fn keeping_it_for_later_leaves_the_file_completely_untouched() {
    let mut r = Recovery::new();
    r.offer_last_session(SNAPSHOT.to_owned());
    assert_eq!(r.prompt, Some(RecoverScope::LastSession));
    let answer = r.answer(RecoverChoice::Later, false);
    assert_eq!(answer.step, RecoverStep::Nothing, "'later' touched the user's file");
    assert_eq!(answer.notice, None);
    assert!(answer.sweep, "the folders are swept after every answer");
    assert!(r.prompt.is_none(), "the bar goes away after an answer");
}

#[test]
fn throwing_it_away_actually_removes_it() {
    let mut r = Recovery::new();
    r.offer_last_session(SNAPSHOT.to_owned());
    let answer = r.answer(RecoverChoice::Discard, false);
    assert_eq!(answer.step, RecoverStep::RemoveSnapshot(SNAPSHOT.to_owned()));
    assert_eq!(answer.notice, Some(Notice::Ready));
    assert!(answer.sweep);
    assert_eq!(r.pending_recovery, None);
}

#[test]
fn a_restored_snapshot_is_only_dropped_once_ours_is_on_disk() {
    let mut r = Recovery::new();
    r.offer_last_session(SNAPSHOT.to_owned());
    let answer = r.answer(RecoverChoice::Restore, false);
    assert_eq!(answer.step, RecoverStep::LoadSnapshot(SNAPSHOT.to_owned()));
    let loaded = r.snapshot_loaded(SNAPSHOT.to_owned(), true);
    assert_eq!(loaded.notice, Some(Notice::RecoveredNotSavedYet));
    assert_eq!(loaded.warn, Some(true));
    assert_eq!(r.adopted.as_deref(), Some(SNAPSHOT), "must not be removed before ours is on disk");

    r.autosave_started(7);
    let next = r.autosave_result(AutosaveResult::StillRunning);
    assert_eq!(next.remove, None);
    assert!(!next.go_on);
    assert_eq!(r.adopted.as_deref(), Some(SNAPSHOT));

    let next = r.autosave_result(AutosaveResult::Written);
    assert_eq!(next.remove.as_deref(), Some(SNAPSHOT));
    assert!(next.go_on);
    assert_eq!(r.adopted, None);
}

#[test]
fn answering_once_is_enough_for_the_whole_run() {
    let mut r = Recovery::new();
    assert!(!r.checked, "not asked yet right after start");
    assert!(r.start_scan());
    r.answer(RecoverChoice::Later, false);
    assert!(r.checked, "an answer must still count as asked");
    assert!(!r.start_scan(), "a second ready window must not scan again");
}

#[test]
fn a_failed_snapshot_write_keeps_the_old_one_and_tries_again() {
    let mut r = Recovery::new();
    r.adopted = Some(SNAPSHOT.to_owned());
    r.autosave_started(4);
    assert_eq!(r.snapshot_revision, Some(4));
    assert!(!r.wants_deadline(true), "no wake-up while a write is under way");
    let next = r.autosave_result(AutosaveResult::Failed);
    assert_eq!(next.remove, None);
    assert!(next.go_on);
    assert_eq!(r.snapshot_revision, None, "a failed write must be retried");
    assert_eq!(r.adopted.as_deref(), Some(SNAPSHOT));
    assert!(r.wants_deadline(true));
    assert!(!r.wants_deadline(false));
}

#[test]
fn a_lost_writer_is_forgotten_without_counting_as_written() {
    let mut r = Recovery::new();
    r.adopted = Some(SNAPSHOT.to_owned());
    r.autosave_started(2);
    let next = r.autosave_result(AutosaveResult::Lost);
    assert_eq!(next.remove, None);
    assert!(!r.autosave_running);
    assert_eq!(r.snapshot_revision, Some(2));
}

#[test]
fn a_snapshot_that_cannot_be_read_is_reported_and_nothing_is_swept() {
    let mut r = Recovery::new();
    r.offer_last_session(SNAPSHOT.to_owned());
    r.answer(RecoverChoice::Restore, false);
    let loaded = r.snapshot_loaded(SNAPSHOT.to_owned(), false);
    assert_eq!(loaded.notice, Some(Notice::OpenFailed));
    assert_eq!(loaded.warn, Some(true));
    assert!(!loaded.sweep);
    assert_eq!(r.adopted, None);
}

#[test]
fn the_open_document_is_asked_about_first() {
    let mut r = Recovery::new();
    r.offer_last_session(SNAPSHOT.to_owned());
    r.offer_document_snapshot();
    assert_eq!(r.prompt, Some(RecoverScope::ThisDocument));
    let answer = r.answer(RecoverChoice::Restore, true);
    assert_eq!(answer.step, RecoverStep::AdoptIntoDocument);
    assert_eq!(answer.notice, Some(Notice::RecoveredIntoDocument));
    assert_eq!(answer.warn, Some(true));
    assert!(!r.pending_snapshot);
    assert_eq!(r.pending_recovery.as_deref(), Some(SNAPSHOT), "the other question stays pending");
}

#[test]
fn discarding_the_document_snapshot_clears_the_warning() {
    let mut r = Recovery::new();
    r.offer_document_snapshot();
    let answer = r.answer(RecoverChoice::Discard, true);
    assert_eq!(answer.step, RecoverStep::DiscardDocumentSnapshot);
    assert_eq!(answer.notice, Some(Notice::Ready));
    assert_eq!(answer.warn, Some(false));
    assert!(!answer.sweep);
}

#[test]
fn a_document_closed_meanwhile_answers_nothing() {
    let mut r = Recovery::new();
    r.offer_document_snapshot();
    let answer = r.answer(RecoverChoice::Restore, false);
    assert_eq!(answer.step, RecoverStep::Nothing);
    assert_eq!(answer.notice, None);
    assert!(!r.pending_snapshot);
}

#[test]
fn an_answer_with_nothing_pending_does_nothing() {
    let mut r = Recovery::new();
    let answer = r.answer(RecoverChoice::Discard, true);
    assert_eq!(answer.step, RecoverStep::Nothing);
    assert!(!answer.sweep);
}
