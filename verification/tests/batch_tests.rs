use refx_ui::batch::PasteSlot;
use refx_ui::batch::{
    batch_report, board_full_message, count_drain, end_outcome, paste_pressed, stored_outcome,
    BatchReport, DropBatch, PasteJob,
    FileOutcome, JobEnd, JobTarget, LoadProgress, LoadTracker, PoolStatsSnapshot, Stored,
};
use refx_ui::relink::RelinkReport;
use refx_ui::text::Lang;

#[test]
fn every_file_in_a_batch_ends_up_counted_somewhere() {
    let mut batch = DropBatch::default();
    batch.start(10_000);
    assert!(!batch.settled(), "a batch with no answer yet must not be settled");

    for _ in 0..3_072 {
        batch.added += 1;
    }
    assert!(
        !batch.settled(),
        "3,072 of 10,000 added and settled already: the rest went uncounted"
    );

    for _ in 0..6_928 {
        batch.rejected += 1;
    }
    assert!(batch.settled(), "every file has an answer but the batch is not settled");
    assert_eq!(
        batch.answered(),
        batch.requested,
        "the counts do not add up: some file vanished unnoticed"
    );
}

#[test]
fn a_single_broken_file_does_not_stall_the_batch_forever() {
    let mut batch = DropBatch::default();
    batch.start(3);
    batch.added += 2;
    batch.failed += 1;
    assert!(batch.settled());
}

#[test]
fn panning_while_files_load_does_not_stall_the_batch_forever() {
    let mut batch = DropBatch::default();
    batch.start(500);
    batch.added += 300;
    batch.cancelled += 200;
    assert!(batch.settled(), "200 cancelled and the batch is still open");
    assert_eq!(batch.answered(), batch.requested);
}

#[test]
fn a_cancelled_job_does_not_hide_the_board_full_message() {
    let batch = DropBatch {
        requested: 10_000,
        added: 3_072,
        rejected: 6_900,
        failed: 0,
        cancelled: 28,
        reported: false,
    };
    assert!(batch.settled());
    let message = board_full_message(Lang::En, 3_072, batch)
        .expect("the board is full but a cancelled file hid the message");
    assert!(message.contains("6900"), "{message}");
}

#[test]
fn starting_a_new_batch_forgets_the_previous_one() {
    let mut batch = DropBatch {
        requested: 10,
        added: 3,
        rejected: 7,
        failed: 1,
        cancelled: 2,
        reported: true,
    };
    batch.start(5);
    assert_eq!(
        batch,
        DropBatch {
            requested: 5,
            ..DropBatch::default()
        }
    );
}

#[test]
fn the_board_full_message_names_every_number_the_user_needs() {
    let batch = DropBatch {
        requested: 10_000,
        added: 3_072,
        rejected: 6_928,
        failed: 0,
        cancelled: 0,
        reported: false,
    };
    for lang in [Lang::En, Lang::Th] {
        let message = board_full_message(lang, 3_072, batch)
            .unwrap_or_else(|| panic!("{lang:?}: 6,928 files turned away and no message"));
        for number in ["3072", "6928", "10000"] {
            assert!(
                message.contains(number),
                "{lang:?}: the message lacks {number}: {message}"
            );
        }
        assert!(
            message.contains("board"),
            "{lang:?}: the message does not say what to do next: {message}"
        );
    }
}

#[test]
fn a_batch_that_fits_says_nothing_about_the_board_being_full() {
    let batch = DropBatch {
        requested: 200,
        added: 200,
        rejected: 0,
        failed: 0,
        cancelled: 0,
        reported: false,
    };
    for lang in [Lang::En, Lang::Th] {
        assert!(
            board_full_message(lang, 200, batch).is_none(),
            "{lang:?}: every file fitted and the board still reads full"
        );
    }
    let broken = DropBatch {
        requested: 5,
        added: 4,
        rejected: 0,
        failed: 1,
        cancelled: 0,
        reported: false,
    };
    assert!(board_full_message(Lang::Th, 4, broken).is_none());
}

#[test]
fn the_board_full_message_reads_exactly() {
    let batch = DropBatch {
        requested: 10,
        added: 7,
        rejected: 3,
        failed: 0,
        cancelled: 0,
        reported: false,
    };
    assert_eq!(
        board_full_message(Lang::En, 7, batch).as_deref(),
        Some("The board is full at 7 images: 3 of the 10 files were not added. Start a new board for the rest.")
    );
}

fn stats(submitted: u64, completed: u64, cancelled: u64, failed: u64) -> PoolStatsSnapshot {
    PoolStatsSnapshot {
        submitted,
        completed,
        cancelled,
        failed,
        timed_out: 0,
    }
}

#[test]
fn no_work_means_no_progress_shown() {
    let mut tracker = LoadTracker::default();
    assert_eq!(tracker.update(stats(0, 0, 0, 0)), None);
    assert_eq!(tracker.update(stats(100, 100, 0, 0)), None);
}

#[test]
fn progress_counts_up_during_a_batch() {
    let mut tracker = LoadTracker::default();
    assert_eq!(
        tracker.update(stats(1000, 312, 0, 0)),
        Some(LoadProgress {
            done: 312,
            total: 1000
        })
    );
    assert_eq!(
        tracker
            .update(stats(1000, 312, 0, 0))
            .map(|progress| progress.label(Lang::Th)),
        Some("กำลังโหลด 312 / 1000".to_owned())
    );
    assert_eq!(
        tracker
            .update(stats(1000, 312, 0, 0))
            .map(|progress| progress.label(Lang::En)),
        Some("Loading 312 / 1000".to_owned())
    );
}

#[test]
fn cancelled_and_failed_count_as_finished() {
    let mut tracker = LoadTracker::default();
    assert_eq!(
        tracker.update(stats(500, 400, 60, 40)),
        None,
        "400+60+40 = 500 = all finished"
    );
}

#[test]
fn a_second_batch_starts_counting_from_zero() {
    let mut tracker = LoadTracker::default();
    tracker.update(stats(100, 40, 0, 0));
    assert_eq!(tracker.update(stats(100, 100, 0, 0)), None);

    assert_eq!(
        tracker.update(stats(150, 100, 0, 0)),
        Some(LoadProgress { done: 0, total: 50 }),
        "the second batch must read 0 / 50, not 100 / 150"
    );
    assert_eq!(
        tracker.update(stats(150, 130, 0, 0)),
        Some(LoadProgress {
            done: 30,
            total: 50
        })
    );
}

#[test]
fn dropping_more_while_loading_grows_the_total() {
    let mut tracker = LoadTracker::default();
    tracker.update(stats(100, 30, 0, 0));
    assert_eq!(
        tracker.update(stats(180, 30, 0, 0)),
        Some(LoadProgress {
            done: 30,
            total: 180
        })
    );
}

#[test]
fn inconsistent_snapshot_never_underflows() {
    let mut tracker = LoadTracker::default();
    assert_eq!(tracker.update(stats(10, 12, 0, 0)), None);

    let odd = LoadProgress {
        done: 99,
        total: 10,
    };
    assert_eq!(odd.permille(), 1000);
    assert!((LoadProgress { done: 0, total: 0 }).permille() > 0);
}

#[test]
fn a_full_board_is_reported_before_anything_else() {
    let mut batch = DropBatch {
        requested: 10,
        added: 7,
        rejected: 3,
        failed: 0,
        cancelled: 0,
        reported: false,
    };
    let relink = RelinkReport {
        moved: 2,
        unpacked: 0,
        total: 2,
        lost: 0,
    };
    let report = batch_report(Lang::En, 7, &mut batch, true, Some(relink), true);
    assert!(matches!(report, Some(BatchReport::BoardFull(_))));
    assert!(batch.reported);
    // reported once only
    assert_eq!(batch_report(Lang::En, 7, &mut batch, true, None, false), None);
}

#[test]
fn an_unsettled_batch_reports_nothing_yet() {
    let mut batch = DropBatch::default();
    batch.start(4);
    batch.added = 3;
    assert_eq!(batch_report(Lang::En, 3, &mut batch, true, None, false), None);
    assert!(!batch.reported);
    batch.failed = 1;
    assert_eq!(
        batch_report(Lang::En, 3, &mut batch, true, None, true),
        Some(BatchReport::Pasted)
    );
    let mut other = DropBatch::default();
    other.start(1);
    other.added = 1;
    assert_eq!(
        batch_report(Lang::En, 1, &mut other, true, None, false),
        Some(BatchReport::Opened)
    );
    let mut relinked = DropBatch::default();
    relinked.start(1);
    relinked.added = 1;
    let rr = RelinkReport {
        moved: 1,
        unpacked: 0,
        total: 1,
        lost: 0,
    };
    assert_eq!(
        batch_report(Lang::En, 1, &mut relinked, true, Some(rr), false),
        Some(BatchReport::Relink(rr))
    );
}

#[test]
fn holding_paste_down_only_submits_one_job_at_a_time() {
    let mut slot = PasteSlot::new();
    assert_eq!(slot.start(), Some(1), "the first press must send one job");
    for _ in 0..20 {
        assert_eq!(slot.start(), None, "presses while one job runs pile up");
    }
    slot.finished(7);
    assert_eq!(slot.start(), None, "a different job ending must not open the slot");
    slot.finished(1);
    assert_eq!(slot.start(), Some(2), "once it is done a new paste must go");
}

#[test]
fn only_thumbnail_jobs_count_in_a_batch() {
    assert_eq!(end_outcome(JobEnd::Cancelled(JobTarget::Thumbnail), false), Some(FileOutcome::Cancelled));
    assert_eq!(end_outcome(JobEnd::Failed(JobTarget::Thumbnail), false), Some(FileOutcome::Failed));
    assert_eq!(end_outcome(JobEnd::Failed(JobTarget::Thumbnail), true), None);
    assert_eq!(end_outcome(JobEnd::Failed(JobTarget::Working), false), None);
    assert_eq!(end_outcome(JobEnd::Cancelled(JobTarget::Sample), false), None);
    assert_eq!(end_outcome(JobEnd::Done, false), None);
    assert_eq!(end_outcome(JobEnd::Spooled, false), None);
    assert_eq!(end_outcome(JobEnd::ClipboardFiles, false), None);
    assert_eq!(end_outcome(JobEnd::WorkingReady, false), None);
    assert_eq!(end_outcome(JobEnd::Sampled, true), None);
}

#[test]
fn every_stored_thumbnail_lands_in_one_bucket() {
    assert_eq!(stored_outcome(Stored::Placed), FileOutcome::Added);
    assert_eq!(stored_outcome(Stored::Relinked), FileOutcome::Added);
    assert_eq!(stored_outcome(Stored::RelinkGone), FileOutcome::Cancelled);
    assert_eq!(stored_outcome(Stored::BoardFull), FileOutcome::Rejected);
    assert_eq!(stored_outcome(Stored::AddRefused), FileOutcome::Failed);
    assert_eq!(stored_outcome(Stored::StoreFailed), FileOutcome::Failed);
}

#[test]
fn a_paste_at_the_last_count_still_answers_a_repeated_press() {
    let mut slot = PasteSlot { in_flight: Some(u64::MAX), count: u64::MAX };
    assert_eq!(slot.start(), None);
    assert_eq!(slot, PasteSlot { in_flight: Some(u64::MAX), count: u64::MAX });
}

#[test]
fn one_drain_counts_each_file_of_the_batch_once() {
    let mut batch = DropBatch::default();
    batch.start(5);
    let ends = vec![
        (JobEnd::Done, false),
        (JobEnd::WorkingReady, false),
        (JobEnd::Cancelled(JobTarget::Thumbnail), false),
        (JobEnd::Failed(JobTarget::Sample), true),
        (JobEnd::Failed(JobTarget::Thumbnail), false),
        (JobEnd::Done, false),
        (JobEnd::Failed(JobTarget::Thumbnail), true),
    ];
    count_drain(&mut batch, &ends, &vec![Stored::Placed, Stored::BoardFull]);
    assert_eq!(batch.added, 1);
    assert_eq!(batch.rejected, 1);
    assert_eq!(batch.failed, 1);
    assert_eq!(batch.cancelled, 1);
    assert_eq!(batch.answered(), 4);
    assert!(!batch.settled());
}

#[test]
fn a_drain_of_textures_and_samples_leaves_the_batch_alone() {
    let mut batch = DropBatch::default();
    batch.start(2);
    let before = batch;
    count_drain(
        &mut batch,
        &vec![(JobEnd::WorkingReady, false), (JobEnd::Sampled, true), (JobEnd::Spooled, false)],
        &vec![],
    );
    assert_eq!(batch, before);
}

#[test]
fn a_paste_starts_a_batch_of_one_from_the_clipboard() {
    let mut slot = PasteSlot::new();
    let mut batch = DropBatch::default();
    batch.start(9);
    batch.added = 9;
    let mut from_clipboard = false;
    let job = paste_pressed(&mut slot, &mut batch, &mut from_clipboard).expect("the first paste goes");
    assert_eq!(job, PasteJob { number: 1, key_text: "clipboard:1".to_owned() });
    assert_eq!(batch.requested, 1);
    assert_eq!(batch.answered(), 0);
    assert!(from_clipboard);

    from_clipboard = false;
    let before = batch;
    assert_eq!(paste_pressed(&mut slot, &mut batch, &mut from_clipboard), None);
    assert_eq!(batch, before, "a press while pasting must change nothing");
    assert!(!from_clipboard);

    slot.finished(1);
    let job = paste_pressed(&mut slot, &mut batch, &mut from_clipboard).unwrap();
    assert_eq!(job.key_text, "clipboard:2");
}
