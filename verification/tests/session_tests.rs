use refx_ui::assets::SaveMode;
use refx_ui::session::{
    has_unsnapshotted_work, AfterSave, CloseChoice, DialogAnswer, OpenFlow, OpenNotice, OpenStep,
    SaveAsChoice, SaveFlow, SaveStep, SnapshotTarget,
};

#[test]
fn work_that_was_never_saved_still_has_somewhere_to_autosave() {
    let flow = SaveFlow::new(Some("/data/RefX/recovery".to_owned()));
    assert_eq!(flow.doc_path, None, "this case is 'never saved'");
    match flow.snapshot_target() {
        Some(SnapshotTarget::Recovery(dir)) => assert_eq!(dir, "/data/RefX/recovery"),
        other => panic!("unsaved work has nowhere to autosave: {other:?}"),
    }
}

#[test]
fn once_the_document_has_a_path_the_snapshot_moves_next_to_it() {
    let mut flow = SaveFlow::new(Some("/data/RefX/recovery".to_owned()));
    flow.doc_path = Some("/work/moodboard.refx".to_owned());
    match flow.snapshot_target() {
        Some(SnapshotTarget::BesideDocument(doc)) => assert_eq!(doc, "/work/moodboard.refx"),
        other => panic!("saved, but the snapshot is not next to the document: {other:?}"),
    }
}

#[test]
fn without_a_data_dir_unsaved_work_is_simply_not_written_anywhere() {
    let flow = SaveFlow::new(None);
    assert_eq!(flow.recovery_dir, None);
    assert_eq!(flow.snapshot_target(), None);
}

#[test]
fn a_board_already_captured_stops_asking_to_be_woken() {
    assert!(!has_unsnapshotted_work(false, None, 3));
    assert!(has_unsnapshotted_work(true, None, 3));
    assert!(has_unsnapshotted_work(true, Some(2), 3));
    assert!(!has_unsnapshotted_work(true, Some(3), 3));
}

#[test]
fn closing_with_unsaved_work_asks_first() {
    let mut flow = SaveFlow::new(None);
    assert!(flow.close_requested(false), "nothing to lose: close at once");
    assert!(!flow.close_requested(true), "unsaved work must be asked about");
    assert!(flow.close_prompt);
    assert_eq!(flow.close_choice(CloseChoice::DiscardAndClose), SaveStep::Nothing);
    assert!(flow.closing);
    assert!(flow.close_requested(true));
}

#[test]
fn save_then_close_closes_only_after_the_file_is_written() {
    let mut flow = SaveFlow::new(None);
    flow.doc_path = Some("/work/b.refx".to_owned());
    let step = flow.close_choice(CloseChoice::SaveThenClose);
    assert_eq!(
        step,
        SaveStep::Write {
            path: "/work/b.refx".to_owned(),
            mode: SaveMode::Linked
        }
    );
    assert!(!flow.closing, "closed before the file was written");
    flow.started_writing();
    assert_eq!(flow.save_finished(None), SaveStep::Failed);
    assert!(!flow.closing, "a failed save closed the program");
    assert_eq!(flow.after_save, AfterSave::Stay);

    flow.close_choice(CloseChoice::SaveThenClose);
    flow.started_writing();
    assert_eq!(
        flow.save_finished(Some(("/work/b.refx".to_owned(), SaveMode::Linked))),
        SaveStep::Saved {
            name: "b.refx".to_owned()
        }
    );
    assert!(flow.closing);
}

#[test]
fn ctrl_s_keeps_the_mode_of_the_document() {
    let mut flow = SaveFlow::new(None);
    flow.doc_path = Some("/work/packed.refx".to_owned());
    flow.save_mode = SaveMode::Packed;
    assert_eq!(
        flow.save_request(false),
        SaveStep::Write {
            path: "/work/packed.refx".to_owned(),
            mode: SaveMode::Packed
        }
    );
    flow.started_writing();
    assert_eq!(flow.save_request(false), SaveStep::Nothing, "two saves at once");
}

#[test]
fn save_as_asks_the_mode_then_the_place() {
    let mut flow = SaveFlow::new(None);
    assert_eq!(flow.save_request(false), SaveStep::AskMode);
    assert!(flow.save_as_prompt);
    assert_eq!(
        flow.save_as_choice(SaveAsChoice::Packed),
        SaveStep::PickLocation {
            name: "board.refx".to_owned()
        }
    );
    assert!(flow.dialog_open);
    assert_eq!(
        flow.dialog_answered(Some("/work/new.refx".to_owned()), false),
        SaveStep::Write {
            path: "/work/new.refx".to_owned(),
            mode: SaveMode::Packed
        }
    );
    flow.started_writing();
    flow.save_finished(Some(("/work/new.refx".to_owned(), SaveMode::Packed)));
    assert_eq!(flow.doc_path.as_deref(), Some("/work/new.refx"));
    assert_eq!(flow.save_mode, SaveMode::Packed);
    assert_eq!(flow.save_request(true), SaveStep::AskMode);
    assert_eq!(
        flow.save_as_choice(SaveAsChoice::Linked),
        SaveStep::PickLocation {
            name: "new.refx".to_owned()
        }
    );
}

#[test]
fn cancelling_the_save_calls_off_the_close() {
    let mut flow = SaveFlow::new(None);
    assert_eq!(flow.close_choice(CloseChoice::SaveThenClose), SaveStep::AskMode);
    assert_eq!(flow.save_as_choice(SaveAsChoice::Cancel), SaveStep::Cancelled);
    assert_eq!(flow.after_save, AfterSave::Stay);

    flow.close_choice(CloseChoice::SaveThenClose);
    flow.save_as_choice(SaveAsChoice::Linked);
    assert_eq!(flow.dialog_answered(None, false), SaveStep::Cancelled);
    assert_eq!(flow.after_save, AfterSave::Stay);
    assert!(!flow.closing);
}

#[test]
fn switching_the_mode_rewrites_a_saved_document_at_once() {
    let mut flow = SaveFlow::new(None);
    assert_eq!(flow.mode_request(SaveMode::Linked), SaveStep::Nothing);
    assert_eq!(
        flow.mode_request(SaveMode::Packed),
        SaveStep::ModeChosen(SaveMode::Packed)
    );
    assert_eq!(flow.save_mode, SaveMode::Packed);
    flow.doc_path = Some("/work/a.refx".to_owned());
    assert_eq!(
        flow.mode_request(SaveMode::Linked),
        SaveStep::Write {
            path: "/work/a.refx".to_owned(),
            mode: SaveMode::Linked
        }
    );
    assert_eq!(flow.save_mode, SaveMode::Packed, "the mode changes only once written");
}

#[test]
fn a_second_ctrl_o_while_choosing_does_nothing() {
    let mut open = OpenFlow::new();
    assert_eq!(open.request(), (OpenStep::AskFile, Some(OpenNotice::Choosing)));
    assert_eq!(open.request(), (OpenStep::Nothing, None));
    assert_eq!(
        open.dialog_answered(DialogAnswer::Picked("/work/moodboard.refx".to_owned())),
        (OpenStep::Load("/work/moodboard.refx".to_owned()), None)
    );
    assert_eq!(open.load_started(true), OpenNotice::InProgress);
    assert_eq!(open.request(), (OpenStep::Nothing, None), "no second open while reading");
    let (step, notice) = open.load_finished(Some("/work/moodboard.refx".to_owned()));
    assert_eq!(step, OpenStep::Adopt("/work/moodboard.refx".to_owned()));
    assert_eq!(notice, OpenNotice::Opened { name: "moodboard.refx".to_owned() });
    assert_eq!(open, OpenFlow::new());
}

#[test]
fn cancelling_the_open_dialog_is_not_an_error() {
    let mut open = OpenFlow::new();
    open.request();
    assert_eq!(open.dialog_answered(DialogAnswer::Cancelled), (OpenStep::Nothing, None));
    assert!(!open.dialog_open);
}

#[test]
fn a_lost_dialog_or_a_failed_read_is_a_warning() {
    let mut open = OpenFlow::new();
    open.request();
    assert_eq!(
        open.dialog_answered(DialogAnswer::Lost),
        (OpenStep::Nothing, Some(OpenNotice::Failed))
    );
    assert_eq!(open.load_started(false), OpenNotice::Failed);
    assert!(!open.loading);
    open.load_started(true);
    assert_eq!(open.load_finished(None), (OpenStep::Nothing, OpenNotice::Failed));
    assert!(!open.loading);
}

#[test]
fn an_opened_document_brings_its_path_and_mode() {
    let mut flow = SaveFlow::new(None);
    flow.adopt_document(Some("/work/b.refx".to_owned()), SaveMode::Packed);
    assert_eq!(flow.doc_path.as_deref(), Some("/work/b.refx"));
    assert_eq!(flow.save_mode, SaveMode::Packed);
}
