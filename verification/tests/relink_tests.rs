use refx_ui::relink::{folder_match_answers, still_missing};
use refx_ui::selection::ItemId;
use refx_ui::relink::{plan_relink, LocateStep, RelinkReport};

#[test]
fn a_mixed_run_loads_the_found_and_counts_each_kind() {
    let found = vec![
        Some(LocateStep::WhereItWas),
        None,
        Some(LocateStep::Embedded),
        Some(LocateStep::Searched),
        Some(LocateStep::PickedByUser),
    ];
    let plan = plan_relink(&found);
    assert_eq!(plan.to_load, vec![0, 2, 3, 4]);
    assert_eq!(plan.lost, vec![1]);
    assert_eq!(
        plan.report,
        Some(RelinkReport { moved: 2, unpacked: 1, total: 5, lost: 1 })
    );
    assert!(!plan.report_now);
}

#[test]
fn a_document_whose_images_are_all_in_place_says_nothing() {
    let found = vec![Some(LocateStep::WhereItWas), Some(LocateStep::WhereItWas)];
    let plan = plan_relink(&found);
    assert_eq!(plan.to_load, vec![0, 1]);
    assert!(plan.lost.is_empty());
    assert_eq!(plan.report, None);
    assert!(!plan.report_now);
}

#[test]
fn when_every_image_is_lost_the_report_comes_at_once() {
    let found = vec![None, None, None];
    let plan = plan_relink(&found);
    assert!(plan.to_load.is_empty());
    assert_eq!(plan.lost, vec![0, 1, 2]);
    assert_eq!(
        plan.report,
        Some(RelinkReport { moved: 0, unpacked: 0, total: 3, lost: 3 })
    );
    assert!(plan.report_now);
}

#[test]
fn an_empty_run_has_nothing_to_report_but_reports_at_once() {
    let plan = plan_relink(&Vec::new());
    assert!(plan.to_load.is_empty());
    assert!(plan.lost.is_empty());
    assert_eq!(plan.report, None);
    assert!(plan.report_now);
}

#[test]
fn the_folder_match_binds_the_chosen_image_first_and_looks_up_the_rest() {
    let chosen = ItemId::from_parts(2, 0);
    let a = ItemId::from_parts(0, 0);
    let b = ItemId::from_parts(1, 0);
    let c = ItemId::from_parts(3, 1);
    let board = vec![(a, true), (b, false), (chosen, true), (c, true)];
    let missing = still_missing(&board, chosen);
    assert_eq!(missing, vec![a, c]);
    let matched = vec![(c, LocateStep::Searched), (c, LocateStep::WhereItWas)];
    let answers = folder_match_answers(Some(chosen), &missing, &matched);
    assert_eq!(
        answers,
        vec![
            (chosen, Some(LocateStep::PickedByUser)),
            (a, None),
            (c, Some(LocateStep::Searched)),
        ]
    );
}

#[test]
fn a_folder_match_without_a_chosen_image_answers_only_the_missing() {
    let a = ItemId::from_parts(5, 2);
    let answers = folder_match_answers(None, &vec![a], &Vec::new());
    assert_eq!(answers, vec![(a, None)]);
}
