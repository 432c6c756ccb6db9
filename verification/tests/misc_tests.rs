use refx_ui::selection::{plan_delete, selection_group, GroupId, GroupPick, ItemId};
use refx_ui::clock::{
    clamp_millis, elapsed_label, elapsed_or_just_now, format_when, millis_or_zero, now_ms,
};
use refx_ui::relink::{write_relink_status, RelinkReport, ShellState};
use refx_ui::rng::Rng;
use refx_ui::stats::{is_vsync_capped, meets_ceiling, FrameStats, FrameSummary, PresentMode};
use refx_ui::text::{decimal, Lang};

#[test]
fn the_generator_is_the_same_every_run() {
    let mut rng = Rng::new(0x5EED_1234_ABCD_0001);
    assert_eq!(rng.next_u64(), 8245156722624692356);
    assert_eq!(rng.state, 0x95f9_f38e_95b9_cf54);
    assert_eq!(rng.next_u64(), 4681165416075137395);
    let mut again = Rng::new(0x5EED_1234_ABCD_0001);
    assert_eq!(again.next_u64(), 8245156722624692356);
}

#[test]
fn a_zero_seed_stays_zero() {
    let mut rng = Rng::new(0);
    assert_eq!(rng.next_u64(), 0);
    assert_eq!(rng.state, 0);
}

#[test]
fn numbers_are_written_in_decimal() {
    assert_eq!(decimal(0), "0");
    assert_eq!(decimal(7), "7");
    assert_eq!(decimal(10), "10");
    assert_eq!(decimal(6928), "6928");
    assert_eq!(decimal(u64::MAX), "18446744073709551615");
}

#[test]
fn elapsed_time_reads_in_the_largest_whole_unit() {
    assert_eq!(elapsed_label(0), "just now");
    assert_eq!(elapsed_label(59), "just now");
    assert_eq!(elapsed_label(60), "1 min ago");
    assert_eq!(elapsed_label(59 * 60 + 59), "59 min ago");
    assert_eq!(elapsed_label(3600), "1 h ago");
    assert_eq!(elapsed_label(23 * 3600 + 3599), "23 h ago");
    assert_eq!(elapsed_label(86_400), "1 d ago");
    assert_eq!(elapsed_label(10 * 86_400), "10 d ago");
}

#[test]
fn a_time_in_the_future_reads_just_now() {
    let later = std::time::SystemTime::now() + std::time::Duration::from_secs(3600);
    assert_eq!(format_when(later), "just now");
    let earlier = std::time::SystemTime::now() - std::time::Duration::from_secs(2 * 3600 + 30);
    assert_eq!(format_when(earlier), "2 h ago");
}

#[test]
fn the_clock_reads_after_1970() {
    assert!(now_ms() > 1_600_000_000_000);
    assert_eq!(clamp_millis(5), 5);
    assert_eq!(clamp_millis(i64::MAX as u128), i64::MAX);
    assert_eq!(clamp_millis(i64::MAX as u128 + 1), 0);
}

fn shell(lang: Lang) -> ShellState {
    ShellState {
        lang,
        status: String::new(),
        status_warn: false,
    }
}

#[test]
fn relink_reports_missing_images_first_as_a_warning() {
    let mut s = shell(Lang::En);
    write_relink_status(
        &mut s,
        RelinkReport {
            moved: 3,
            unpacked: 2,
            total: 6,
            lost: 1,
        },
    );
    assert!(s.status_warn);
    assert_eq!(
        s.status,
        "1 images could not be found. Select one and choose Find file."
    );

    write_relink_status(
        &mut s,
        RelinkReport {
            moved: 3,
            unpacked: 2,
            total: 6,
            lost: 0,
        },
    );
    assert!(!s.status_warn);
    assert_eq!(s.status, "2 images were restored from inside the document.");

    let mut th = shell(Lang::Th);
    write_relink_status(
        &mut th,
        RelinkReport {
            moved: 4,
            unpacked: 0,
            total: 4,
            lost: 0,
        },
    );
    assert!(!th.status_warn);
    assert_eq!(th.status, "เจอภาพที่ย้ายที่ 4 จาก 4 ภาพ");
}

#[test]
fn the_report_uses_the_sorted_frame_times() {
    let mut stats = FrameStats::new();
    assert_eq!(stats.summary(), None);
    for t in [9_000u64, 1_000, 5_000, 3_000, 7_000] {
        stats.record(t);
    }
    let summary = stats.summary().expect("frames were recorded");
    assert_eq!(
        summary,
        FrameSummary {
            frames: 5,
            p50_us: 5_000,
            p99_us: 9_000,
            total_us: 25_000
        }
    );
    assert_eq!(stats.times_us, vec![1_000, 3_000, 5_000, 7_000, 9_000]);
    assert!(meets_ceiling(&summary));
    assert!(!meets_ceiling(&FrameSummary {
        frames: 1,
        p50_us: 8_001,
        p99_us: 9_000,
        total_us: 8_001
    }));
}

#[test]
fn the_99th_percentile_of_a_long_run() {
    let mut stats = FrameStats::new();
    for t in (1..=200u64).rev() {
        stats.record(t);
    }
    let summary = stats.summary().unwrap();
    assert_eq!(summary.p50_us, 101);
    assert_eq!(summary.p99_us, 199);
    assert_eq!(summary.total_us, 20_100);
}

#[test]
fn vsync_modes_cap_the_frame_time() {
    assert!(is_vsync_capped(PresentMode::AutoVsync));
    assert!(is_vsync_capped(PresentMode::Fifo));
    assert!(is_vsync_capped(PresentMode::FifoRelaxed));
    assert!(!is_vsync_capped(PresentMode::Immediate));
    assert!(!is_vsync_capped(PresentMode::Mailbox));
    assert!(!is_vsync_capped(PresentMode::AutoNoVsync));
}

#[test]
fn deleting_keeps_the_locked_items_selected() {
    let a = ItemId::from_parts(1, 0);
    let b = ItemId::from_parts(2, 0);
    let c = ItemId::from_parts(3, 1);
    let plan = plan_delete(&vec![a, b, c], &vec![true, false, true]);
    assert_eq!(plan.targets, vec![a, c]);
    assert_eq!(plan.survivors, vec![b]);
}

#[test]
fn deleting_with_everything_locked_has_nothing_to_delete() {
    let a = ItemId::from_parts(1, 0);
    let plan = plan_delete(&vec![a], &vec![false]);
    assert!(plan.targets.is_empty());
    assert_eq!(plan.survivors, vec![a]);
}

#[test]
fn the_group_panel_tells_one_group_from_loose_and_mixed() {
    let g = GroupId { index: 1, generation: 0 };
    let h = GroupId { index: 2, generation: 0 };
    assert_eq!(selection_group(&vec![]), GroupPick::Nothing);
    assert_eq!(selection_group(&vec![None, None]), GroupPick::Nothing);
    assert_eq!(selection_group(&vec![Some(None), None, Some(None)]), GroupPick::Loose);
    assert_eq!(selection_group(&vec![None, Some(Some(g)), Some(Some(g))]), GroupPick::One(g));
    assert_eq!(selection_group(&vec![Some(Some(g)), Some(Some(h))]), GroupPick::Mixed);
    assert_eq!(selection_group(&vec![Some(Some(g)), Some(None), Some(Some(g))]), GroupPick::Mixed);
}

#[test]
fn a_clock_before_1970_reads_zero_milliseconds() {
    assert_eq!(millis_or_zero(None), 0);
    assert_eq!(millis_or_zero(Some(1_700_000_000_123)), 1_700_000_000_123);
    assert_eq!(millis_or_zero(Some(u128::MAX)), 0);
}

#[test]
fn no_seconds_to_count_read_just_now() {
    assert_eq!(elapsed_or_just_now(None), "just now");
    assert_eq!(elapsed_or_just_now(Some(86_400)), "1 d ago");
    assert_eq!(elapsed_or_just_now(Some(59)), "just now");
    assert_eq!(elapsed_or_just_now(Some(125)), "2 min ago");
}
