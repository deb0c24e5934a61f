use rhythm_core::events::CatchNoteEvent;
use rhythm_core::note::{NoteInfo, NoteType};
use rhythm_core::receptor::double_tap::DoubleTapReceptor;
use rhythm_core::receptor::full_sync::FullSyncReceptor;
use rhythm_core::receptor::step_left::StepLeftReceptor;
use rhythm_core::receptor::step_right::StepRightReceptor;
use rhythm_core::receptor::trill::TrillReceptor;
use rhythm_core::receptor::{NotesPattern, PatternReceptor};

const BPM_120: u32 = 120_000;

fn event(note_type: NoteType, real_time: i64) -> CatchNoteEvent {
    let note = NoteInfo { note_type, bar: 0, beat: 0, spawn_time: 0, target_time: real_time };
    CatchNoteEvent::new(&note, real_time, BPM_120, 4)
}

fn normal(key: i32, real_time: i64) -> CatchNoteEvent {
    event(NoteType::Normal { key }, real_time)
}

fn adlib(key: i32, real_time: i64) -> CatchNoteEvent {
    event(NoteType::AdLib { key }, real_time)
}

#[test]
fn catch_event_keeps_what_it_is_given() {
    let note = NoteInfo {
        note_type: NoteType::Long { key: 1, length: 2000, id: 5 },
        bar: 2,
        beat: 500,
        spawn_time: 1,
        target_time: 2,
    };
    let ev = CatchNoteEvent::new(&note, 77, 98_500, 3);
    assert_eq!(ev.note, note);
    assert_eq!(ev.real_time, 77);
    assert_eq!(ev.bpm, 98_500);
    assert_eq!(ev.beat, 3);
}

#[test]
fn full_sync_needs_all_four_lanes() {
    let mut r = FullSyncReceptor::default();
    assert!(r.initialized());
    assert!(r.is_available());
    r.input(&normal(0, 1_000_000));
    assert!(!r.initialized());
    r.input(&normal(1, 1_000_500));
    r.input(&normal(3, 1_001_000));
    assert_eq!(r.achieved(), None);
    r.input(&normal(3, 1_001_500));
    r.input(&normal(0, 1_001_700));
    assert_eq!(r.achieved(), None);
    r.input(&normal(2, 1_002_000));
    assert_eq!(r.achieved(), Some(NotesPattern::FullSync));
}

#[test]
fn full_sync_in_any_order() {
    let orders: [[i32; 4]; 6] =
        [[0, 1, 2, 3], [3, 2, 1, 0], [2, 0, 3, 1], [1, 3, 0, 2], [0, 2, 1, 3], [3, 0, 1, 2]];
    for order in orders.iter() {
        let mut r = FullSyncReceptor::default();
        for (i, key) in order.iter().enumerate() {
            assert_eq!(r.achieved(), None);
            r.input(&normal(*key, 2_000_000 + i as i64));
        }
        assert_eq!(r.achieved(), Some(NotesPattern::FullSync));
    }
}

#[test]
fn full_sync_takes_adlib_notes_and_passes_over_the_rest() {
    let mut r = FullSyncReceptor::default();
    r.input(&event(NoteType::BarLine, 10));
    r.input(&event(NoteType::Long { key: 0, length: 1000, id: 1 }, 10));
    r.input(&normal(4, 10));
    r.input(&normal(-1, 10));
    assert!(r.initialized());
    r.input(&adlib(0, 10));
    r.input(&adlib(1, 11));
    r.input(&normal(2, 12));
    r.input(&adlib(3, 13));
    assert_eq!(r.achieved(), Some(NotesPattern::FullSync));
}

#[test]
fn full_sync_expires_after_the_slack() {
    let mut r = FullSyncReceptor::default();
    r.input(&normal(0, 1_000_000));
    r.initialize_or_defer(1_100_000, BPM_120);
    assert!(!r.initialized());
    r.initialize_or_defer(900_000, BPM_120);
    assert!(!r.initialized());
    r.initialize_or_defer(1_100_001, BPM_120);
    assert!(r.initialized());
    r.input(&normal(1, 3_000_000));
    r.initialize_or_defer(2_899_999, 0);
    assert!(r.initialized());
}

#[test]
fn reset_clears_a_receptor() {
    let mut r = FullSyncReceptor::default();
    for key in 0..4 {
        r.input(&normal(key, 5));
    }
    assert!(r.achieved().is_some());
    r.init();
    assert!(r.initialized());
    assert_eq!(r.achieved(), None);
}

#[test]
fn step_right_from_lane_zero() {
    let mut r = StepRightReceptor::default();
    assert!(r.initialized());
    r.input(&normal(0, 1_000_000));
    assert!(!r.initialized());
    r.input(&normal(1, 1_100_000));
    assert_eq!(r.achieved(), None);
    r.input(&normal(2, 1_200_000));
    assert_eq!(r.achieved(), Some(NotesPattern::StepRight));
}

#[test]
fn step_right_from_lane_one() {
    let mut r = StepRightReceptor::default();
    r.input(&normal(1, 1_000_000));
    r.input(&normal(2, 1_100_000));
    r.input(&normal(3, 1_200_000));
    assert_eq!(r.achieved(), Some(NotesPattern::StepRight));
}

#[test]
fn step_right_does_not_start_in_the_upper_lanes() {
    let mut r = StepRightReceptor::default();
    r.input(&normal(2, 1_000_000));
    r.input(&normal(3, 1_100_000));
    assert!(r.initialized());
    assert_eq!(r.achieved(), None);
}

#[test]
fn step_right_rejects_steps_that_come_too_fast() {
    let mut r = StepRightReceptor::default();
    r.input(&normal(0, 1_000_000));
    r.input(&normal(1, 1_010_000));
    r.input(&normal(2, 1_100_000));
    assert_eq!(r.achieved(), None);
    r.input(&normal(1, 1_010_001));
    r.input(&normal(2, 1_100_000));
    assert_eq!(r.achieved(), Some(NotesPattern::StepRight));
}

#[test]
fn step_right_passes_over_wrong_lanes_and_kinds() {
    let mut r = StepRightReceptor::default();
    r.input(&adlib(0, 1_000_000));
    assert!(r.initialized());
    r.input(&normal(0, 1_000_000));
    r.input(&normal(2, 1_100_000));
    r.input(&normal(3, 1_100_000));
    r.input(&normal(0, 1_100_000));
    r.input(&normal(7, 1_100_000));
    r.input(&normal(1, 1_200_000));
    r.input(&normal(2, 1_300_000));
    assert_eq!(r.achieved(), Some(NotesPattern::StepRight));
    r.input(&normal(3, 1_400_000));
    assert_eq!(r.achieved(), None);
    r.input(&normal(4, 1_500_000));
    assert_eq!(r.achieved(), None);
}

#[test]
fn step_right_expires_after_a_beat_and_the_miss_threshold() {
    let mut r = StepRightReceptor::default();
    r.input(&normal(0, 1_000_000));
    r.initialize_or_defer(1_600_000, BPM_120);
    assert!(!r.initialized());
    r.initialize_or_defer(400_000, BPM_120);
    assert!(!r.initialized());
    r.initialize_or_defer(1_600_001, BPM_120);
    assert!(r.initialized());
    r.input(&normal(1, 2_000_000));
    r.initialize_or_defer(i64::MAX, 0);
    assert!(!r.initialized());
    r.initialize_or_defer(1_399_999, BPM_120);
    assert!(r.initialized());
}

#[test]
fn step_left_from_lane_three() {
    let mut r = StepLeftReceptor::default();
    assert!(r.initialized());
    r.input(&normal(3, 1_000_000));
    assert!(!r.initialized());
    r.input(&normal(2, 1_100_000));
    assert_eq!(r.achieved(), None);
    r.input(&normal(1, 1_200_000));
    assert_eq!(r.achieved(), Some(NotesPattern::StepLeft));
}

#[test]
fn step_left_from_lane_two() {
    let mut r = StepLeftReceptor::default();
    r.input(&normal(0, 900_000));
    r.input(&normal(1, 950_000));
    assert!(r.initialized());
    r.input(&normal(2, 1_000_000));
    r.input(&normal(1, 1_100_000));
    r.input(&normal(0, 1_200_000));
    assert_eq!(r.achieved(), Some(NotesPattern::StepLeft));
    r.input(&normal(-1, 1_300_000));
    assert_eq!(r.achieved(), Some(NotesPattern::StepLeft));
}

#[test]
fn step_left_expires_after_a_beat_and_the_miss_threshold() {
    let mut r = StepLeftReceptor::default();
    r.input(&normal(3, 1_000_000));
    r.initialize_or_defer(1_433_333, 180_000);
    assert!(!r.initialized());
    r.initialize_or_defer(1_433_334, 180_000);
    assert!(r.initialized());
}

#[test]
fn double_tap_takes_two_in_one_lane() {
    let mut r = DoubleTapReceptor::default();
    assert!(r.initialized());
    r.input(&normal(2, 1_000_000));
    assert!(!r.initialized());
    assert_eq!(r.achieved(), None);
    r.input(&normal(2, 1_125_000));
    assert_eq!(r.achieved(), Some(NotesPattern::DoubleTap));
}

#[test]
fn double_tap_single_note_never_reports() {
    for key in -2..6 {
        let mut r = DoubleTapReceptor::default();
        r.input(&normal(key, 1_000_000));
        assert_eq!(r.achieved(), None);
    }
    let mut r = DoubleTapReceptor::default();
    r.input(&adlib(1, 1_000_000));
    assert!(r.initialized());
    assert_eq!(r.achieved(), None);
}

#[test]
fn double_tap_passes_over_another_lane_in_between() {
    let mut r = DoubleTapReceptor::default();
    r.input(&normal(2, 1_000_000));
    r.input(&normal(3, 1_050_000));
    assert!(!r.initialized());
    assert_eq!(r.achieved(), None);
    r.input(&adlib(2, 1_060_000));
    assert_eq!(r.achieved(), None);
    r.input(&normal(2, 1_125_000));
    assert_eq!(r.achieved(), Some(NotesPattern::DoubleTap));
}

#[test]
fn double_tap_expires_after_its_window() {
    let mut r = DoubleTapReceptor::default();
    r.input(&normal(2, 1_000_000));
    r.initialize_or_defer(9_250_000, BPM_120);
    assert!(!r.initialized());
    r.initialize_or_defer(0, BPM_120);
    assert!(!r.initialized());
    r.initialize_or_defer(9_250_001, BPM_120);
    assert!(r.initialized());
    r.input(&normal(2, 1_000_000));
    r.initialize_or_defer(i64::MAX, 0);
    assert!(!r.initialized());
    r.initialize_or_defer(1_000_001, u32::MAX);
    assert!(!r.initialized());
    r.initialize_or_defer(1_000_230, u32::MAX);
    assert!(!r.initialized());
    r.initialize_or_defer(1_000_231, u32::MAX);
    assert!(r.initialized());
}

#[test]
fn trill_of_four_reports_after_it_breaks() {
    let mut r = TrillReceptor::default();
    assert!(r.initialized());
    let keys = [0, 3, 0, 3];
    for (i, key) in keys.iter().enumerate() {
        r.input(&normal(*key, 1_000_000 + 125_000 * i as i64));
        assert!(!r.initialized());
        assert_eq!(r.achieved(), None);
    }
    r.initialize_or_defer(1_375_000 + 275_000, BPM_120);
    assert_eq!(r.achieved(), None);
    r.initialize_or_defer(1_375_000 + 275_001, BPM_120);
    assert_eq!(r.achieved(), Some(NotesPattern::Trill(4)));
    r.initialize_or_defer(1_375_000 + 275_002, BPM_120);
    assert!(r.initialized());
    assert_eq!(r.achieved(), None);
}

#[test]
fn trill_broken_by_a_wrong_lane() {
    let mut r = TrillReceptor::default();
    for (i, key) in [1, 2, 1, 2, 1].iter().enumerate() {
        r.input(&normal(*key, 1_000_000 + 100_000 * i as i64));
    }
    assert_eq!(r.achieved(), None);
    r.input(&normal(3, 1_500_000));
    assert_eq!(r.achieved(), Some(NotesPattern::Trill(5)));
}

#[test]
fn trill_that_is_too_short_reports_nothing() {
    let mut r = TrillReceptor::default();
    for (i, key) in [1, 2, 1].iter().enumerate() {
        r.input(&normal(*key, 1_000_000 + 100_000 * i as i64));
    }
    r.input(&normal(1, 1_300_000));
    assert_eq!(r.achieved(), None);
    r.initialize_or_defer(1_300_001, BPM_120);
    assert!(r.initialized());
}

#[test]
fn trill_in_one_lane_is_a_multiple_tap() {
    let mut r = TrillReceptor::default();
    for i in 0..6 {
        r.input(&normal(2, 1_000_000 + 100_000 * i));
    }
    assert_eq!(r.achieved(), None);
    r.initialize_or_defer(1_500_000 + 275_001, BPM_120);
    assert_eq!(r.achieved(), Some(NotesPattern::MultipleTap(6)));
}

#[test]
fn trill_passes_over_notes_that_are_not_plain() {
    let mut r = TrillReceptor::default();
    r.input(&adlib(0, 1_000_000));
    r.input(&event(NoteType::BarLine, 1_000_000));
    assert!(r.initialized());
    for (i, key) in [0, 1, 0, 1].iter().enumerate() {
        r.input(&normal(*key, 1_000_000 + 100_000 * i as i64));
        r.input(&adlib(3, 1_000_000 + 100_000 * i as i64));
    }
    r.input(&normal(1, 1_400_000));
    assert_eq!(r.achieved(), Some(NotesPattern::Trill(4)));
}
