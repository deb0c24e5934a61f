use rhythm_core::config::GameDifficulty;
use rhythm_core::events::{AchievePatternEvent, CatchNoteEvent};
use rhythm_core::note::{NoteInfo, NoteType};
use rhythm_core::receptor::double_tap::DoubleTapReceptor;
use rhythm_core::receptor::full_sync::FullSyncReceptor;
use rhythm_core::receptor::trill::TrillReceptor;
use rhythm_core::receptor::{NotesPattern, PatternReceptor};
use rhythm_core::score::ScoreResource;
use rhythm_core::systems::receptor::{achieve_pattern, receptor_pipeline, setup_receptor};

const BPM_120: u32 = 120_000;

fn normal(key: i32, real_time: i64) -> CatchNoteEvent {
    let note = NoteInfo {
        note_type: NoteType::Normal { key },
        bar: 0,
        beat: 0,
        spawn_time: 0,
        target_time: real_time,
    };
    CatchNoteEvent::new(&note, real_time, BPM_120, 4)
}

fn patterns(events: &[AchievePatternEvent]) -> Vec<NotesPattern> {
    events.iter().map(|ev| ev.0).collect()
}

#[test]
fn receptors_take_part_above_normal_difficulty() {
    assert!(!setup_receptor(&GameDifficulty::Normal).is_enabled());
    assert!(setup_receptor(&GameDifficulty::Expert).is_enabled());
    assert!(setup_receptor(&GameDifficulty::Master).is_enabled());
    assert!(!GameDifficulty::Normal.patterns_enabled());
    assert!(GameDifficulty::Expert.patterns_enabled());
    assert!(GameDifficulty::Master.patterns_enabled());
    assert_eq!(GameDifficulty::Normal.name(), "Normal");
    assert_eq!(GameDifficulty::Expert.name(), "Expert");
    assert_eq!(GameDifficulty::Master.name(), "Master");
}

#[test]
fn receptors_that_do_not_take_part_stay_as_they_are() {
    let mut set = setup_receptor(&GameDifficulty::Normal);
    let t = 1_000_000;
    let frame: Vec<CatchNoteEvent> = (0..4).map(|k| normal(k, t)).collect();
    assert!(set.update(&frame, t, BPM_120).is_empty());
    assert!(set.update(&vec![normal(0, t + 10), normal(0, t + 20)], t + 20, BPM_120).is_empty());
    assert!(set.full_sync.initialized());
    assert!(set.step_right.initialized());
    assert!(set.step_left.initialized());
    assert!(set.double_tap.initialized());
    assert!(set.trill.initialized());
    assert_eq!(set.full_sync.achieved(), None);
}

#[test]
fn fresh_receptors_are_initial() {
    let set = setup_receptor(&GameDifficulty::Expert);
    assert_eq!(FullSyncReceptor::NAME, "FullSync");
    assert_eq!(DoubleTapReceptor::NAME, "DoubleTap");
    assert_eq!(TrillReceptor::NAME, "Trill");
    assert!(set.full_sync.initialized());
    assert!(set.step_right.initialized());
    assert!(set.step_left.initialized());
    assert!(set.double_tap.initialized());
    assert!(set.trill.initialized());
}

#[test]
fn pipeline_reports_once_and_resets() {
    let mut r = DoubleTapReceptor::default();
    let frame = vec![normal(1, 1_000_000), normal(1, 1_000_100)];
    let report = receptor_pipeline(&mut r, &frame, 1_000_200, BPM_120);
    assert_eq!(report.map(|ev| ev.0), Some(NotesPattern::DoubleTap));
    assert!(r.initialized());
    let report = receptor_pipeline(&mut r, &Vec::new(), 1_016_000, BPM_120);
    assert!(report.is_none());
    assert!(r.initialized());
}

#[test]
fn satisfying_notes_twice_report_twice_with_a_reset_between() {
    let mut r = FullSyncReceptor::default();
    let frame: Vec<CatchNoteEvent> = (0..4).map(|k| normal(k, 1_000_000)).collect();
    let first = receptor_pipeline(&mut r, &frame, 1_000_000, BPM_120);
    assert_eq!(first.map(|ev| ev.0), Some(NotesPattern::FullSync));
    assert!(r.initialized());
    let quiet = receptor_pipeline(&mut r, &Vec::new(), 1_016_000, BPM_120);
    assert!(quiet.is_none());
    let second = receptor_pipeline(&mut r, &frame, 1_032_000, BPM_120);
    assert_eq!(second.map(|ev| ev.0), Some(NotesPattern::FullSync));
    assert!(r.initialized());
}

#[test]
fn pipeline_checks_the_clock_before_the_notes() {
    let mut r = FullSyncReceptor::default();
    let early = vec![normal(0, 1_000_000), normal(1, 1_000_000), normal(2, 1_000_000)];
    assert!(receptor_pipeline(&mut r, &early, 1_000_000, BPM_120).is_none());
    assert!(!r.initialized());
    let late = vec![normal(3, 1_200_000)];
    assert!(receptor_pipeline(&mut r, &late, 1_200_000, BPM_120).is_none());
    assert!(!r.initialized());
    let rest = vec![normal(0, 1_210_000), normal(1, 1_210_000), normal(2, 1_210_000)];
    let report = receptor_pipeline(&mut r, &rest, 1_210_000, BPM_120);
    assert_eq!(report.map(|ev| ev.0), Some(NotesPattern::FullSync));
}

#[test]
fn pipeline_keeps_an_attempt_inside_its_window() {
    let mut r = FullSyncReceptor::default();
    let early = vec![normal(0, 1_000_000), normal(1, 1_000_000), normal(2, 1_000_000)];
    assert!(receptor_pipeline(&mut r, &early, 1_000_000, BPM_120).is_none());
    let late = vec![normal(3, 1_090_000)];
    let report = receptor_pipeline(&mut r, &late, 1_090_000, BPM_120);
    assert_eq!(report.map(|ev| ev.0), Some(NotesPattern::FullSync));
}

#[test]
fn trill_is_reported_once_by_the_frame_that_finds_it_over() {
    let mut r = TrillReceptor::default();
    let mut reports = Vec::new();
    let keys = [0, 1, 0, 1];
    for (i, key) in keys.iter().enumerate() {
        let now = 1_000_000 + 125_000 * i as i64;
        let report = receptor_pipeline(&mut r, &vec![normal(*key, now)], now, BPM_120);
        assert!(report.is_none());
    }
    let last = 1_375_000;
    let mut now = last;
    while now <= last + 600_000 {
        if let Some(ev) = receptor_pipeline(&mut r, &Vec::new(), now, BPM_120) {
            reports.push((now, ev.0));
        }
        now += 25_000;
    }
    assert_eq!(reports, vec![(last + 300_000, NotesPattern::Trill(4))]);
    assert!(r.initialized());
}

#[test]
fn one_note_advances_several_receptors() {
    let mut set = setup_receptor(&GameDifficulty::Master);
    let t = 1_000_000;
    assert!(set.update(&vec![normal(0, t)], t, BPM_120).is_empty());
    assert!(!set.full_sync.initialized());
    assert!(!set.step_right.initialized());
    assert!(set.step_left.initialized());
    assert!(!set.double_tap.initialized());
    assert!(!set.trill.initialized());
    let reports = set.update(&vec![normal(0, t + 50_000)], t + 50_000, BPM_120);
    assert_eq!(patterns(&reports), vec![NotesPattern::DoubleTap]);
    assert!(set.double_tap.initialized());
}

#[test]
fn reports_of_one_frame_come_in_a_fixed_order() {
    let mut set = setup_receptor(&GameDifficulty::Expert);
    let t = 2_000_000;
    assert!(set.update(&vec![normal(0, t), normal(3, t)], t, BPM_120).is_empty());
    assert!(set.update(&vec![normal(1, t + 50_000)], t + 50_000, BPM_120).is_empty());
    let frame = vec![normal(2, t + 90_000), normal(0, t + 90_000)];
    let reports = set.update(&frame, t + 90_000, BPM_120);
    assert_eq!(
        patterns(&reports),
        vec![NotesPattern::FullSync, NotesPattern::StepRight, NotesPattern::DoubleTap]
    );
    let mut score = ScoreResource::default();
    achieve_pattern(&mut score, &reports);
    assert_eq!(score.get_score(), 3);
}

#[test]
fn falling_staircase_through_the_set() {
    let mut set = setup_receptor(&GameDifficulty::Expert);
    let t = 3_000_000;
    assert!(set.update(&vec![normal(3, t)], t, BPM_120).is_empty());
    assert!(set.update(&vec![normal(2, t + 125_000)], t + 125_000, BPM_120).is_empty());
    let reports = set.update(&vec![normal(1, t + 250_000)], t + 250_000, BPM_120);
    assert_eq!(patterns(&reports), vec![NotesPattern::StepLeft]);
    assert!(set.step_left.initialized());
}
