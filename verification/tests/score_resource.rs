use rhythm_core::events::{AchievePatternEvent, NoteEvalEvent};
use rhythm_core::note::{NoteInfo, NoteType, NoteTypeKey};
use rhythm_core::receptor::NotesPattern;
use rhythm_core::score::{CatchEval, ScoreResource, TimingEval};
use rhythm_core::systems::receptor::achieve_pattern;
use rhythm_core::systems::score::update_score;

fn note(note_type: NoteType) -> NoteInfo {
    NoteInfo { note_type, bar: 0, beat: 0, spawn_time: 0, target_time: 1_000_000 }
}

#[test]
fn fresh_score_is_empty() {
    let score = ScoreResource::default();
    assert_eq!(score.get_score(), 0);
    assert_eq!(score.get_eval_num(&CatchEval::Perfect), 0);
    assert_eq!(score.get_eval_num(&CatchEval::Miss), 0);
    assert_eq!(score.get_note_type_num(&NoteTypeKey::Other), 0);
    assert!(score.get_pattern_vec().is_empty());
}

#[test]
fn grades_are_counted_apart() {
    let mut score = ScoreResource::default();
    let ty = NoteType::Normal { key: 0 };
    score.update_score(&CatchEval::Perfect, &ty);
    score.update_score(&CatchEval::Perfect, &ty);
    score.update_score(&CatchEval::NearPerfect(TimingEval::Fast), &ty);
    score.update_score(&CatchEval::Okay(TimingEval::Slow), &ty);
    score.update_score(&CatchEval::Miss, &ty);
    assert_eq!(score.get_eval_num(&CatchEval::Perfect), 2);
    assert_eq!(score.get_eval_num(&CatchEval::NearPerfect(TimingEval::Fast)), 1);
    assert_eq!(score.get_eval_num(&CatchEval::NearPerfect(TimingEval::Slow)), 0);
    assert_eq!(score.get_eval_num(&CatchEval::Okay(TimingEval::Slow)), 1);
    assert_eq!(score.get_eval_num(&CatchEval::Okay(TimingEval::Fast)), 0);
    assert_eq!(score.get_eval_num(&CatchEval::Miss), 1);
    assert_eq!(score.get_score(), 2 + 2 + 2 + 1);
}

#[test]
fn note_kinds_are_counted_apart() {
    let mut score = ScoreResource::default();
    score.update_score(&CatchEval::Perfect, &NoteType::Normal { key: 1 });
    score.update_score(&CatchEval::Perfect, &NoteType::Normal { key: 1 });
    score.update_score(&CatchEval::Perfect, &NoteType::Normal { key: -1 });
    score.update_score(&CatchEval::Perfect, &NoteType::AdLib { key: 1 });
    score.update_score(&CatchEval::Perfect, &NoteType::Long { key: 1, length: 2000, id: 9 });
    score.update_score(&CatchEval::Perfect, &NoteType::Long { key: 1, length: 500, id: 4 });
    score.update_score(&CatchEval::Perfect, &NoteType::Long { key: i32::MAX, length: 1, id: 1 });
    score.update_score(&CatchEval::Miss, &NoteType::BarLine);
    assert_eq!(score.get_note_type_num(&NoteTypeKey::Normal { key: 1 }), 2);
    assert_eq!(score.get_note_type_num(&NoteTypeKey::Normal { key: -1 }), 1);
    assert_eq!(score.get_note_type_num(&NoteTypeKey::Normal { key: 0 }), 0);
    assert_eq!(score.get_note_type_num(&NoteTypeKey::AdLib { key: 1 }), 1);
    assert_eq!(score.get_note_type_num(&NoteTypeKey::Long { key: 1 }), 2);
    assert_eq!(score.get_note_type_num(&NoteTypeKey::Long { key: i32::MAX }), 1);
    assert_eq!(score.get_note_type_num(&NoteTypeKey::Long { key: i32::MIN }), 0);
    assert_eq!(score.get_note_type_num(&NoteTypeKey::Other), 1);
}

#[test]
fn note_type_keys() {
    assert_eq!(NoteTypeKey::from(&NoteType::Normal { key: 3 }), NoteTypeKey::Normal { key: 3 });
    assert_eq!(NoteTypeKey::from(NoteType::AdLib { key: 2 }), NoteTypeKey::AdLib { key: 2 });
    assert_eq!(
        NoteTypeKey::from(NoteType::Long { key: 1, length: 4000, id: 7 }),
        NoteTypeKey::Long { key: 1 }
    );
    assert_eq!(NoteTypeKey::from(&NoteType::BarLine), NoteTypeKey::Other);
}

#[test]
fn patterns_are_kept_in_order_and_scored() {
    let mut score = ScoreResource::default();
    score.push_pattern(NotesPattern::Trill(7));
    score.push_pattern(NotesPattern::Denim);
    score.push_pattern(NotesPattern::FullSync);
    assert_eq!(
        score.get_pattern_vec(),
        &vec![NotesPattern::Trill(7), NotesPattern::Denim, NotesPattern::FullSync]
    );
    assert_eq!(score.get_score(), 1 + 2 + 1);
}

#[test]
fn pattern_bonus_does_not_depend_on_length() {
    assert_eq!(NotesPattern::Denim.to_score(), 2);
    assert_eq!(NotesPattern::FullSync.to_score(), 1);
    assert_eq!(NotesPattern::StepLeft.to_score(), 1);
    assert_eq!(NotesPattern::StepRight.to_score(), 1);
    assert_eq!(NotesPattern::DoubleTap.to_score(), 1);
    assert_eq!(NotesPattern::Trill(4).to_score(), 1);
    assert_eq!(NotesPattern::Trill(400).to_score(), 1);
    assert_eq!(NotesPattern::MultipleTap(9).to_score(), 1);
    assert_eq!(NotesPattern::StepTrill(5).to_score(), 1);
}

#[test]
fn add_score_adds() {
    let mut score = ScoreResource::default();
    score.add_score(5);
    score.add_score(0);
    score.add_score(u32::MAX);
    assert_eq!(score.get_score() as u128, 5 + u32::MAX as u128);
}

#[test]
fn score_never_goes_down() {
    let mut score = ScoreResource::default();
    let mut last = score.get_score();
    let grades = [
        CatchEval::Miss,
        CatchEval::Perfect,
        CatchEval::Okay(TimingEval::Fast),
        CatchEval::Miss,
        CatchEval::NearPerfect(TimingEval::Slow),
    ];
    for (i, grade) in grades.iter().enumerate() {
        score.update_score(grade, &NoteType::Normal { key: i as i32 % 4 });
        assert!(score.get_score() >= last);
        last = score.get_score();
        score.push_pattern(NotesPattern::DoubleTap);
        assert!(score.get_score() >= last);
        last = score.get_score();
    }
    assert_eq!(last, 0 + 2 + 1 + 0 + 2 + 5);
}

#[test]
fn a_frame_of_grades_is_entered() {
    let mut score = ScoreResource::default();
    let evs = vec![
        NoteEvalEvent { eval: CatchEval::Perfect, note: note(NoteType::Normal { key: 0 }) },
        NoteEvalEvent { eval: CatchEval::Miss, note: note(NoteType::Normal { key: 1 }) },
        NoteEvalEvent::new(&note(NoteType::AdLib { key: 1 }), 1_050_000),
    ];
    update_score(&mut score, &evs);
    assert_eq!(score.get_score(), 3);
    assert_eq!(score.get_eval_num(&CatchEval::Perfect), 1);
    assert_eq!(score.get_eval_num(&CatchEval::Miss), 1);
    assert_eq!(score.get_eval_num(&CatchEval::Okay(TimingEval::Slow)), 1);
    assert_eq!(score.get_note_type_num(&NoteTypeKey::AdLib { key: 1 }), 1);
    update_score(&mut score, &Vec::new());
    assert_eq!(score.get_score(), 3);
}

#[test]
fn a_frame_of_patterns_is_entered() {
    let mut score = ScoreResource::default();
    let evs = vec![
        AchievePatternEvent(NotesPattern::FullSync),
        AchievePatternEvent(NotesPattern::Trill(6)),
    ];
    achieve_pattern(&mut score, &evs);
    assert_eq!(score.get_score(), 2);
    assert_eq!(score.get_pattern_vec(), &vec![NotesPattern::FullSync, NotesPattern::Trill(6)]);
}

#[test]
fn labels_of_grades_and_patterns() {
    assert_eq!(CatchEval::Perfect.label(), "perfect");
    assert_eq!(CatchEval::NearPerfect(TimingEval::Fast).label(), "perfect");
    assert_eq!(CatchEval::Okay(TimingEval::Slow).label(), "ok");
    assert_eq!(CatchEval::Miss.label(), "miss");
    assert_eq!(TimingEval::Slow.label(), "slow");
    assert_eq!(TimingEval::Fast.label(), "fast");
    assert_eq!(NotesPattern::Trill(4).name(), "Trill");
    assert_eq!(NotesPattern::Trill(4).length(), Some(4));
    assert_eq!(NotesPattern::MultipleTap(6).name(), "MultiTap");
    assert_eq!(NotesPattern::MultipleTap(6).length(), Some(6));
    assert_eq!(NotesPattern::StepTrill(5).length(), Some(5));
    assert_eq!(NotesPattern::FullSync.name(), "FullSync");
    assert_eq!(NotesPattern::FullSync.length(), None);
    assert_eq!(NotesPattern::Denim.name(), "Denim");
}

#[test]
fn note_kinds_are_listed_with_their_counts() {
    let mut score = ScoreResource::default();
    assert!(score.get_note_type_storage().is_empty());
    score.update_score(&CatchEval::Perfect, &NoteType::Normal { key: 1 });
    score.update_score(&CatchEval::Miss, &NoteType::Normal { key: 1 });
    score.update_score(&CatchEval::Perfect, &NoteType::Normal { key: -7 });
    score.update_score(&CatchEval::Perfect, &NoteType::AdLib { key: 1 });
    score.update_score(&CatchEval::Perfect, &NoteType::Long { key: 3, length: 10, id: 0 });
    score.update_score(&CatchEval::Perfect, &NoteType::BarLine);
    let mut listed = score.get_note_type_storage();
    listed.sort_by_key(|(key, _)| format!("{:?}", key));
    assert_eq!(
        listed,
        vec![
            (NoteTypeKey::AdLib { key: 1 }, 1),
            (NoteTypeKey::Long { key: 3 }, 1),
            (NoteTypeKey::Normal { key: -7 }, 1),
            (NoteTypeKey::Normal { key: 1 }, 2),
            (NoteTypeKey::Other, 1),
        ]
    );
}
