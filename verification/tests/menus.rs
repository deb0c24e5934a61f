use rhythm_core::config::{GameCount, GameDifficulty};
use rhythm_core::home_menu::{ActiveOption, HomeMenuOption, HomeMenuOptionItem};
use rhythm_core::score::{CatchEval, ScoreResource, TimingEval};
use rhythm_core::note::NoteType;
use rhythm_core::song_list::{AllSongData, SongData, SongDataParser};

fn parsed(name: &str, edit_freeze: Option<bool>) -> SongDataParser {
    SongDataParser {
        name: name.to_string(),
        thumbnail: format!("{}.png", name),
        config_file_name: format!("{}.yaml", name),
        edit_freeze,
    }
}

#[test]
fn song_without_a_freeze_flag_is_frozen() {
    let song = SongData::from(parsed("alpha", None));
    assert_eq!(song.name, "alpha");
    assert_eq!(song.thumbnail, "alpha.png");
    assert_eq!(song.config_file_name, "alpha.yaml");
    assert!(song.edit_freeze);
    assert!(SongData::from(parsed("beta", Some(true))).edit_freeze);
    assert!(!SongData::from(parsed("gamma", Some(false))).edit_freeze);
}

#[test]
fn song_list_keeps_its_order() {
    let all = AllSongData::from_parsed(vec![
        parsed("one", None),
        parsed("two", Some(false)),
        parsed("three", Some(true)),
    ]);
    let names: Vec<&str> = all.0.iter().map(|s| s.name.as_str()).collect();
    assert_eq!(names, vec!["one", "two", "three"]);
    let frozen: Vec<bool> = all.0.iter().map(|s| s.edit_freeze).collect();
    assert_eq!(frozen, vec![true, false, true]);
    assert!(AllSongData::from_parsed(Vec::new()).0.is_empty());
}

#[test]
fn cursor_goes_round_the_menu() {
    let mut active = ActiveOption(0);
    active.move_cursor(true, false, 2);
    assert_eq!(active.0, 1);
    active.move_cursor(true, false, 2);
    assert_eq!(active.0, 0);
    active.move_cursor(false, true, 2);
    assert_eq!(active.0, 1);
    active.move_cursor(false, true, 2);
    assert_eq!(active.0, 0);
    active.move_cursor(true, true, 3);
    assert_eq!(active.0, 1);
    active.move_cursor(false, false, 3);
    assert_eq!(active.0, 1);
    let mut far = ActiveOption(usize::MAX);
    far.move_cursor(false, true, usize::MAX);
    assert_eq!(far.0, usize::MAX - 1);
    assert!(active.is_on(&HomeMenuOptionItem(1)));
    assert!(!active.is_on(&HomeMenuOptionItem(0)));
    assert_ne!(HomeMenuOption::Start, HomeMenuOption::Exit);
}

#[test]
fn game_count_holds_a_number() {
    assert_eq!(GameCount(3).0, 3);
    assert_ne!(GameDifficulty::Normal, GameDifficulty::Expert);
}

#[test]
fn every_grade_is_listed_with_its_count() {
    let mut score = ScoreResource::default();
    let ty = NoteType::Normal { key: 0 };
    score.update_score(&CatchEval::Okay(TimingEval::Fast), &ty);
    score.update_score(&CatchEval::Okay(TimingEval::Fast), &ty);
    score.update_score(&CatchEval::Miss, &ty);
    assert_eq!(
        score.get_eval_storage(),
        vec![
            (CatchEval::Perfect, 0),
            (CatchEval::NearPerfect(TimingEval::Slow), 0),
            (CatchEval::NearPerfect(TimingEval::Fast), 0),
            (CatchEval::Okay(TimingEval::Slow), 0),
            (CatchEval::Okay(TimingEval::Fast), 2),
            (CatchEval::Miss, 1),
        ]
    );
}
