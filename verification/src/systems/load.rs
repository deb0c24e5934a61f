use vstd::prelude::*;
use crate::config::GameDifficulty;
use crate::note::{NoteInfo, NoteSpawn, NoteType};

verus! {

/// Whether a note is an ad-lib note.
pub open spec fn is_adlib(note: NoteInfo) -> bool {
    note.note_type is AdLib
}

/// The notes of a chart that are played at a difficulty: all of them at
/// `Master`, all but the ad-lib notes below it. Their order is kept.
pub open spec fn notes_played(notes: Seq<NoteInfo>, diff: GameDifficulty) -> Seq<NoteInfo> {
    if diff == GameDifficulty::Master {
        notes
    } else {
        notes.filter(|note: NoteInfo| !is_adlib(note))
    }
}

/// Takes the ad-lib notes out of a chart unless the difficulty is `Master`.
pub fn select_notes(notes: Vec<NoteInfo>, diff: &GameDifficulty) -> (r: Vec<NoteInfo>)
    ensures
        r@ == notes_played(notes@, *diff),
{
    match diff {
        GameDifficulty::Master => notes,
        _ => {
            let mut kept: Vec<NoteInfo> = Vec::new();
            let mut i: usize = 0;
            while i < notes.len()
                invariant
                    i <= notes.len(),
                    kept@ == notes@.take(i as int).filter(|note: NoteInfo| !is_adlib(note)),
                decreases notes.len() - i,
            {
                let note = notes[i];
                proof {
                    assert(notes@.take(i + 1).drop_last() =~= notes@.take(i as int));
                    assert(notes@.take(i + 1).last() == note);
                    reveal(Seq::filter);
                }
                match note.note_type {
                    NoteType::AdLib { key: _ } => {},
                    _ => {
                        kept.push(note);
                    },
                }
                i += 1;
            }
            proof {
                assert(notes@.take(i as int) =~= notes@);
            }
            kept
        },
    }
}

/// Whether `a` stands in the chart no later than `b`: in an earlier bar, or
/// in the same bar no later.
pub open spec fn not_after(a: NoteSpawn, b: NoteSpawn) -> bool {
    a.bar < b.bar || (a.bar == b.bar && a.beat <= b.beat)
}

/// The ordered list `sorted` with `note` put behind the last note that
/// does not stand after it.
pub open spec fn inserted(sorted: Seq<NoteSpawn>, note: NoteSpawn) -> Seq<NoteSpawn>
    decreases sorted.len(),
{
    if sorted.len() == 0 {
        seq![note]
    } else if not_after(sorted.last(), note) {
        sorted.push(note)
    } else {
        inserted(sorted.drop_last(), note).push(sorted.last())
    }
}

/// The notes in the order of the chart, by bar and by beat inside the bar.
/// Notes that stand at the same place keep the order they came in.
pub open spec fn sorted_notes(notes: Seq<NoteSpawn>) -> Seq<NoteSpawn>
    decreases notes.len(),
{
    if notes.len() == 0 {
        Seq::empty()
    } else {
        inserted(sorted_notes(notes.drop_last()), notes.last())
    }
}

/// Whether no note of `notes` stands before one that precedes it.
pub open spec fn in_chart_order(notes: Seq<NoteSpawn>) -> bool {
    forall|i: int, j: int| 0 <= i < j < notes.len() ==> not_after(notes[i], notes[j])
}

/// Where `note` goes into `sorted`: at `at`, if every note from there on
/// stands after it and the note before does not.
proof fn lemma_inserted_at(sorted: Seq<NoteSpawn>, note: NoteSpawn, at: int)
    requires
        0 <= at <= sorted.len(),
        forall|j: int| at <= j < sorted.len() ==> !not_after(sorted[j], note),
        at == 0 || not_after(sorted[at - 1], note),
    ensures
        inserted(sorted, note) == sorted.insert(at, note),
    decreases sorted.len(),
{
    if sorted.len() == 0 {
        assert(sorted.insert(at, note) =~= seq![note]);
    } else if at == sorted.len() {
        assert(sorted.insert(at, note) =~= sorted.push(note));
    } else {
        let front = sorted.drop_last();
        lemma_inserted_at(front, note, at);
        assert(sorted.insert(at, note) =~= front.insert(at, note).push(sorted.last()));
    }
}

/// Putting a note into an ordered list leaves the list ordered and adds
/// that note to it, nothing else.
pub proof fn lemma_inserted_keeps_order(sorted: Seq<NoteSpawn>, note: NoteSpawn)
    requires
        in_chart_order(sorted),
    ensures
        in_chart_order(inserted(sorted, note)),
        inserted(sorted, note).to_multiset() == sorted.to_multiset().insert(note),
    decreases sorted.len(),
{
    broadcast use vstd::seq_lib::group_to_multiset_ensures;

    if sorted.len() == 0 {
        assert(sorted =~= Seq::empty());
        assert(seq![note] =~= Seq::<NoteSpawn>::empty().push(note));
    } else if not_after(sorted.last(), note) {
        let r = sorted.push(note);
        assert forall|i: int, j: int| 0 <= i < j < r.len() implies not_after(r[i], r[j]) by {
            if j == sorted.len() && i < sorted.len() - 1 {
                assert(not_after(sorted[i], sorted[sorted.len() - 1]));
            }
        }
    } else {
        let front = sorted.drop_last();
        assert forall|i: int, j: int| 0 <= i < j < front.len() implies not_after(
            front[i],
            front[j],
        ) by {
            assert(not_after(sorted[i], sorted[j]));
        }
        lemma_inserted_keeps_order(front, note);
        let mid = inserted(front, note);
        let r = mid.push(sorted.last());
        assert(sorted =~= front.push(sorted.last()));
        assert(r.to_multiset() =~= sorted.to_multiset().insert(note));
        assert forall|i: int, j: int| 0 <= i < j < r.len() implies not_after(r[i], r[j]) by {
            if j == r.len() - 1 {
                assert(mid.to_multiset().count(mid[i]) > 0);
                if mid[i] == note {
                } else {
                    assert(front.to_multiset().count(mid[i]) > 0);
                    assert(front.contains(mid[i]));
                    let k = choose|k: int| 0 <= k < front.len() && front[k] == mid[i];
                    assert(not_after(sorted[k], sorted[sorted.len() - 1]));
                }
            } else {
                assert(not_after(mid[i], mid[j]));
            }
        }
    }
}

/// Sorting a chart puts its notes in order and neither adds nor drops one.
pub proof fn lemma_sorted_notes_ordered(notes: Seq<NoteSpawn>)
    ensures
        in_chart_order(sorted_notes(notes)),
        sorted_notes(notes).to_multiset() == notes.to_multiset(),
        sorted_notes(notes).len() == notes.len(),
    decreases notes.len(),
{
    broadcast use vstd::seq_lib::group_to_multiset_ensures;

    if notes.len() == 0 {
        assert(notes =~= Seq::empty());
    } else {
        let front = notes.drop_last();
        lemma_sorted_notes_ordered(front);
        lemma_inserted_keeps_order(sorted_notes(front), notes.last());
        assert(notes =~= front.push(notes.last()));
        assert(sorted_notes(notes).to_multiset() =~= notes.to_multiset());
        sorted_notes(notes).to_multiset_ensures();
        notes.to_multiset_ensures();
    }
}

fn stands_after(a: &NoteSpawn, b: &NoteSpawn) -> (r: bool)
    ensures
        r == !not_after(*a, *b),
{
    a.bar > b.bar || (a.bar == b.bar && a.beat > b.beat)
}

/// Sorts the notes of a chart by bar and by beat inside the bar.
pub fn sort_spawn_notes(notes: &mut Vec<NoteSpawn>)
    ensures
        final(notes)@ == sorted_notes(old(notes)@),
{
    let mut sorted: Vec<NoteSpawn> = Vec::new();
    let mut i: usize = 0;
    while i < notes.len()
        invariant
            i <= notes.len(),
            notes@ == old(notes)@,
            sorted@ == sorted_notes(notes@.take(i as int)),
        decreases notes.len() - i,
    {
        let note = notes[i];
        let mut at: usize = sorted.len();
        while at > 0 && stands_after(&sorted[at - 1], &note)
            invariant
                at <= sorted.len(),
                forall|j: int| at <= j < sorted.len() ==> !not_after(sorted@[j], note),
            decreases at,
        {
            at -= 1;
        }
        proof {
            lemma_inserted_at(sorted@, note, at as int);
            assert(notes@.take(i + 1).drop_last() =~= notes@.take(i as int));
        }
        sorted.insert(at, note);
        i += 1;
    }
    proof {
        assert(notes@.take(i as int) =~= notes@);
    }
    *notes = sorted;
}

/// The bar lines that go with a chart whose last written note stands in
/// bar `last_bar`: one at the head of every bar up to the bar after that
/// one, as far as bars can be numbered.
pub open spec fn bar_lines(last_bar: u32) -> Seq<NoteSpawn> {
    Seq::new(
        if last_bar < u32::MAX {
            (last_bar + 2) as nat
        } else {
            (last_bar + 1) as nat
        },
        |bar: int| NoteSpawn { note_type: NoteType::BarLine, bar: bar as u32, beat: 0 },
    )
}

/// The bar of the note that a chart writes last; zero for an empty chart.
pub open spec fn last_bar_of(notes: Seq<NoteSpawn>) -> u32 {
    if notes.len() == 0 {
        0
    } else {
        notes.last().bar
    }
}

/// Adds the bar lines to the notes of a chart, behind the notes.
pub fn with_bar_lines(notes: Vec<NoteSpawn>) -> (r: Vec<NoteSpawn>)
    ensures
        r@ == notes@ + bar_lines(last_bar_of(notes@)),
{
    let mut notes = notes;
    let ghost written = notes@;
    let last_bar: u32 = if notes.len() == 0 {
        0
    } else {
        notes[notes.len() - 1].bar
    };
    let count: u64 = if last_bar < u32::MAX {
        last_bar as u64 + 2
    } else {
        last_bar as u64 + 1
    };
    let mut bar: u64 = 0;
    while bar < count
        invariant
            bar <= count,
            count == bar_lines(last_bar).len(),
            count <= 0x1_0000_0000,
            notes@ == written + bar_lines(last_bar).take(bar as int),
        decreases count - bar,
    {
        notes.push(NoteSpawn { note_type: NoteType::BarLine, bar: bar as u32, beat: 0 });
        proof {
            assert(notes@ =~= written + bar_lines(last_bar).take(bar + 1));
        }
        bar += 1;
    }
    proof {
        assert(bar_lines(last_bar).take(bar as int) =~= bar_lines(last_bar));
    }
    notes
}

/// Where a note stands in the chart, in thousandths of a beat from the
/// start, with `beats_per_bar` beats to the bar.
pub open spec fn position_of(note: NoteSpawn, beats_per_bar: u32) -> int {
    note.bar * beats_per_bar * 1000 + note.beat
}

/// The whole microseconds that `millibeats` thousandths of a beat take at a
/// tempo of `bpm` thousandths of a beat per minute, rounded down and held
/// at the largest `i64`. At tempo zero no beat ever ends.
pub open spec fn micros_of_beats(millibeats: int, bpm: u32) -> i64 {
    if bpm == 0 || millibeats * 60_000_000 / (bpm as int) > i64::MAX {
        i64::MAX
    } else {
        (millibeats * 60_000_000 / (bpm as int)) as i64
    }
}

/// A time `travel_time` microseconds before `target_time`, held at the
/// smallest `i64`.
pub open spec fn spawn_time_of(target_time: i64, travel_time: u64) -> i64 {
    if target_time - travel_time < i64::MIN {
        i64::MIN
    } else {
        (target_time - travel_time) as i64
    }
}

/// A note with its times: it reaches the judgment line when the beats
/// before it have passed, and appears `travel_time` before that.
pub open spec fn note_info_of(
    note: NoteSpawn,
    travel_time: u64,
    bpm: u32,
    beats_per_bar: u32,
) -> NoteInfo {
    NoteInfo {
        note_type: note.note_type,
        bar: note.bar,
        beat: note.beat,
        spawn_time: spawn_time_of(
            micros_of_beats(position_of(note, beats_per_bar), bpm),
            travel_time,
        ),
        target_time: micros_of_beats(position_of(note, beats_per_bar), bpm),
    }
}

fn note_info(note: &NoteSpawn, travel_time: u64, bpm: u32, beats_per_bar: u32) -> (r: NoteInfo)
    ensures
        r == note_info_of(*note, travel_time, bpm, beats_per_bar),
{
    let bars: u128 = note.bar as u128;
    let per_bar: u128 = beats_per_bar as u128;
    assert(bars * per_bar <= 0xFFFF_FFFF * 0xFFFF_FFFF) by (nonlinear_arith)
        requires
            0 <= bars <= 0xFFFF_FFFF,
            0 <= per_bar <= 0xFFFF_FFFF,
    ;
    let position: u128 = bars * per_bar * 1000 + note.beat as u128;
    let target_time: i64 = if bpm == 0 {
        i64::MAX
    } else {
        let micros: u128 = position * 60_000_000 / (bpm as u128);
        if micros > i64::MAX as u128 {
            i64::MAX
        } else {
            micros as i64
        }
    };
    let early: i128 = target_time as i128 - travel_time as i128;
    let spawn_time: i64 = if early < i64::MIN as i128 {
        i64::MIN
    } else {
        early as i64
    };
    NoteInfo { note_type: note.note_type, bar: note.bar, beat: note.beat, spawn_time, target_time }
}

/// Turns the notes of a chart into the notes of a round: sorted by their
/// place in the chart, each with the time at which it reaches the judgment
/// line and the time at which it appears.
pub fn to_notes_info_from_notes_spawn(
    spawn_notes: Vec<NoteSpawn>,
    travel_time: u64,
    initial_bpm: u32,
    initial_beat: u32,
) -> (r: Vec<NoteInfo>)
    ensures
        r@.len() == spawn_notes@.len(),
        forall|i: int|
            0 <= i < r@.len() ==> r@[i] == note_info_of(
                sorted_notes(spawn_notes@)[i],
                travel_time,
                initial_bpm,
                initial_beat,
            ),
{
    let mut sorted = spawn_notes;
    sort_spawn_notes(&mut sorted);
    proof {
        lemma_sorted_notes_ordered(spawn_notes@);
    }
    let mut notes: Vec<NoteInfo> = Vec::new();
    let mut i: usize = 0;
    while i < sorted.len()
        invariant
            i <= sorted.len(),
            notes@.len() == i,
            forall|j: int|
                0 <= j < i ==> notes@[j] == note_info_of(
                    sorted@[j],
                    travel_time,
                    initial_bpm,
                    initial_beat,
                ),
        decreases sorted.len() - i,
    {
        notes.push(note_info(&sorted[i], travel_time, initial_bpm, initial_beat));
        i += 1;
    }
    notes
}

} // verus!
