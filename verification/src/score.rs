use vstd::prelude::*;
use crate::constants::MISS_THR;
use crate::note::{NoteType, NoteTypeKey};
use crate::receptor::NotesPattern;
use crate::tally::{bump, CountStorage};

verus! {

/// Whether a capture came after or before the note was due.
#[derive(Clone, Copy, Debug, PartialEq, Eq, Structural, Hash)]
pub enum TimingEval {
    Slow,
    Fast,
}

impl TimingEval {
    /// What a direction is called.
    pub open spec fn label_of(self) -> Seq<char> {
        match self {
            TimingEval::Slow => "slow"@,
            TimingEval::Fast => "fast"@,
        }
    }

    pub fn label(&self) -> (r: &'static str)
        ensures
            r@ == self.label_of(),
    {
        match self {
            TimingEval::Slow => "slow",
            TimingEval::Fast => "fast",
        }
    }

    /// The other direction.
    pub open spec fn opposite(self) -> TimingEval {
        match self {
            TimingEval::Slow => TimingEval::Fast,
            TimingEval::Fast => TimingEval::Slow,
        }
    }
}

/// How well a note was captured. Every grade but `Perfect` and `Miss` says
/// on which side of the target the capture fell.
#[derive(Clone, Copy, Debug, PartialEq, Eq, Structural, Hash)]
pub enum CatchEval {
    Perfect,
    NearPerfect(TimingEval),
    Okay(TimingEval),
    Miss,
}

impl CatchEval {
    /// The grade of a capture `diff` microseconds after the note was due
    /// (before it, where `diff` is negative).
    ///
    /// With `T` for [`MISS_THR`]: beyond `T` on either side the note is
    /// missed; from `T/3` up to `T` it is `Okay`; from `T/6` up to, not
    /// including, `T/3` it is `NearPerfect`; strictly inside `T/6` it is
    /// `Perfect`. The thirds and sixths are compared exactly, by
    /// multiplying `diff` in place of dividing `T`.
    pub open spec fn of_delta(diff: int) -> CatchEval {
        if diff < -MISS_THR || diff > MISS_THR {
            CatchEval::Miss
        } else if 3 * diff <= -MISS_THR {
            CatchEval::Okay(TimingEval::Fast)
        } else if 6 * diff <= -MISS_THR {
            CatchEval::NearPerfect(TimingEval::Fast)
        } else if 6 * diff < MISS_THR {
            CatchEval::Perfect
        } else if 3 * diff < MISS_THR {
            CatchEval::NearPerfect(TimingEval::Slow)
        } else {
            CatchEval::Okay(TimingEval::Slow)
        }
    }

    /// The same grade with its direction turned round.
    pub open spec fn mirrored(self) -> CatchEval {
        match self {
            CatchEval::NearPerfect(t) => CatchEval::NearPerfect(t.opposite()),
            CatchEval::Okay(t) => CatchEval::Okay(t.opposite()),
            g => g,
        }
    }

    /// What a grade adds to the score.
    pub open spec fn score_of(self) -> nat {
        match self {
            CatchEval::Perfect => 2,
            CatchEval::NearPerfect(_) => 2,
            CatchEval::Okay(_) => 1,
            CatchEval::Miss => 0,
        }
    }

    /// What a grade is called; a near perfect capture is called perfect.
    pub open spec fn label_of(self) -> Seq<char> {
        match self {
            CatchEval::Perfect => "perfect"@,
            CatchEval::NearPerfect(_) => "perfect"@,
            CatchEval::Okay(_) => "ok"@,
            CatchEval::Miss => "miss"@,
        }
    }

    /// The direction a grade carries, if it carries one.
    pub open spec fn timing_of(self) -> Option<TimingEval> {
        match self {
            CatchEval::NearPerfect(t) => Some(t),
            CatchEval::Okay(t) => Some(t),
            _ => None,
        }
    }

    /// Grades a capture at `real_time` of a note due at `target_time`.
    pub fn new(target_time: i64, real_time: i64) -> (r: CatchEval)
        ensures
            r == Self::of_delta(real_time - target_time),
    {
        let diff: i128 = real_time as i128 - target_time as i128;
        let thr: i128 = MISS_THR as i128;
        if diff < -thr || diff > thr {
            CatchEval::Miss
        } else if 3 * diff <= -thr {
            CatchEval::Okay(TimingEval::Fast)
        } else if 6 * diff <= -thr {
            CatchEval::NearPerfect(TimingEval::Fast)
        } else if 6 * diff < thr {
            CatchEval::Perfect
        } else if 3 * diff < thr {
            CatchEval::NearPerfect(TimingEval::Slow)
        } else {
            CatchEval::Okay(TimingEval::Slow)
        }
    }

    pub fn label(&self) -> (r: &'static str)
        ensures
            r@ == self.label_of(),
    {
        match self {
            CatchEval::Perfect => "perfect",
            CatchEval::NearPerfect(_) => "perfect",
            CatchEval::Okay(_) => "ok",
            CatchEval::Miss => "miss",
        }
    }

    pub fn as_score(&self) -> (r: u32)
        ensures
            r == self.score_of(),
    {
        match self {
            CatchEval::Perfect => 2,
            CatchEval::NearPerfect(_) => 2,
            CatchEval::Okay(_) => 1,
            CatchEval::Miss => 0,
        }
    }

    pub fn get_timing(&self) -> (r: Option<TimingEval>)
        ensures
            r == self.timing_of(),
    {
        match self {
            CatchEval::Perfect => None,
            CatchEval::NearPerfect(timing) => Some(*timing),
            CatchEval::Okay(timing) => Some(*timing),
            CatchEval::Miss => None,
        }
    }
}

/// The integer under which the captures of a grade are counted.
pub closed spec fn eval_code(eval: CatchEval) -> u64 {
    match eval {
        CatchEval::Perfect => 0,
        CatchEval::NearPerfect(TimingEval::Slow) => 1,
        CatchEval::NearPerfect(TimingEval::Fast) => 2,
        CatchEval::Okay(TimingEval::Slow) => 3,
        CatchEval::Okay(TimingEval::Fast) => 4,
        CatchEval::Miss => 5,
    }
}

/// The integer under which the captures of a note kind are counted: the
/// lane, moved up to start at zero, in the low 32 bits and the kind above.
pub closed spec fn note_type_code(key: NoteTypeKey) -> u64 {
    match key {
        NoteTypeKey::Normal { key } => (key + 0x8000_0000) as u64,
        NoteTypeKey::AdLib { key } => (0x1_0000_0000 + key + 0x8000_0000) as u64,
        NoteTypeKey::Long { key } => (0x2_0000_0000 + key + 0x8000_0000) as u64,
        NoteTypeKey::Other => 0x3_0000_0000,
    }
}

fn code_of_eval(eval: &CatchEval) -> (r: u64)
    ensures
        r == eval_code(*eval),
{
    match eval {
        CatchEval::Perfect => 0,
        CatchEval::NearPerfect(TimingEval::Slow) => 1,
        CatchEval::NearPerfect(TimingEval::Fast) => 2,
        CatchEval::Okay(TimingEval::Slow) => 3,
        CatchEval::Okay(TimingEval::Fast) => 4,
        CatchEval::Miss => 5,
    }
}

fn code_of_note_type(key: &NoteTypeKey) -> (r: u64)
    ensures
        r == note_type_code(*key),
{
    match key {
        NoteTypeKey::Normal { key } => (*key as i64 + 0x8000_0000) as u64,
        NoteTypeKey::AdLib { key } => (0x1_0000_0000 + *key as i64 + 0x8000_0000) as u64,
        NoteTypeKey::Long { key } => (0x2_0000_0000 + *key as i64 + 0x8000_0000) as u64,
        NoteTypeKey::Other => 0x3_0000_0000,
    }
}

fn note_type_of_code(code: u64) -> (r: Option<NoteTypeKey>)
    ensures
        match r {
            Some(key) => note_type_code(key) == code,
            None => forall|key: NoteTypeKey| note_type_code(key) != code,
        },
{
    if code < 0x1_0000_0000 {
        Some(NoteTypeKey::Normal { key: (code as i64 - 0x8000_0000) as i32 })
    } else if code < 0x2_0000_0000 {
        Some(NoteTypeKey::AdLib { key: (code as i64 - 0x1_0000_0000 - 0x8000_0000) as i32 })
    } else if code < 0x3_0000_0000 {
        Some(NoteTypeKey::Long { key: (code as i64 - 0x2_0000_0000 - 0x8000_0000) as i32 })
    } else if code == 0x3_0000_0000 {
        Some(NoteTypeKey::Other)
    } else {
        None
    }
}

/// Different grades are counted under different integers, and so are
/// different note kinds.
proof fn lemma_codes_distinct()
    ensures
        forall|a: CatchEval, b: CatchEval| eval_code(a) == eval_code(b) ==> a == b,
        forall|a: NoteTypeKey, b: NoteTypeKey| note_type_code(a) == note_type_code(b) ==> a == b,
{
}

/// Every grade there is: the perfect one first, then the near perfect and
/// the passable ones, each late before early, and the miss last.
pub open spec fn all_grades() -> Seq<CatchEval> {
    seq![
        CatchEval::Perfect,
        CatchEval::NearPerfect(TimingEval::Slow),
        CatchEval::NearPerfect(TimingEval::Fast),
        CatchEval::Okay(TimingEval::Slow),
        CatchEval::Okay(TimingEval::Fast),
        CatchEval::Miss,
    ]
}

/// A score `points` higher, held at the largest `usize`.
pub open spec fn add_capped(score: usize, points: nat) -> usize {
    if score + points <= usize::MAX {
        (score + points) as usize
    } else {
        usize::MAX
    }
}

/// What a [`ScoreResource`] has on record.
pub ghost struct ScoreState {
    /// The score so far.
    pub score: usize,
    /// How often each grade was given; every grade has a count.
    pub evals: Map<CatchEval, u32>,
    /// How many notes of each kind were graded; every kind has a count.
    pub note_types: Map<NoteTypeKey, u32>,
    /// The patterns completed, first to last.
    pub patterns: Seq<NotesPattern>,
}

impl ScoreState {
    /// Nothing scored, nothing counted, nothing completed.
    pub open spec fn initial() -> ScoreState {
        ScoreState {
            score: 0,
            evals: Map::total(|e: CatchEval| 0u32),
            note_types: Map::total(|k: NoteTypeKey| 0u32),
            patterns: Seq::empty(),
        }
    }

    /// The record after a note of kind `ty` was graded `eval`: the grade and
    /// the kind are each counted once more and the grade's worth is added.
    pub open spec fn update_score(self, eval: CatchEval, ty: NoteType) -> ScoreState {
        ScoreState {
            score: add_capped(self.score, eval.score_of()),
            evals: self.evals.insert(eval, bump(self.evals[eval])),
            note_types: self.note_types.insert(ty.key_of(), bump(self.note_types[ty.key_of()])),
            patterns: self.patterns,
        }
    }

    /// The record with `points` more.
    pub open spec fn add_score(self, points: u32) -> ScoreState {
        ScoreState { score: add_capped(self.score, points as nat), ..self }
    }

    /// The record after `pattern` was completed: it goes to the end of the
    /// list and its bonus is added.
    pub open spec fn push_pattern(self, pattern: NotesPattern) -> ScoreState {
        ScoreState {
            score: add_capped(self.score, pattern.score_of()),
            patterns: self.patterns.push(pattern),
            ..self
        }
    }
}

/// The running score of a round with what it is made of.
pub struct ScoreResource {
    score: usize,
    /// How many notes of each kind were graded.
    note_type_storage: CountStorage,
    pattern_vec: Vec<NotesPattern>,
    /// How often each grade was given.
    eval_storage: CountStorage,
}

impl View for ScoreResource {
    type V = ScoreState;

    closed spec fn view(&self) -> ScoreState {
        ScoreState {
            score: self.score,
            evals: Map::total(|e: CatchEval| self.eval_storage.count(eval_code(e))),
            note_types: Map::total(|k: NoteTypeKey| self.note_type_storage.count(note_type_code(k))),
            patterns: self.pattern_vec@,
        }
    }
}

impl Default for ScoreResource {
    fn default() -> (r: Self)
        ensures
            r@ == ScoreState::initial(),
    {
        let r = Self {
            score: 0,
            note_type_storage: CountStorage::new(),
            pattern_vec: Vec::new(),
            eval_storage: CountStorage::new(),
        };
        assert(r@.evals =~= ScoreState::initial().evals);
        assert(r@.note_types =~= ScoreState::initial().note_types);
        r
    }
}

impl ScoreResource {
    /// Counts the grade and the note's kind, and adds the grade's worth.
    pub fn update_score(&mut self, catch_eval: &CatchEval, ty: &NoteType)
        ensures
            final(self)@ == old(self)@.update_score(*catch_eval, *ty),
    {
        proof {
            lemma_codes_distinct();
        }
        self.eval_storage.increment(code_of_eval(catch_eval));
        let ty_key = NoteTypeKey::from(ty);
        self.note_type_storage.increment(code_of_note_type(&ty_key));
        self.add_score(catch_eval.as_score());
        assert(self@.evals =~= old(self)@.update_score(*catch_eval, *ty).evals);
        assert(self@.note_types =~= old(self)@.update_score(*catch_eval, *ty).note_types);
    }

    pub fn add_score(&mut self, score: u32)
        ensures
            final(self)@ == old(self)@.add_score(score),
    {
        let room: usize = usize::MAX - self.score;
        if score as u64 <= room as u64 {
            self.score = self.score + score as usize;
        } else {
            self.score = usize::MAX;
        }
    }

    pub fn get_score(&self) -> (r: usize)
        ensures
            r == self@.score,
    {
        self.score
    }

    /// How often the grade `key` was given.
    pub fn get_eval_num(&self, key: &CatchEval) -> (r: u32)
        ensures
            r == self@.evals[*key],
    {
        self.eval_storage.get_count(code_of_eval(key))
    }

    /// The count of every grade, in the order of [`all_grades`].
    pub fn get_eval_storage(&self) -> (r: Vec<(CatchEval, u32)>)
        ensures
            r@.len() == all_grades().len(),
            forall|i: int|
                0 <= i < r@.len() ==> r@[i] == (all_grades()[i], self@.evals[all_grades()[i]]),
    {
        let grades = [
            CatchEval::Perfect,
            CatchEval::NearPerfect(TimingEval::Slow),
            CatchEval::NearPerfect(TimingEval::Fast),
            CatchEval::Okay(TimingEval::Slow),
            CatchEval::Okay(TimingEval::Fast),
            CatchEval::Miss,
        ];
        assert(grades@ =~= all_grades());
        let mut counts: Vec<(CatchEval, u32)> = Vec::new();
        let mut i: usize = 0;
        while i < 6
            invariant
                i <= 6,
                grades@ == all_grades(),
                counts@.len() == i,
                forall|j: int|
                    0 <= j < i ==> counts@[j] == (all_grades()[j], self@.evals[all_grades()[j]]),
            decreases 6 - i,
        {
            let grade = grades[i];
            counts.push((grade, self.get_eval_num(&grade)));
            i += 1;
        }
        counts
    }

    /// How many notes of the kind `key` were graded.
    pub fn get_note_type_num(&self, key: &NoteTypeKey) -> (r: u32)
        ensures
            r == self@.note_types[*key],
    {
        self.note_type_storage.get_count(code_of_note_type(key))
    }

    /// The count of every note kind of which a note was graded, in no
    /// particular order: no kind comes twice, each comes with its count,
    /// and no kind with a count above zero is left out.
    pub fn get_note_type_storage(&self) -> (r: Vec<(NoteTypeKey, u32)>)
        ensures
            forall|i: int, j: int| 0 <= i < j < r@.len() ==> r@[i].0 != r@[j].0,
            forall|i: int| 0 <= i < r@.len() ==> (#[trigger] r@[i]).1 == self@.note_types[r@[i].0],
            forall|key: NoteTypeKey| #[trigger]
                self@.note_types[key] > 0 ==> exists|i: int|
                    0 <= i < r@.len() && (#[trigger] r@[i]).0 == key,
    {
        let entries = self.note_type_storage.entries();
        let mut counts: Vec<(NoteTypeKey, u32)> = Vec::new();
        let ghost mut from: Seq<int> = Seq::empty();
        let mut n: usize = 0;
        while n < entries.len()
            invariant
                n <= entries.len(),
                from.len() == counts@.len(),
                forall|j: int|
                    0 <= j < from.len() ==> 0 <= #[trigger] from[j] < n && entries@[from[j]].0
                        == note_type_code(counts@[j].0) && entries@[from[j]].1 == counts@[j].1,
                forall|a: int, b: int| 0 <= a < b < from.len() ==> from[a] < from[b],
                forall|i: int, key: NoteTypeKey|
                    0 <= i < n && #[trigger] entries@[i].0 == #[trigger] note_type_code(key)
                        ==> exists|j: int| 0 <= j < counts@.len() && (#[trigger] counts@[j]).0 == key,
            decreases entries.len() - n,
        {
            let (code, count) = entries[n];
            proof {
                lemma_codes_distinct();
            }
            match note_type_of_code(code) {
                Some(key) => {
                    let ghost before = counts@;
                    counts.push((key, count));
                    proof {
                        from = from.push(n as int);
                        assert forall|i: int, k: NoteTypeKey|
                            0 <= i < n + 1 && #[trigger] entries@[i].0 == #[trigger] note_type_code(
                                k,
                            ) implies exists|j: int|
                            0 <= j < counts@.len() && (#[trigger] counts@[j]).0 == k by {
                            if i < n {
                                let j = choose|j: int|
                                    0 <= j < before.len() && (#[trigger] before[j]).0 == k;
                                assert(counts@[j].0 == k);
                            } else {
                                assert(counts@[counts@.len() - 1].0 == k);
                            }
                        }
                    }
                },
                None => {},
            }
            n += 1;
        }
        proof {
            lemma_codes_distinct();
            assert forall|i: int, j: int| 0 <= i < j < counts@.len() implies counts@[i].0
                != counts@[j].0 by {
                assert(from[i] < from[j]);
                assert(entries@[from[i]].0 != entries@[from[j]].0);
            }
            assert forall|i: int| 0 <= i < counts@.len() implies (#[trigger] counts@[i]).1
                == self@.note_types[counts@[i].0] by {
                let code = entries@[from[i]].0;
                assert(crate::tally::count_storage_entries(self.note_type_storage).contains_key(
                    code,
                ));
            }
            assert forall|key: NoteTypeKey| #[trigger] self@.note_types[key] > 0 implies exists|
                i: int,
            |
                0 <= i < counts@.len() && (#[trigger] counts@[i]).0 == key by {
                let code = note_type_code(key);
                assert(crate::tally::count_storage_entries(self.note_type_storage).contains_key(
                    code,
                ));
                let i = choose|i: int| 0 <= i < entries@.len() && #[trigger] entries@[i].0 == code;
                assert(entries@[i].0 == note_type_code(key));
            }
        }
        counts
    }

    /// Records a completed pattern and adds its bonus.
    pub fn push_pattern(&mut self, pattern: NotesPattern)
        ensures
            final(self)@ == old(self)@.push_pattern(pattern),
    {
        self.pattern_vec.push(pattern);
        self.add_score(pattern.to_score());
    }

    /// The patterns completed so far, first to last.
    pub fn get_pattern_vec(&self) -> (r: &Vec<NotesPattern>)
        ensures
            r@ == self@.patterns,
    {
        &self.pattern_vec
    }
}

/// A capture as late as another is early gets the same grade with the
/// direction turned round; `Perfect` and `Miss`, which carry no direction,
/// stay what they are.
pub proof fn lemma_judgment_symmetric(diff: int)
    ensures
        CatchEval::of_delta(-diff) == CatchEval::of_delta(diff).mirrored(),
{
}

/// Every timing difference has exactly one grade: the six conditions of the
/// grading table cover all differences and no two of them overlap.
pub proof fn lemma_judgment_total(diff: int)
    ensures
        CatchEval::of_delta(diff) == CatchEval::Miss <==> (diff < -MISS_THR || diff > MISS_THR),
        CatchEval::of_delta(diff) == CatchEval::Okay(TimingEval::Fast) <==> (-MISS_THR <= diff
            && 3 * diff <= -MISS_THR),
        CatchEval::of_delta(diff) == CatchEval::NearPerfect(TimingEval::Fast) <==> (-MISS_THR < 3
            * diff && 6 * diff <= -MISS_THR),
        CatchEval::of_delta(diff) == CatchEval::Perfect <==> (-MISS_THR < 6 * diff && 6 * diff
            < MISS_THR),
        CatchEval::of_delta(diff) == CatchEval::NearPerfect(TimingEval::Slow) <==> (MISS_THR <= 6
            * diff && 3 * diff < MISS_THR),
        CatchEval::of_delta(diff) == CatchEval::Okay(TimingEval::Slow) <==> (MISS_THR <= 3 * diff
            && diff <= MISS_THR),
{
}

/// One thing entered in the score: a graded note or a completed pattern.
pub ghost enum ScoreEntry {
    Eval(CatchEval, NoteType),
    Pattern(NotesPattern),
}

/// The record after `entries` were entered in turn.
pub open spec fn entered(state: ScoreState, entries: Seq<ScoreEntry>) -> ScoreState
    decreases entries.len(),
{
    if entries.len() == 0 {
        state
    } else {
        match entries.last() {
            ScoreEntry::Eval(eval, ty) => entered(state, entries.drop_last()).update_score(eval, ty),
            ScoreEntry::Pattern(pattern) => entered(state, entries.drop_last()).push_pattern(
                pattern,
            ),
        }
    }
}

/// No entry lowers the score.
pub proof fn lemma_entry_keeps_score(
    state: ScoreState,
    eval: CatchEval,
    ty: NoteType,
    pattern: NotesPattern,
    points: u32,
)
    ensures
        state.update_score(eval, ty).score >= state.score,
        state.push_pattern(pattern).score >= state.score,
        state.add_score(points).score >= state.score,
{
}

/// The score never goes down: after any entries it is at least what it was
/// after any smaller number of them.
pub proof fn lemma_score_never_decreases(state: ScoreState, entries: Seq<ScoreEntry>, n: int)
    requires
        0 <= n <= entries.len(),
    ensures
        entered(state, entries.take(n)).score <= entered(state, entries).score,
    decreases entries.len(),
{
    if n == entries.len() {
        assert(entries.take(n) =~= entries);
    } else {
        let front = entries.drop_last();
        lemma_score_never_decreases(state, front, n);
        assert(front.take(n) =~= entries.take(n));
    }
}

} // verus!
