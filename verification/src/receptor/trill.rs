use vstd::prelude::*;
use crate::constants::{exceeds_beats, longer_than_beats};
use crate::events::{AchievePatternEvent, CatchNoteEvent};
use crate::note::NoteType;
use crate::receptor::{normal_key, NotesPattern, PatternReceptor};
use crate::systems::receptor::{fed, frame_report, frame_state};

verus! {

/// How long after its last note a run stays unbroken, in thousandths of a
/// beat: half a beat and a tenth more.
pub const TRILL_WINDOW: u32 = 550;

/// A run must be longer than this to be reported.
pub const TRILL_MIN_LENGTH: u32 = 3;

/// Recognises two lanes played in alternation.
#[derive(Debug)]
pub struct TrillReceptor {
    lane: [i32; 2],
    /// Which of the two slots the last note fell in.
    last_lane: usize,
    last_time: i64,
    length: u32,
    /// Set when the run has ended; a run that is long enough is then
    /// reported.
    broken: bool,
}

/// State of a [`TrillReceptor`].
pub ghost struct TrillState {
    /// The two lanes of the run, each -1 until it is known.
    pub lane: Seq<i32>,
    /// Which of the two slots the last note fell in.
    pub last_lane: usize,
    /// Time of the last plain note fed.
    pub last_time: i64,
    /// Notes in the run so far; the count stops at the largest `u32`.
    pub length: u32,
    /// Whether the run has ended.
    pub broken: bool,
}

/// The slot that is not `slot`.
pub open spec fn other_slot(slot: usize) -> usize {
    if slot == 0 {
        1
    } else {
        0
    }
}

impl TrillState {
    pub open spec fn initial() -> TrillState {
        TrillState { lane: seq![-1i32, -1i32], last_lane: 0, last_time: 0, length: 0, broken: false }
    }

    pub open spec fn is_initial(self) -> bool {
        self.length == 0
    }

    /// A run that has ended is cleared. One that has not ends, without
    /// being cleared, once the clock is more than [`TRILL_WINDOW`] past its
    /// last note: it can so be reported before it is cleared.
    pub open spec fn expire(self, current_time: i64, bpm: u32) -> TrillState {
        if self.broken {
            Self::initial()
        } else if longer_than_beats(current_time - self.last_time, TRILL_WINDOW as int, bpm as int) {
            TrillState { broken: true, ..self }
        } else {
            self
        }
    }

    /// The run one note longer.
    pub open spec fn extended(self) -> TrillState {
        TrillState {
            length: if self.length < u32::MAX {
                (self.length + 1) as u32
            } else {
                self.length
            },
            ..self
        }
    }

    /// Only plain notes count, and each sets the time of the last note. The
    /// first two name the lanes of the run. A later one extends the run if
    /// it falls in the lane of the slot that was not played last, and ends
    /// the run, keeping its length, if it does not.
    pub open spec fn accept(self, note_ev: CatchNoteEvent) -> TrillState {
        match normal_key(note_ev) {
            Some(key) => {
                let s = TrillState { last_time: note_ev.real_time, ..self };
                if s.length == 0 {
                    TrillState { lane: s.lane.update(0, key), ..s }.extended()
                } else if s.length == 1 {
                    TrillState { lane: s.lane.update(1, key), last_lane: 1, ..s }.extended()
                } else if s.lane[other_slot(s.last_lane) as int] == key {
                    TrillState { last_lane: other_slot(s.last_lane), ..s }.extended()
                } else {
                    TrillState { broken: true, ..s }
                }
            },
            None => self,
        }
    }

    /// A run that has ended and is longer than [`TRILL_MIN_LENGTH`] is
    /// reported with its length: as a repeated tap where both slots hold
    /// the same lane, as a trill where they differ.
    pub open spec fn outcome(self) -> Option<NotesPattern> {
        if self.broken && self.length > TRILL_MIN_LENGTH {
            if self.lane[0] == self.lane[1] {
                Some(NotesPattern::MultipleTap(self.length))
            } else {
                Some(NotesPattern::Trill(self.length))
            }
        } else {
            None
        }
    }
}

impl View for TrillReceptor {
    type V = TrillState;

    closed spec fn view(&self) -> TrillState {
        TrillState {
            lane: self.lane@,
            last_lane: self.last_lane,
            last_time: self.last_time,
            length: self.length,
            broken: self.broken,
        }
    }
}

impl Default for TrillReceptor {
    fn default() -> (r: Self)
        ensures
            r@ == TrillState::initial(),
    {
        let r = Self { lane: [-1, -1], last_lane: 0, last_time: 0, length: 0, broken: false };
        assert(r.lane@ =~= seq![-1i32, -1i32]);
        r
    }
}

impl TrillReceptor {
    fn extend(&mut self)
        ensures
            final(self)@ == old(self)@.extended(),
    {
        if self.length < u32::MAX {
            self.length += 1;
        }
    }
}

impl PatternReceptor for TrillReceptor {
    const NAME: &'static str = "Trill";

    open spec fn initial() -> TrillState {
        TrillState::initial()
    }

    open spec fn is_initial(state: TrillState) -> bool {
        state.is_initial()
    }

    open spec fn expire(state: TrillState, current_time: i64, bpm: u32) -> TrillState {
        state.expire(current_time, bpm)
    }

    open spec fn accept(state: TrillState, note_ev: CatchNoteEvent) -> TrillState {
        state.accept(note_ev)
    }

    open spec fn outcome(state: TrillState) -> Option<NotesPattern> {
        state.outcome()
    }

    open spec fn available(state: TrillState) -> bool {
        true
    }

    proof fn lemma_initial_is_silent() {
    }

    fn init(&mut self) {
        self.lane = [-1, -1];
        self.last_lane = 0;
        self.last_time = 0;
        self.length = 0;
        self.broken = false;
        assert(self.lane@ =~= seq![-1i32, -1i32]);
    }

    fn initialized(&self) -> (r: bool) {
        self.length == 0
    }

    fn initialize_or_defer(&mut self, current_time: i64, bpm: u32) {
        if self.broken {
            self.init();
        } else {
            let elapsed: i128 = current_time as i128 - self.last_time as i128;
            if exceeds_beats(elapsed, TRILL_WINDOW, bpm) {
                self.broken = true;
            }
        }
    }

    fn input(&mut self, note_ev: &CatchNoteEvent) {
        if let NoteType::Normal { key } = note_ev.note.note_type {
            self.last_time = note_ev.real_time;
            let other: usize = if self.last_lane == 0 {
                1
            } else {
                0
            };
            if self.initialized() {
                self.lane[0] = key;
                assert(self.lane@ =~= old(self).lane@.update(0, key));
            } else if self.length == 1 {
                self.lane[1] = key;
                self.last_lane = 1;
                assert(self.lane@ =~= old(self).lane@.update(1, key));
            } else if self.lane[other] == key {
                self.last_lane = other;
            } else {
                self.broken = true;
                return ;
            }
            self.extend();
        }
    }

    fn achieved(&self) -> (r: Option<NotesPattern>) {
        if self.broken && self.length > TRILL_MIN_LENGTH {
            if self.lane[0] == self.lane[1] {
                Some(NotesPattern::MultipleTap(self.length))
            } else {
                Some(NotesPattern::Trill(self.length))
            }
        } else {
            None
        }
    }

    fn is_available(&self) -> (r: bool) {
        true
    }
}

/// Four plain notes that alternate between two lanes make a run of four
/// that has not ended.
pub proof fn lemma_alternation_of_four(note_events: Seq<CatchNoteEvent>, a: i32, b: i32)
    requires
        note_events.len() == 4,
        normal_key(note_events[0]) == Some(a),
        normal_key(note_events[1]) == Some(b),
        normal_key(note_events[2]) == Some(a),
        normal_key(note_events[3]) == Some(b),
    ensures
        fed::<TrillReceptor>(TrillState::initial(), note_events) == (TrillState {
            lane: seq![a, b],
            last_lane: 1,
            last_time: note_events[3].real_time,
            length: 4,
            broken: false,
        }),
{
    let s0 = TrillState::initial();
    let e1 = note_events.take(1);
    let e2 = note_events.take(2);
    let e3 = note_events.take(3);
    assert(e1.drop_last() =~= note_events.take(0));
    assert(e2.drop_last() =~= e1);
    assert(e3.drop_last() =~= e2);
    assert(note_events.drop_last() =~= e3);
    assert(fed::<TrillReceptor>(s0, note_events.take(0)) == s0);
    let s1 = fed::<TrillReceptor>(s0, e1);
    assert(s1 == s0.accept(note_events[0]));
    let s2 = fed::<TrillReceptor>(s0, e2);
    assert(s2 == s1.accept(note_events[1]));
    let s3 = fed::<TrillReceptor>(s0, e3);
    assert(s3 == s2.accept(note_events[2]));
    let s4 = fed::<TrillReceptor>(s0, note_events);
    assert(s4 == s3.accept(note_events[3]));
    assert(s4.lane =~= seq![a, b]);
}

/// A run that has not ended reports nothing, however long it is.
pub proof fn lemma_unbroken_run_is_silent(state: TrillState)
    requires
        !state.broken,
    ensures
        state.outcome() is None,
{
}

/// While the clock is within the window of the last note, a frame without
/// notes changes nothing and reports nothing.
pub proof fn lemma_run_waits(state: TrillState, current_time: i64, bpm: u32)
    requires
        !state.broken,
        !longer_than_beats(current_time - state.last_time, TRILL_WINDOW as int, bpm as int),
    ensures
        frame_report::<TrillReceptor>(state, Seq::empty(), current_time, bpm) is None,
        frame_state::<TrillReceptor>(state, Seq::empty(), current_time, bpm) == state,
{
}

/// A run longer than the minimum is reported once, by the first frame that
/// finds the clock past the window of its last note: that frame reports the
/// run with its length and clears the receptor, and the frame after it,
/// where it brings no notes, reports nothing.
pub proof fn lemma_run_reported_once(
    state: TrillState,
    current_time: i64,
    bpm: u32,
    next_time: i64,
    next_bpm: u32,
)
    requires
        !state.broken,
        state.length > TRILL_MIN_LENGTH,
        longer_than_beats(current_time - state.last_time, TRILL_WINDOW as int, bpm as int),
    ensures
        frame_report::<TrillReceptor>(state, Seq::empty(), current_time, bpm) == Some(
            AchievePatternEvent(
                if state.lane[0] == state.lane[1] {
                    NotesPattern::MultipleTap(state.length)
                } else {
                    NotesPattern::Trill(state.length)
                },
            ),
        ),
        frame_state::<TrillReceptor>(state, Seq::empty(), current_time, bpm)
            == TrillState::initial(),
        frame_report::<TrillReceptor>(TrillState::initial(), Seq::empty(), next_time, next_bpm)
            is None,
{
}

/// Two different lanes played in alternation four times and then left
/// alone are reported as a trill of four, once: not while the run can still
/// go on, then by the first frame that finds the clock past the window of
/// the fourth note, and not again by the frame after it.
pub proof fn lemma_trill_of_four_reported_once(
    note_events: Seq<CatchNoteEvent>,
    a: i32,
    b: i32,
    current_time: i64,
    bpm: u32,
    next_time: i64,
    next_bpm: u32,
)
    requires
        note_events.len() == 4,
        normal_key(note_events[0]) == Some(a),
        normal_key(note_events[1]) == Some(b),
        normal_key(note_events[2]) == Some(a),
        normal_key(note_events[3]) == Some(b),
        a != b,
        longer_than_beats(
            current_time - note_events[3].real_time,
            TRILL_WINDOW as int,
            bpm as int,
        ),
    ensures
        fed::<TrillReceptor>(TrillState::initial(), note_events).outcome() is None,
        frame_report::<TrillReceptor>(
            fed::<TrillReceptor>(TrillState::initial(), note_events),
            Seq::empty(),
            current_time,
            bpm,
        ) == Some(AchievePatternEvent(NotesPattern::Trill(4))),
        frame_report::<TrillReceptor>(
            frame_state::<TrillReceptor>(
                fed::<TrillReceptor>(TrillState::initial(), note_events),
                Seq::empty(),
                current_time,
                bpm,
            ),
            Seq::empty(),
            next_time,
            next_bpm,
        ) is None,
{
    lemma_alternation_of_four(note_events, a, b);
    let run = fed::<TrillReceptor>(TrillState::initial(), note_events);
    lemma_run_reported_once(run, current_time, bpm, next_time, next_bpm);
}

} // verus!
