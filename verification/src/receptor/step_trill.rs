use vstd::prelude::*;
use crate::constants::{exceeds_beats, longer_than_beats};
use crate::events::CatchNoteEvent;
use crate::note::NoteType;
use crate::receptor::trill::TRILL_WINDOW;
use crate::receptor::{normal_key, NotesPattern, PatternReceptor};

verus! {

/// A sweep must be longer than this to be reported.
pub const STEP_TRILL_MIN_LENGTH: u32 = 4;

/// Recognises three lanes swept back and forth: first, second, third,
/// second, first, second and so on. It is kept out of play: it says of
/// itself that it is not available.
#[derive(Debug)]
pub struct StepTrillReceptor {
    lane: [i32; 3],
    /// Which of the three slots the last note fell in.
    last_lane: usize,
    /// Whether the sweep is on its way from the first slot to the third.
    rising: bool,
    last_time: i64,
    length: u32,
    /// Set when the sweep has ended; one that is long enough is then
    /// reported.
    broken: bool,
}

/// State of a [`StepTrillReceptor`].
pub ghost struct StepTrillState {
    /// The three lanes of the sweep, each -1 until it is known.
    pub lane: Seq<i32>,
    /// Which of the three slots the last note fell in.
    pub last_lane: usize,
    /// Whether the sweep is on its way from the first slot to the third.
    pub rising: bool,
    /// Time of the last plain note fed.
    pub last_time: i64,
    /// Notes in the sweep so far; the count stops at the largest `u32`.
    pub length: u32,
    /// Whether the sweep has ended.
    pub broken: bool,
}

/// The slot that follows `slot` in a sweep: the middle one from either end,
/// and from the middle the end that the sweep is heading for.
pub open spec fn next_slot(slot: usize, rising: bool) -> usize {
    if slot != 1 {
        1
    } else if rising {
        2
    } else {
        0
    }
}

/// Where a sweep is heading once it stands in `slot`: it turns round at
/// either end and keeps its direction in the middle.
pub open spec fn heading_at(slot: usize, rising: bool) -> bool {
    if slot == 0 {
        true
    } else if slot == 1 {
        rising
    } else {
        false
    }
}

impl StepTrillState {
    pub open spec fn initial() -> StepTrillState {
        StepTrillState {
            lane: seq![-1i32, -1i32, -1i32],
            last_lane: 0,
            rising: true,
            last_time: 0,
            length: 0,
            broken: false,
        }
    }

    pub open spec fn is_initial(self) -> bool {
        self.length == 0
    }

    /// A sweep that has ended is cleared. One that has not ends, without
    /// being cleared, once the clock is more than [`TRILL_WINDOW`] past its
    /// last note.
    pub open spec fn expire(self, current_time: i64, bpm: u32) -> StepTrillState {
        if self.broken {
            Self::initial()
        } else if longer_than_beats(current_time - self.last_time, TRILL_WINDOW as int, bpm as int) {
            StepTrillState { broken: true, ..self }
        } else {
            self
        }
    }

    /// The sweep one note longer, with that note in `slot`.
    pub open spec fn moved_to(self, slot: usize) -> StepTrillState {
        StepTrillState {
            last_lane: slot,
            rising: heading_at(slot, self.rising),
            length: if self.length < u32::MAX {
                (self.length + 1) as u32
            } else {
                self.length
            },
            ..self
        }
    }

    /// Only plain notes count, and each sets the time of the last note. The
    /// first three name the lanes of the sweep, slot by slot. A later one
    /// extends the sweep if it falls in the lane of the slot that the sweep
    /// comes to next, and ends the sweep, keeping its length, if it does not.
    pub open spec fn accept(self, note_ev: CatchNoteEvent) -> StepTrillState {
        match normal_key(note_ev) {
            Some(key) => {
                let s = StepTrillState { last_time: note_ev.real_time, ..self };
                if s.length < 3 {
                    StepTrillState { lane: s.lane.update(s.length as int, key), ..s }.moved_to(
                        s.length as usize,
                    )
                } else if s.lane[next_slot(s.last_lane, s.rising) as int] == key {
                    s.moved_to(next_slot(s.last_lane, s.rising))
                } else {
                    StepTrillState { broken: true, ..s }
                }
            },
            None => self,
        }
    }

    /// A sweep that has ended and is longer than [`STEP_TRILL_MIN_LENGTH`]
    /// is reported with its length.
    pub open spec fn outcome(self) -> Option<NotesPattern> {
        if self.broken && self.length > STEP_TRILL_MIN_LENGTH {
            Some(NotesPattern::StepTrill(self.length))
        } else {
            None
        }
    }
}

impl View for StepTrillReceptor {
    type V = StepTrillState;

    closed spec fn view(&self) -> StepTrillState {
        StepTrillState {
            lane: self.lane@,
            last_lane: self.last_lane,
            rising: self.rising,
            last_time: self.last_time,
            length: self.length,
            broken: self.broken,
        }
    }
}

impl Default for StepTrillReceptor {
    fn default() -> (r: Self)
        ensures
            r@ == StepTrillState::initial(),
    {
        let r = Self {
            lane: [-1, -1, -1],
            last_lane: 0,
            rising: true,
            last_time: 0,
            length: 0,
            broken: false,
        };
        assert(r.lane@ =~= seq![-1i32, -1i32, -1i32]);
        r
    }
}

impl StepTrillReceptor {
    fn move_to(&mut self, slot: usize)
        ensures
            final(self)@ == old(self)@.moved_to(slot),
    {
        self.last_lane = slot;
        if slot == 0 {
            self.rising = true;
        } else if slot != 1 {
            self.rising = false;
        }
        if self.length < u32::MAX {
            self.length += 1;
        }
    }
}

impl PatternReceptor for StepTrillReceptor {
    const NAME: &'static str = "StepTrill";

    open spec fn initial() -> StepTrillState {
        StepTrillState::initial()
    }

    open spec fn is_initial(state: StepTrillState) -> bool {
        state.is_initial()
    }

    open spec fn expire(state: StepTrillState, current_time: i64, bpm: u32) -> StepTrillState {
        state.expire(current_time, bpm)
    }

    open spec fn accept(state: StepTrillState, note_ev: CatchNoteEvent) -> StepTrillState {
        state.accept(note_ev)
    }

    open spec fn outcome(state: StepTrillState) -> Option<NotesPattern> {
        state.outcome()
    }

    open spec fn available(state: StepTrillState) -> bool {
        false
    }

    proof fn lemma_initial_is_silent() {
    }

    fn init(&mut self) {
        self.lane = [-1, -1, -1];
        self.last_lane = 0;
        self.rising = true;
        self.last_time = 0;
        self.length = 0;
        self.broken = false;
        assert(self.lane@ =~= seq![-1i32, -1i32, -1i32]);
    }

    fn initialized(&self) -> (r: bool) {
        self.length == 0
    }

    fn initialize_or_defer(&mut self, current_time: i64, bpm: u32) {
        if self.broken {
            self.init();
        } else {
            let elapsed: i128 = current_time as i128 - self.last_time as i128;
            if exceeds_beats(elapsed, TRILL_WINDOW, bpm) {
                self.broken = true;
            }
        }
    }

    fn input(&mut self, note_ev: &CatchNoteEvent) {
        if let NoteType::Normal { key } = note_ev.note.note_type {
            self.last_time = note_ev.real_time;
            if self.length < 3 {
                let slot: usize = self.length as usize;
                self.lane[slot] = key;
                assert(self.lane@ =~= old(self).lane@.update(slot as int, key));
                self.move_to(slot);
            } else {
                let next: usize = if self.last_lane != 1 {
                    1
                } else if self.rising {
                    2
                } else {
                    0
                };
                if self.lane[next] == key {
                    self.move_to(next);
                } else {
                    self.broken = true;
                }
            }
        }
    }

    fn achieved(&self) -> (r: Option<NotesPattern>) {
        if self.broken && self.length > STEP_TRILL_MIN_LENGTH {
            Some(NotesPattern::StepTrill(self.length))
        } else {
            None
        }
    }

    fn is_available(&self) -> (r: bool) {
        false
    }
}

} // verus!
