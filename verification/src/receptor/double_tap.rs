use vstd::prelude::*;
use crate::constants::{exceeds_beats, longer_than_beats};
use crate::events::CatchNoteEvent;
use crate::note::NoteType;
use crate::receptor::{normal_key, NotesPattern, PatternReceptor};

verus! {

/// How long after its first tap an attempt stays open, in thousandths of a
/// beat.
pub const DOUBLE_TAP_WINDOW: u32 = 16_500;

/// Recognises the same lane tapped twice.
#[derive(Debug)]
pub struct DoubleTapReceptor {
    first_time: i64,
    lane: i32,
    num: u32,
}

/// State of a [`DoubleTapReceptor`].
pub ghost struct DoubleTapState {
    /// Time of the first tap.
    pub first_time: i64,
    /// Lane of the first tap, -1 before it.
    pub lane: i32,
    /// Taps counted so far; the count stops at the largest `u32`.
    pub num: u32,
}

impl DoubleTapState {
    pub open spec fn initial() -> DoubleTapState {
        DoubleTapState { first_time: 0, lane: -1i32, num: 0 }
    }

    pub open spec fn is_initial(self) -> bool {
        self.num == 0
    }

    /// The attempt is dropped once the clock is more than
    /// [`DOUBLE_TAP_WINDOW`] past the first tap.
    pub open spec fn expire(self, current_time: i64, bpm: u32) -> DoubleTapState {
        if longer_than_beats(
            current_time - self.first_time,
            DOUBLE_TAP_WINDOW as int,
            bpm as int,
        ) {
            Self::initial()
        } else {
            self
        }
    }

    /// The state with one more tap counted.
    pub open spec fn counted(self) -> DoubleTapState {
        DoubleTapState {
            num: if self.num < u32::MAX {
                (self.num + 1) as u32
            } else {
                self.num
            },
            ..self
        }
    }

    /// Only plain notes count. The first opens the attempt in its lane;
    /// later ones are counted where they fall in that lane and passed over
    /// where they do not.
    pub open spec fn accept(self, note_ev: CatchNoteEvent) -> DoubleTapState {
        match normal_key(note_ev) {
            Some(key) => if self.is_initial() {
                DoubleTapState { first_time: note_ev.real_time, lane: key, num: 1 }
            } else if self.lane == key {
                self.counted()
            } else {
                self
            },
            None => self,
        }
    }

    pub open spec fn outcome(self) -> Option<NotesPattern> {
        if self.num > 1 {
            Some(NotesPattern::DoubleTap)
        } else {
            None
        }
    }
}

impl View for DoubleTapReceptor {
    type V = DoubleTapState;

    closed spec fn view(&self) -> DoubleTapState {
        DoubleTapState { first_time: self.first_time, lane: self.lane, num: self.num }
    }
}

impl Default for DoubleTapReceptor {
    fn default() -> (r: Self)
        ensures
            r@ == DoubleTapState::initial(),
    {
        Self { first_time: 0, lane: -1, num: 0 }
    }
}

impl PatternReceptor for DoubleTapReceptor {
    const NAME: &'static str = "DoubleTap";

    open spec fn initial() -> DoubleTapState {
        DoubleTapState::initial()
    }

    open spec fn is_initial(state: DoubleTapState) -> bool {
        state.is_initial()
    }

    open spec fn expire(state: DoubleTapState, current_time: i64, bpm: u32) -> DoubleTapState {
        state.expire(current_time, bpm)
    }

    open spec fn accept(state: DoubleTapState, note_ev: CatchNoteEvent) -> DoubleTapState {
        state.accept(note_ev)
    }

    open spec fn outcome(state: DoubleTapState) -> Option<NotesPattern> {
        state.outcome()
    }

    open spec fn available(state: DoubleTapState) -> bool {
        true
    }

    proof fn lemma_initial_is_silent() {
    }

    fn init(&mut self) {
        self.first_time = 0;
        self.lane = -1;
        self.num = 0;
    }

    fn initialized(&self) -> (r: bool) {
        self.num == 0
    }

    fn initialize_or_defer(&mut self, current_time: i64, bpm: u32) {
        let elapsed: i128 = current_time as i128 - self.first_time as i128;
        if exceeds_beats(elapsed, DOUBLE_TAP_WINDOW, bpm) {
            self.init();
        }
    }

    fn input(&mut self, note_ev: &CatchNoteEvent) {
        if let NoteType::Normal { key } = note_ev.note.note_type {
            if self.initialized() {
                self.first_time = note_ev.real_time;
                self.lane = key;
                self.num = 1;
            } else if self.lane == key {
                if self.num < u32::MAX {
                    self.num += 1;
                }
            }
        }
    }

    fn achieved(&self) -> (r: Option<NotesPattern>) {
        if self.num > 1 {
            Some(NotesPattern::DoubleTap)
        } else {
            None
        }
    }

    fn is_available(&self) -> (r: bool) {
        true
    }
}

/// One note alone never completes the pattern.
pub proof fn lemma_single_tap_is_silent(note_ev: CatchNoteEvent)
    ensures
        DoubleTapState::initial().accept(note_ev).outcome() is None,
{
}

/// Two plain notes in the same lane complete the pattern.
pub proof fn lemma_two_taps_report(first: CatchNoteEvent, second: CatchNoteEvent)
    requires
        normal_key(first) is Some,
        normal_key(second) == normal_key(first),
    ensures
        DoubleTapState::initial().accept(first).accept(second).outcome() == Some(
            NotesPattern::DoubleTap,
        ),
{
}

/// Once an attempt is open, a note that is not a plain note in the
/// attempt's lane leaves the attempt as it is: it neither counts nor resets.
pub proof fn lemma_other_lane_is_passed_over(state: DoubleTapState, note_ev: CatchNoteEvent)
    requires
        !state.is_initial(),
        normal_key(note_ev) != Some(state.lane),
    ensures
        state.accept(note_ev) == state,
{
}

/// Two plain notes in the same lane complete the pattern also where a note
/// of another lane comes between them.
pub proof fn lemma_two_taps_report_across(
    first: CatchNoteEvent,
    between: CatchNoteEvent,
    second: CatchNoteEvent,
)
    requires
        normal_key(first) is Some,
        normal_key(second) == normal_key(first),
        normal_key(between) != normal_key(first),
    ensures
        DoubleTapState::initial().accept(first).accept(between).accept(second).outcome() == Some(
            NotesPattern::DoubleTap,
        ),
{
}

} // verus!
