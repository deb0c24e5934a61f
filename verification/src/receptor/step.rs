use vstd::prelude::*;
use crate::constants::{longer_than_beats, MISS_THR};
use crate::events::CatchNoteEvent;
use crate::receptor::{lanes_marked, normal_key, NotesPattern};

verus! {

/// Two presses of a staircase must lie more than this many microseconds
/// apart, so that one press reported twice does not count as two steps.
pub const STEP_DEBOUNCE: i64 = 10_000;

/// How long after its last step a staircase stays open, in thousandths of
/// a beat, before [`MISS_THR`] is added: one beat.
pub const STEP_WINDOW: u32 = 1000;

/// State shared by the two staircase receptors.
pub ghost struct StepState {
    /// Lane of the last step taken, -1 before the first.
    pub last_lane: i32,
    /// Time of the last step taken.
    pub last_time: i64,
    /// Which of the four lanes have been stepped on.
    pub lane: Seq<bool>,
}

impl StepState {
    pub open spec fn initial() -> StepState {
        StepState { last_lane: -1i32, last_time: 0, lane: seq![false, false, false, false] }
    }

    /// A staircase is under way once one of its two starting lanes is
    /// marked: lanes 0 and 1 for a rising staircase, 2 and 3 for a falling one.
    pub open spec fn is_initial(self, rising: bool) -> bool {
        if rising {
            !self.lane[0] && !self.lane[1]
        } else {
            !self.lane[2] && !self.lane[3]
        }
    }

    /// Whether a staircase may begin in lane `key`.
    pub open spec fn starts_at(key: i32, rising: bool) -> bool {
        if rising {
            key == 0 || key == 1
        } else {
            key == 2 || key == 3
        }
    }

    /// The lane the next step has to land in.
    pub open spec fn next_lane(self, rising: bool) -> int {
        if rising {
            self.last_lane + 1
        } else {
            self.last_lane - 1
        }
    }

    /// The attempt is dropped once the clock is more than [`STEP_WINDOW`]
    /// plus [`MISS_THR`] away from the last step.
    pub open spec fn expire(self, current_time: i64, bpm: u32) -> StepState {
        let gap = if current_time >= self.last_time {
            current_time - self.last_time
        } else {
            self.last_time - current_time
        };
        if longer_than_beats(gap - MISS_THR, STEP_WINDOW as int, bpm as int) {
            Self::initial()
        } else {
            self
        }
    }

    /// The state with a step taken in lane `key` at `real_time`.
    pub open spec fn step_to(self, key: i32, real_time: i64) -> StepState {
        StepState { last_lane: key, last_time: real_time, lane: self.lane.update(key as int, true) }
    }

    /// Only plain notes in one of the four lanes count. One in a starting
    /// lane begins a staircase where none is under way. Otherwise a note is
    /// a step if it lands in the next lane more than [`STEP_DEBOUNCE`] after
    /// the last step. Every other event changes nothing.
    pub open spec fn accept(self, note_ev: CatchNoteEvent, rising: bool) -> StepState {
        match normal_key(note_ev) {
            Some(key) => if 0 <= key < 4 {
                if self.is_initial(rising) && Self::starts_at(key, rising) {
                    self.step_to(key, note_ev.real_time)
                } else if key == self.next_lane(rising) && note_ev.real_time - self.last_time
                    > STEP_DEBOUNCE {
                    self.step_to(key, note_ev.real_time)
                } else {
                    self
                }
            } else {
                self
            },
            None => self,
        }
    }

    /// A staircase is complete when exactly three lanes are marked.
    pub open spec fn outcome(self, pattern: NotesPattern) -> Option<NotesPattern> {
        if lanes_marked(self.lane) == 3 {
            Some(pattern)
        } else {
            None
        }
    }
}

} // verus!
