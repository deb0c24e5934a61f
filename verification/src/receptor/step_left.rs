use vstd::prelude::*;
use crate::constants::{exceeds_beats, MISS_THR};
use crate::events::CatchNoteEvent;
use crate::note::NoteType;
use crate::receptor::step::{StepState, STEP_DEBOUNCE, STEP_WINDOW};
use crate::receptor::{lanes_marked, NotesPattern, PatternReceptor};

verus! {

/// Recognises a staircase of three lanes running down: 3, 2, 1 or 2, 1, 0.
#[derive(Debug)]
pub struct StepLeftReceptor {
    last_lane: i32,
    /// When the last step was taken.
    last_time: i64,
    lane: [bool; 4],
}

impl View for StepLeftReceptor {
    type V = StepState;

    closed spec fn view(&self) -> StepState {
        StepState { last_lane: self.last_lane, last_time: self.last_time, lane: self.lane@ }
    }
}

impl Default for StepLeftReceptor {
    fn default() -> (r: Self)
        ensures
            r@ == StepState::initial(),
    {
        let r = Self { last_lane: -1, last_time: 0, lane: [false, false, false, false] };
        assert(r.lane@ =~= seq![false, false, false, false]);
        r
    }
}

impl StepLeftReceptor {
    fn step_to(&mut self, key: i32, real_time: i64)
        requires
            0 <= key < 4,
        ensures
            final(self)@ == old(self)@.step_to(key, real_time),
    {
        self.lane[key as usize] = true;
        self.last_time = real_time;
        self.last_lane = key;
        assert(self.lane@ =~= old(self).lane@.update(key as int, true));
    }
}

impl PatternReceptor for StepLeftReceptor {
    const NAME: &'static str = "StepLeft";

    open spec fn initial() -> StepState {
        StepState::initial()
    }

    open spec fn is_initial(state: StepState) -> bool {
        state.is_initial(false)
    }

    open spec fn expire(state: StepState, current_time: i64, bpm: u32) -> StepState {
        state.expire(current_time, bpm)
    }

    open spec fn accept(state: StepState, note_ev: CatchNoteEvent) -> StepState {
        state.accept(note_ev, false)
    }

    open spec fn outcome(state: StepState) -> Option<NotesPattern> {
        state.outcome(NotesPattern::StepLeft)
    }

    open spec fn available(state: StepState) -> bool {
        true
    }

    proof fn lemma_initial_is_silent() {
    }

    fn init(&mut self) {
        self.last_lane = -1;
        self.last_time = 0;
        self.lane = [false, false, false, false];
        assert(self.lane@ =~= seq![false, false, false, false]);
    }

    fn initialized(&self) -> (r: bool) {
        !self.lane[2] && !self.lane[3]
    }

    fn initialize_or_defer(&mut self, current_time: i64, bpm: u32) {
        let elapsed: i128 = current_time as i128 - self.last_time as i128;
        let gap: i128 = if elapsed >= 0 {
            elapsed
        } else {
            -elapsed
        };
        if exceeds_beats(gap - MISS_THR as i128, STEP_WINDOW, bpm) {
            self.init();
        }
    }

    fn input(&mut self, note_ev: &CatchNoteEvent) {
        if let NoteType::Normal { key } = note_ev.note.note_type {
            if 0 <= key && key < 4 {
                let real_time = note_ev.real_time;
                if self.initialized() && (key == 2 || key == 3) {
                    self.step_to(key, real_time);
                } else if key as i64 == self.last_lane as i64 - 1 && real_time as i128
                    - self.last_time as i128 > STEP_DEBOUNCE as i128 {
                    self.step_to(key, real_time);
                }
            }
        }
    }

    fn achieved(&self) -> (r: Option<NotesPattern>) {
        let mut marked: u8 = 0;
        if self.lane[0] {
            marked += 1;
        }
        if self.lane[1] {
            marked += 1;
        }
        if self.lane[2] {
            marked += 1;
        }
        if self.lane[3] {
            marked += 1;
        }
        assert(marked == lanes_marked(self.lane@));
        if marked == 3 {
            Some(NotesPattern::StepLeft)
        } else {
            None
        }
    }

    fn is_available(&self) -> (r: bool) {
        true
    }
}

} // verus!
