//! Pattern receptors: small automata that watch the stream of captured
//! notes and recognise arrangements worth a bonus.
//!
//! Each receptor starts in its initial state, moves on the notes it is fed,
//! may fall back to the initial state from anywhere, and reports a
//! [`NotesPattern`] when it reaches an accepting state.

use vstd::prelude::*;
use crate::events::CatchNoteEvent;

pub mod double_tap;
pub mod full_sync;
pub mod step;
pub mod step_left;
pub mod step_right;
pub mod step_trill;
pub mod trill;

pub use crate::receptor::double_tap::DoubleTapReceptor;
pub use crate::receptor::full_sync::FullSyncReceptor;
pub use crate::receptor::step_left::StepLeftReceptor;
pub use crate::receptor::step_right::StepRightReceptor;
pub use crate::receptor::step_trill::StepTrillReceptor;
pub use crate::receptor::trill::TrillReceptor;

verus! {

/// An arrangement of notes that earns a bonus.
#[derive(Clone, Copy, Debug, PartialEq, Eq, Structural)]
pub enum NotesPattern {
    /// Kept for a pattern that no receptor recognises yet.
    Denim,
    /// All four lanes at once.
    FullSync,
    /// A staircase running down the lanes.
    StepLeft,
    /// A staircase running up the lanes.
    StepRight,
    /// The same lane twice.
    DoubleTap,
    /// Two lanes in alternation, with the length of the run.
    Trill(u32),
    /// One lane over and over, with the length of the run.
    MultipleTap(u32),
    /// Three lanes swept back and forth, with the length of the run.
    StepTrill(u32),
}

impl NotesPattern {
    /// The bonus of a pattern; the length of a run does not change it.
    pub open spec fn score_of(self) -> nat {
        match self {
            NotesPattern::Denim => 2,
            _ => 1,
        }
    }

    /// What a pattern is called, without the length of its run.
    pub open spec fn name_of(self) -> Seq<char> {
        match self {
            NotesPattern::Denim => "Denim"@,
            NotesPattern::FullSync => "FullSync"@,
            NotesPattern::StepLeft => "StepLeft"@,
            NotesPattern::StepRight => "StepRight"@,
            NotesPattern::DoubleTap => "DoubleTap"@,
            NotesPattern::Trill(_) => "Trill"@,
            NotesPattern::MultipleTap(_) => "MultiTap"@,
            NotesPattern::StepTrill(_) => "StepTrill"@,
        }
    }

    /// The length of the run, for the patterns that are runs.
    pub open spec fn length_of(self) -> Option<u32> {
        match self {
            NotesPattern::Trill(length) => Some(length),
            NotesPattern::MultipleTap(length) => Some(length),
            NotesPattern::StepTrill(length) => Some(length),
            _ => None,
        }
    }

    pub fn name(&self) -> (r: &'static str)
        ensures
            r@ == self.name_of(),
    {
        match self {
            NotesPattern::Denim => "Denim",
            NotesPattern::FullSync => "FullSync",
            NotesPattern::StepLeft => "StepLeft",
            NotesPattern::StepRight => "StepRight",
            NotesPattern::DoubleTap => "DoubleTap",
            NotesPattern::Trill(_) => "Trill",
            NotesPattern::MultipleTap(_) => "MultiTap",
            NotesPattern::StepTrill(_) => "StepTrill",
        }
    }

    pub fn length(&self) -> (r: Option<u32>)
        ensures
            r == self.length_of(),
    {
        match self {
            NotesPattern::Trill(length) => Some(*length),
            NotesPattern::MultipleTap(length) => Some(*length),
            NotesPattern::StepTrill(length) => Some(*length),
            _ => None,
        }
    }

    pub fn to_score(self) -> (r: u32)
        ensures
            r == self.score_of(),
    {
        match self {
            NotesPattern::Denim => 2,
            _ => 1,
        }
    }
}

/// Marks a receptor with its name.
#[derive(Debug)]
pub struct PatternReceptorMarker(pub String);

/// The lane of an event, where the event is a plain note.
pub open spec fn normal_key(note_ev: CatchNoteEvent) -> Option<i32> {
    match note_ev.note.note_type {
        crate::note::NoteType::Normal { key } => Some(key),
        _ => None,
    }
}

/// Number of lanes marked in a four-lane record.
pub open spec fn lanes_marked(lane: Seq<bool>) -> int {
    (if lane[0] { 1int } else { 0int }) + (if lane[1] { 1int } else { 0int })
        + (if lane[2] { 1int } else { 0int }) + (if lane[3] { 1int } else { 0int })
}

/// What every pattern receptor offers.
///
/// The state of a receptor is its view, and each method's effect is one of
/// the transition functions below applied to that state.
pub trait PatternReceptor: View + Sized {
    /// What the receptor is called.
    const NAME: &'static str;

    /// The state before any note has been accepted.
    spec fn initial() -> Self::V;

    /// Whether no note has been accepted since the last reset.
    spec fn is_initial(state: Self::V) -> bool;

    /// The state after the clock check made at `current_time` under tempo `bpm`.
    spec fn expire(state: Self::V, current_time: i64, bpm: u32) -> Self::V;

    /// The state after one captured note.
    spec fn accept(state: Self::V, note_ev: CatchNoteEvent) -> Self::V;

    /// The pattern that a state stands for, if it is an accepting one.
    spec fn outcome(state: Self::V) -> Option<NotesPattern>;

    /// Whether the receptor takes part at all.
    spec fn available(state: Self::V) -> bool;

    /// The initial state counts as initial and reports nothing.
    proof fn lemma_initial_is_silent()
        ensures
            Self::is_initial(Self::initial()),
            Self::outcome(Self::initial()) is None,
    ;

    /// Returns to the initial state.
    fn init(&mut self)
        ensures
            final(self)@ == Self::initial(),
    ;

    fn initialized(&self) -> (r: bool)
        ensures
            r == Self::is_initial(self@),
    ;

    /// Called once per frame, before the frame's notes are fed: decides from
    /// the clock whether the attempt under way is abandoned.
    fn initialize_or_defer(&mut self, current_time: i64, bpm: u32)
        ensures
            final(self)@ == Self::expire(old(self)@, current_time, bpm),
    ;

    /// Feeds one captured note.
    fn input(&mut self, note_ev: &CatchNoteEvent)
        ensures
            final(self)@ == Self::accept(old(self)@, *note_ev),
    ;

    /// The completed pattern, if the receptor has seen one. The caller
    /// resets the receptor after a report, or it reports again.
    fn achieved(&self) -> (r: Option<NotesPattern>)
        ensures
            r == Self::outcome(self@),
    ;

    fn is_available(&self) -> (r: bool)
        ensures
            r == Self::available(self@),
    ;
}

} // verus!
