use vstd::prelude::*;
use crate::note::NoteInfo;
use crate::receptor::NotesPattern;
use crate::score::CatchEval;

verus! {

/// Announces the grade a note was given, with the note it was given to.
#[derive(Clone, Copy, Debug)]
pub struct NoteEvalEvent {
    pub eval: CatchEval,
    pub note: NoteInfo,
}

impl NoteEvalEvent {
    /// Grades `note` as captured at `real_time`.
    pub fn new(note: &NoteInfo, real_time: i64) -> (r: Self)
        ensures
            r.eval == CatchEval::of_delta(real_time - note.target_time),
            r.note == *note,
    {
        Self { eval: CatchEval::new(note.target_time, real_time), note: *note }
    }
}

/// Announces that a note was captured.
#[derive(Clone, Copy, Debug)]
pub struct CatchNoteEvent {
    pub note: NoteInfo,
    /// When the note was in fact captured.
    pub real_time: i64,
    /// Tempo at the capture, in thousandths of a beat per minute.
    pub bpm: u32,
    /// Beats per bar at the capture.
    pub beat: u32,
}

impl CatchNoteEvent {
    pub fn new(note: &NoteInfo, real_time: i64, bpm: u32, beat: u32) -> (r: Self)
        ensures
            r == (CatchNoteEvent { note: *note, real_time, bpm, beat }),
    {
        Self { note: *note, real_time, bpm, beat }
    }
}

/// Announces that a pattern of notes was completed.
#[derive(Clone, Copy, Debug)]
pub struct AchievePatternEvent(pub NotesPattern);

} // verus!
