use vstd::prelude::*;
use crate::constants::{exceeds_beats, longer_than_beats, MISS_THR};
use crate::events::{CatchNoteEvent, NoteEvalEvent};
use crate::note::{KeyLane, LongNote, LongNoteState, NoteInfo, NoteType};
use crate::score::CatchEval;
use crate::timer::FrameCounter;

verus! {

/// How many frames lie between two grades given to a held note.
pub const HOLD_INTERVAL: u64 = 12;

/// Whether the clock is within [`MISS_THR`] of `target_time`, on either side.
pub open spec fn in_catch_window(target_time: i64, time_after_start: i64) -> bool {
    target_time - MISS_THR <= time_after_start <= target_time + MISS_THR
}

/// The lane in which a note can be captured by a single press: that of a
/// plain or an ad-lib note.
pub open spec fn press_lane(note: NoteInfo) -> Option<i32> {
    match note.note_type {
        NoteType::Normal { key } => Some(key),
        NoteType::AdLib { key } => Some(key),
        _ => None,
    }
}

fn within_window(target_time: i64, time_after_start: i64) -> (r: bool)
    ensures
        r == in_catch_window(target_time, time_after_start),
{
    let diff: i128 = time_after_start as i128 - target_time as i128;
    -(MISS_THR as i128) <= diff && diff <= MISS_THR as i128
}

/// What the keys of one lane do in one frame.
#[derive(Clone, Copy, Debug)]
pub struct LaneInput {
    /// A key of the lane went down in this frame.
    pub just_pressed: bool,
    /// A key of the lane is down.
    pub pressed: bool,
    /// A key of the lane came up in this frame.
    pub just_released: bool,
}

/// What capturing a note announces.
#[derive(Clone, Copy, Debug)]
pub struct Caught {
    pub catch: CatchNoteEvent,
    pub eval: NoteEvalEvent,
}

/// Decides whether a press in `lane` captures `note`: the note is a plain or
/// an ad-lib note of that lane, the clock is within the catch window of its
/// target time, and a key of the lane has just gone down. A captured note is
/// announced and graded by the time of the press.
pub fn catch_notes(
    note: &NoteInfo,
    lane: &KeyLane,
    just_pressed: bool,
    time_after_start: i64,
    bpm: u32,
    beat: u32,
) -> (r: Option<Caught>)
    ensures
        r is Some <==> (press_lane(*note) == Some(lane.0) && in_catch_window(
            note.target_time,
            time_after_start,
        ) && just_pressed),
        r matches Some(c) ==> {
            &&& c.catch == (CatchNoteEvent { note: *note, real_time: time_after_start, bpm, beat })
            &&& c.eval == (NoteEvalEvent {
                eval: CatchEval::of_delta(time_after_start - note.target_time),
                note: *note,
            })
        },
{
    let in_lane = match note.note_type {
        NoteType::Normal { key } => key == lane.0,
        NoteType::BarLine => false,
        NoteType::AdLib { key } => key == lane.0,
        NoteType::Long { key: _, length: _, id: _ } => false,
    };
    if within_window(note.target_time, time_after_start) && in_lane && just_pressed {
        Some(
            Caught {
                catch: CatchNoteEvent::new(note, time_after_start, bpm, beat),
                eval: NoteEvalEvent::new(note, time_after_start),
            },
        )
    } else {
        None
    }
}

/// What one frame does to a held note.
pub ghost struct LongNoteStep {
    /// The state the note is left in.
    pub state: LongNoteState,
    /// Whether the note's frame counter goes back to zero.
    pub reset: bool,
    /// Whether a capture is announced.
    pub catch: bool,
    /// The grade that is announced, if one is.
    pub eval: Option<CatchEval>,
}

/// Whether the clock is between the start and the end of a note that lasts
/// `length` thousandths of a beat, both ends included.
pub open spec fn in_hold_span(target_time: i64, length: u32, time_after_start: i64, bpm: u32) -> bool {
    target_time <= time_after_start && !longer_than_beats(
        time_after_start - target_time,
        length as int,
        bpm as int,
    )
}

/// Whether the clock is within [`MISS_THR`] of the end of a note that lasts
/// `length` thousandths of a beat.
pub open spec fn in_release_window(
    target_time: i64,
    length: u32,
    time_after_start: i64,
    bpm: u32,
) -> bool {
    !longer_than_beats(time_after_start - target_time - MISS_THR, length as int, bpm as int) && (
    time_after_start - target_time + MISS_THR) * bpm >= length * 60_000_000
}

/// Whether a frame counter that shows `count` stands one frame before a
/// multiple of [`HOLD_INTERVAL`].
pub open spec fn on_hold_beat(count: u32) -> bool {
    (count + 1) % 12 == 0
}

/// The step of a held note of `length` thousandths of a beat, due at
/// `target_time`, in a frame in which its lane's keys do `keys`.
///
/// Before it is captured, a press inside the catch window captures it:
/// the capture is announced and graded, and the note is held. Failing that,
/// the note is missed once the clock is past the window, and while the clock
/// is past the target the counter is kept at zero. While it is held with
/// the key down and the clock inside the note, every twelfth frame
/// announces a capture graded perfect. Failing that, a release ends the
/// note if the clock is inside the release window and changes nothing if
/// not; without a release the note is missed once the clock is past the
/// catch window. A missed note is graded a miss every twelfth frame while
/// the clock is inside the note. An ended note does nothing.
pub open spec fn long_note_step(
    state: LongNoteState,
    count: u32,
    target_time: i64,
    length: u32,
    keys: LaneInput,
    time_after_start: i64,
    bpm: u32,
) -> LongNoteStep {
    match state {
        LongNoteState::BeforeRetrieve => {
            if in_catch_window(target_time, time_after_start) && keys.just_pressed {
                LongNoteStep {
                    state: LongNoteState::Hold,
                    reset: false,
                    catch: true,
                    eval: Some(CatchEval::of_delta(time_after_start - target_time)),
                }
            } else if time_after_start > target_time + MISS_THR {
                LongNoteStep { state: LongNoteState::Miss, reset: true, catch: false, eval: None }
            } else {
                LongNoteStep {
                    state,
                    reset: time_after_start > target_time,
                    catch: false,
                    eval: None,
                }
            }
        },
        LongNoteState::Hold => {
            if keys.pressed && in_hold_span(target_time, length, time_after_start, bpm) {
                if on_hold_beat(count) {
                    LongNoteStep { state, reset: false, catch: true, eval: Some(CatchEval::Perfect) }
                } else {
                    LongNoteStep { state, reset: false, catch: false, eval: None }
                }
            } else if keys.just_released {
                LongNoteStep {
                    state: if in_release_window(target_time, length, time_after_start, bpm) {
                        LongNoteState::End
                    } else {
                        state
                    },
                    reset: false,
                    catch: false,
                    eval: None,
                }
            } else if time_after_start > target_time + MISS_THR {
                LongNoteStep { state: LongNoteState::Miss, reset: false, catch: false, eval: None }
            } else {
                LongNoteStep { state, reset: false, catch: false, eval: None }
            }
        },
        LongNoteState::Miss => {
            if in_hold_span(target_time, length, time_after_start, bpm) && on_hold_beat(count) {
                LongNoteStep { state, reset: false, catch: false, eval: Some(CatchEval::Miss) }
            } else {
                LongNoteStep { state, reset: false, catch: false, eval: None }
            }
        },
        LongNoteState::End => LongNoteStep { state, reset: false, catch: false, eval: None },
    }
}

/// What a frame announces of a held note.
#[derive(Clone, Copy, Debug)]
pub struct LongNoteOutput {
    pub catch: Option<CatchNoteEvent>,
    pub eval: Option<NoteEvalEvent>,
}

fn hold_span(target_time: i64, length: u32, time_after_start: i64, bpm: u32) -> (r: bool)
    ensures
        r == in_hold_span(target_time, length, time_after_start, bpm),
{
    target_time <= time_after_start && !exceeds_beats(
        time_after_start as i128 - target_time as i128,
        length,
        bpm,
    )
}

fn release_window(target_time: i64, length: u32, time_after_start: i64, bpm: u32) -> (r: bool)
    ensures
        r == in_release_window(target_time, length, time_after_start, bpm),
{
    let elapsed: i128 = time_after_start as i128 - target_time as i128;
    let thr: i128 = MISS_THR as i128;
    let b: i128 = bpm as i128;
    let m: i128 = length as i128;
    assert(-0x1_0000_0000_0000_0000_0000_0000_0000 < (elapsed + thr) * b
        < 0x1_0000_0000_0000_0000_0000_0000_0000) by (nonlinear_arith)
        requires
            -0x1_0000_0000_0000_0000_0000 < elapsed + thr < 0x1_0000_0000_0000_0000_0000,
            0 <= b < 0x1_0000_0000,
    ;
    assert(0 <= m * 60_000_000 < 0x1_0000_0000_0000_0000) by (nonlinear_arith)
        requires
            0 <= m < 0x1_0000_0000,
    ;
    !exceeds_beats(elapsed - thr, length, bpm) && (elapsed + thr) * b >= m * 60_000_000
}

/// Takes a held note through one frame. Nothing happens to a note that is
/// not a held note of `lane`. For any other, the note's state, its counter
/// and what is announced are those of [`long_note_step`]; a capture is
/// announced with the time of the frame.
pub fn catch_long_notes(
    note: &NoteInfo,
    long_note: &mut LongNote,
    counter: &mut FrameCounter,
    lane: &KeyLane,
    keys: &LaneInput,
    time_after_start: i64,
    bpm: u32,
    beat: u32,
) -> (r: LongNoteOutput)
    ensures
        match note.note_type {
            NoteType::Long { key, length, id: _ } if key == lane.0 => {
                let step = long_note_step(
                    old(long_note).state,
                    old(counter)@.count,
                    note.target_time,
                    length,
                    *keys,
                    time_after_start,
                    bpm,
                );
                &&& final(long_note).state == step.state
                &&& final(counter)@.pause == old(counter)@.pause
                &&& final(counter)@.count == (if step.reset {
                    0
                } else {
                    old(counter)@.count
                })
                &&& r.catch == (if step.catch {
                    Some(CatchNoteEvent { note: *note, real_time: time_after_start, bpm, beat })
                } else {
                    None
                })
                &&& r.eval == (match step.eval {
                    Some(eval) => Some(NoteEvalEvent { eval, note: *note }),
                    None => None,
                })
            },
            _ => {
                &&& *final(long_note) == *old(long_note)
                &&& final(counter)@ == old(counter)@
                &&& r.catch is None
                &&& r.eval is None
            },
        },
{
    let silent = LongNoteOutput { catch: None, eval: None };
    let length = match note.note_type {
        NoteType::Long { key, length, id: _ } => {
            if key != lane.0 {
                return silent;
            }
            length
        },
        _ => {
            return silent;
        },
    };
    let target_time = note.target_time;
    let past_window = time_after_start as i128 > target_time as i128 + MISS_THR as i128;
    let on_beat = (counter.count() as u64 + 1) % HOLD_INTERVAL == 0;
    match long_note.state {
        LongNoteState::BeforeRetrieve => {
            if within_window(target_time, time_after_start) && keys.just_pressed {
                long_note.state = LongNoteState::Hold;
                LongNoteOutput {
                    catch: Some(CatchNoteEvent::new(note, time_after_start, bpm, beat)),
                    eval: Some(NoteEvalEvent::new(note, time_after_start)),
                }
            } else if past_window {
                long_note.state = LongNoteState::Miss;
                counter.reset();
                silent
            } else {
                if time_after_start > target_time {
                    counter.reset();
                }
                silent
            }
        },
        LongNoteState::Hold => {
            if keys.pressed && hold_span(target_time, length, time_after_start, bpm) {
                if on_beat {
                    LongNoteOutput {
                        catch: Some(CatchNoteEvent::new(note, time_after_start, bpm, beat)),
                        eval: Some(NoteEvalEvent { eval: CatchEval::Perfect, note: *note }),
                    }
                } else {
                    silent
                }
            } else if keys.just_released {
                if release_window(target_time, length, time_after_start, bpm) {
                    long_note.state = LongNoteState::End;
                }
                silent
            } else if past_window {
                long_note.state = LongNoteState::Miss;
                silent
            } else {
                silent
            }
        },
        LongNoteState::Miss => {
            if hold_span(target_time, length, time_after_start, bpm) && on_beat {
                LongNoteOutput {
                    catch: None,
                    eval: Some(NoteEvalEvent { eval: CatchEval::Miss, note: *note }),
                }
            } else {
                silent
            }
        },
        LongNoteState::End => silent,
    }
}

} // verus!
