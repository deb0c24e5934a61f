use vstd::prelude::*;
use crate::config::GameDifficulty;
use crate::events::{AchievePatternEvent, CatchNoteEvent};
use crate::receptor::double_tap::{DoubleTapReceptor, DoubleTapState};
use crate::receptor::full_sync::{FullSyncReceptor, FullSyncState};
use crate::receptor::step::StepState;
use crate::receptor::step_left::StepLeftReceptor;
use crate::receptor::step_right::StepRightReceptor;
use crate::receptor::trill::{TrillReceptor, TrillState};
use crate::receptor::PatternReceptor;
use crate::score::{ScoreResource, ScoreState};

verus! {

/// The state after the clock check that opens a frame. An initial state is
/// not checked: there is no attempt to abandon.
pub open spec fn rearmed<T: PatternReceptor>(state: T::V, current_time: i64, bpm: u32) -> T::V {
    if T::is_initial(state) {
        state
    } else {
        T::expire(state, current_time, bpm)
    }
}

/// The state after the notes `note_events` were fed in turn.
pub open spec fn fed<T: PatternReceptor>(state: T::V, note_events: Seq<CatchNoteEvent>) -> T::V
    decreases note_events.len(),
{
    if note_events.len() == 0 {
        state
    } else {
        T::accept(fed::<T>(state, note_events.drop_last()), note_events.last())
    }
}

/// The state in which a frame asks for a completed pattern: after the clock
/// check and then the frame's notes.
pub open spec fn pending<T: PatternReceptor>(
    state: T::V,
    note_events: Seq<CatchNoteEvent>,
    current_time: i64,
    bpm: u32,
) -> T::V {
    fed::<T>(rearmed::<T>(state, current_time, bpm), note_events)
}

/// What a frame reports. A receptor that does not take part reports nothing.
pub open spec fn frame_report<T: PatternReceptor>(
    state: T::V,
    note_events: Seq<CatchNoteEvent>,
    current_time: i64,
    bpm: u32,
) -> Option<AchievePatternEvent> {
    if !T::available(state) {
        None
    } else {
        match T::outcome(pending::<T>(state, note_events, current_time, bpm)) {
            Some(pattern) => Some(AchievePatternEvent(pattern)),
            None => None,
        }
    }
}

/// The state a frame leaves behind: the initial one after a report, so that
/// no pattern is reported twice. A receptor that does not take part keeps
/// its state.
pub open spec fn frame_state<T: PatternReceptor>(
    state: T::V,
    note_events: Seq<CatchNoteEvent>,
    current_time: i64,
    bpm: u32,
) -> T::V {
    if !T::available(state) {
        state
    } else if T::outcome(pending::<T>(state, note_events, current_time, bpm)) is Some {
        T::initial()
    } else {
        pending::<T>(state, note_events, current_time, bpm)
    }
}

/// Runs one receptor through one frame: the clock check if an attempt is
/// under way, then every note captured in the frame, then the question
/// whether a pattern is complete. A receptor that reports is reset at once.
pub fn receptor_pipeline<T: PatternReceptor>(
    receptor: &mut T,
    note_events: &Vec<CatchNoteEvent>,
    time_after_start: i64,
    bpm: u32,
) -> (r: Option<AchievePatternEvent>)
    ensures
        r == frame_report::<T>(old(receptor)@, note_events@, time_after_start, bpm),
        final(receptor)@ == frame_state::<T>(old(receptor)@, note_events@, time_after_start, bpm),
        r is Some ==> final(receptor)@ == T::initial(),
{
    if !receptor.is_available() {
        return None;
    }
    if !receptor.initialized() {
        receptor.initialize_or_defer(time_after_start, bpm);
    }
    let ghost start = receptor@;
    let mut i: usize = 0;
    while i < note_events.len()
        invariant
            i <= note_events.len(),
            receptor@ == fed::<T>(start, note_events@.take(i as int)),
        decreases note_events.len() - i,
    {
        receptor.input(&note_events[i]);
        proof {
            assert(note_events@.take(i + 1).drop_last() =~= note_events@.take(i as int));
        }
        i += 1;
    }
    proof {
        assert(note_events@.take(i as int) =~= note_events@);
    }
    match receptor.achieved() {
        Some(pattern) => {
            receptor.init();
            Some(AchievePatternEvent(pattern))
        },
        None => None,
    }
}

/// A pattern is reported once. The frame that reports leaves the receptor
/// in its initial state, so what the next frame reports depends on the
/// notes of that frame alone, and nothing is reported where it brings none,
/// however long the game waits.
pub proof fn lemma_report_then_silence<T: PatternReceptor>(
    state: T::V,
    note_events: Seq<CatchNoteEvent>,
    current_time: i64,
    bpm: u32,
    next_events: Seq<CatchNoteEvent>,
    next_time: i64,
    next_bpm: u32,
)
    requires
        frame_report::<T>(state, note_events, current_time, bpm) is Some,
    ensures
        frame_state::<T>(state, note_events, current_time, bpm) == T::initial(),
        frame_report::<T>(
            frame_state::<T>(state, note_events, current_time, bpm),
            next_events,
            next_time,
            next_bpm,
        ) == frame_report::<T>(T::initial(), next_events, next_time, next_bpm),
        frame_report::<T>(
            frame_state::<T>(state, note_events, current_time, bpm),
            Seq::empty(),
            next_time,
            next_bpm,
        ) is None,
        frame_state::<T>(
            frame_state::<T>(state, note_events, current_time, bpm),
            Seq::empty(),
            next_time,
            next_bpm,
        ) == T::initial(),
{
    T::lemma_initial_is_silent();
}

/// One receptor of each kind that is in play, and whether the difficulty
/// lets them take part. Receptors that do not take part are there all the
/// same, and stay as they are.
pub struct ReceptorSet {
    pub enabled: bool,
    pub full_sync: FullSyncReceptor,
    pub step_right: StepRightReceptor,
    pub step_left: StepLeftReceptor,
    pub double_tap: DoubleTapReceptor,
    pub trill: TrillReceptor,
}

/// The states of the receptors of a [`ReceptorSet`].
pub ghost struct ReceptorSetState {
    pub enabled: bool,
    pub full_sync: FullSyncState,
    pub step_right: StepState,
    pub step_left: StepState,
    pub double_tap: DoubleTapState,
    pub trill: TrillState,
}

/// The list `reports` with `report` at its end, if there is one.
pub open spec fn with_report(
    reports: Seq<AchievePatternEvent>,
    report: Option<AchievePatternEvent>,
) -> Seq<AchievePatternEvent> {
    match report {
        Some(ev) => reports.push(ev),
        None => reports,
    }
}

impl ReceptorSetState {
    /// Every receptor in its initial state.
    pub open spec fn initial(enabled: bool) -> ReceptorSetState {
        ReceptorSetState {
            enabled,
            full_sync: FullSyncState::initial(),
            step_right: StepState::initial(),
            step_left: StepState::initial(),
            double_tap: DoubleTapState::initial(),
            trill: TrillState::initial(),
        }
    }

    /// The states a frame leaves behind: each receptor goes through the
    /// frame by itself, on the same notes. Receptors that do not take part
    /// keep their states.
    pub open spec fn frame_state(
        self,
        note_events: Seq<CatchNoteEvent>,
        current_time: i64,
        bpm: u32,
    ) -> ReceptorSetState {
        if !self.enabled {
            self
        } else {
            ReceptorSetState {
                enabled: true,
                full_sync: frame_state::<FullSyncReceptor>(
                    self.full_sync,
                    note_events,
                    current_time,
                    bpm,
                ),
                step_right: frame_state::<StepRightReceptor>(
                    self.step_right,
                    note_events,
                    current_time,
                    bpm,
                ),
                step_left: frame_state::<StepLeftReceptor>(
                    self.step_left,
                    note_events,
                    current_time,
                    bpm,
                ),
                double_tap: frame_state::<DoubleTapReceptor>(
                    self.double_tap,
                    note_events,
                    current_time,
                    bpm,
                ),
                trill: frame_state::<TrillReceptor>(self.trill, note_events, current_time, bpm),
            }
        }
    }

    /// What a frame reports: the reports of the receptors in the order
    /// full sync, rising staircase, falling staircase, double tap, trill.
    /// Receptors that do not take part report nothing.
    pub open spec fn frame_reports(
        self,
        note_events: Seq<CatchNoteEvent>,
        current_time: i64,
        bpm: u32,
    ) -> Seq<AchievePatternEvent> {
        if !self.enabled {
            Seq::empty()
        } else {
            let r0 = Seq::<AchievePatternEvent>::empty();
            let r1 = with_report(
                r0,
                frame_report::<FullSyncReceptor>(self.full_sync, note_events, current_time, bpm),
            );
            let r2 = with_report(
                r1,
                frame_report::<StepRightReceptor>(self.step_right, note_events, current_time, bpm),
            );
            let r3 = with_report(
                r2,
                frame_report::<StepLeftReceptor>(self.step_left, note_events, current_time, bpm),
            );
            let r4 = with_report(
                r3,
                frame_report::<DoubleTapReceptor>(self.double_tap, note_events, current_time, bpm),
            );
            with_report(
                r4,
                frame_report::<TrillReceptor>(self.trill, note_events, current_time, bpm),
            )
        }
    }
}

impl View for ReceptorSet {
    type V = ReceptorSetState;

    open spec fn view(&self) -> ReceptorSetState {
        ReceptorSetState {
            enabled: self.enabled,
            full_sync: self.full_sync@,
            step_right: self.step_right@,
            step_left: self.step_left@,
            double_tap: self.double_tap@,
            trill: self.trill@,
        }
    }
}

/// Makes the receptors of a round, each in its initial state. They take
/// part where the difficulty recognises patterns.
pub fn setup_receptor(diff: &GameDifficulty) -> (r: ReceptorSet)
    ensures
        r@ == ReceptorSetState::initial(diff.recognises_patterns()),
{
    ReceptorSet {
        enabled: diff.patterns_enabled(),
        full_sync: FullSyncReceptor::default(),
        step_right: StepRightReceptor::default(),
        step_left: StepLeftReceptor::default(),
        double_tap: DoubleTapReceptor::default(),
        trill: TrillReceptor::default(),
    }
}

fn push_report(reports: &mut Vec<AchievePatternEvent>, report: Option<AchievePatternEvent>)
    ensures
        final(reports)@ == with_report(old(reports)@, report),
{
    match report {
        Some(ev) => {
            reports.push(ev);
        },
        None => {},
    }
}

impl ReceptorSet {
    /// Whether the receptors take part.
    pub fn is_enabled(&self) -> (r: bool)
        ensures
            r == self@.enabled,
    {
        self.enabled
    }

    /// Runs every receptor through one frame on the same notes. The
    /// receptors do not see each other: one note may advance several of
    /// them. Where the receptors do not take part nothing changes and
    /// nothing is reported.
    pub fn update(
        &mut self,
        note_events: &Vec<CatchNoteEvent>,
        time_after_start: i64,
        bpm: u32,
    ) -> (r: Vec<AchievePatternEvent>)
        ensures
            final(self)@ == old(self)@.frame_state(note_events@, time_after_start, bpm),
            r@ == old(self)@.frame_reports(note_events@, time_after_start, bpm),
    {
        let mut reports: Vec<AchievePatternEvent> = Vec::new();
        if !self.enabled {
            return reports;
        }
        let report = receptor_pipeline(&mut self.full_sync, note_events, time_after_start, bpm);
        push_report(&mut reports, report);
        let report = receptor_pipeline(&mut self.step_right, note_events, time_after_start, bpm);
        push_report(&mut reports, report);
        let report = receptor_pipeline(&mut self.step_left, note_events, time_after_start, bpm);
        push_report(&mut reports, report);
        let report = receptor_pipeline(&mut self.double_tap, note_events, time_after_start, bpm);
        push_report(&mut reports, report);
        let report = receptor_pipeline(&mut self.trill, note_events, time_after_start, bpm);
        push_report(&mut reports, report);
        reports
    }
}

/// The record after the patterns `achieved` were entered in turn.
pub open spec fn after_patterns(state: ScoreState, achieved: Seq<AchievePatternEvent>) -> ScoreState
    decreases achieved.len(),
{
    if achieved.len() == 0 {
        state
    } else {
        after_patterns(state, achieved.drop_last()).push_pattern(achieved.last().0)
    }
}

/// Enters the patterns completed in one frame.
pub fn achieve_pattern(score: &mut ScoreResource, achieved: &Vec<AchievePatternEvent>)
    ensures
        final(score)@ == after_patterns(old(score)@, achieved@),
{
    let mut i: usize = 0;
    while i < achieved.len()
        invariant
            i <= achieved.len(),
            score@ == after_patterns(old(score)@, achieved@.take(i as int)),
        decreases achieved.len() - i,
    {
        score.push_pattern(achieved[i].0);
        proof {
            assert(achieved@.take(i + 1).drop_last() =~= achieved@.take(i as int));
        }
        i += 1;
    }
    proof {
        assert(achieved@.take(i as int) =~= achieved@);
    }
}

} // verus!
