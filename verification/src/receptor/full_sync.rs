use vstd::prelude::*;
use crate::events::CatchNoteEvent;
use crate::note::NoteType;
use crate::receptor::{NotesPattern, PatternReceptor};
use crate::systems::receptor::fed;

verus! {

/// How far, in microseconds, the clock may be from the first press of an
/// attempt before the attempt is dropped.
pub const FULL_SYNC_SLACK: i64 = 100_000;

/// Recognises all four lanes pressed together.
#[derive(Debug)]
pub struct FullSyncReceptor {
    first_time: i64,
    lane: [bool; 4],
}

/// State of a [`FullSyncReceptor`].
pub ghost struct FullSyncState {
    /// Time of the first press of the attempt.
    pub first_time: i64,
    /// Which of the four lanes have been pressed.
    pub lane: Seq<bool>,
}

/// The lane that an event presses for this receptor: that of a plain or an
/// ad-lib note in one of the four lanes.
pub open spec fn sync_lane(note_ev: CatchNoteEvent) -> Option<int> {
    match note_ev.note.note_type {
        NoteType::Normal { key } | NoteType::AdLib { key } => if 0 <= key < 4 {
            Some(key as int)
        } else {
            None
        },
        _ => None,
    }
}

impl FullSyncState {
    /// A state records four lanes.
    pub open spec fn valid(self) -> bool {
        self.lane.len() == 4
    }

    pub open spec fn initial() -> FullSyncState {
        FullSyncState { first_time: 0, lane: seq![false, false, false, false] }
    }

    pub open spec fn is_initial(self) -> bool {
        !self.lane[0] && !self.lane[1] && !self.lane[2] && !self.lane[3]
    }

    /// The attempt is dropped once the clock is more than
    /// [`FULL_SYNC_SLACK`] away from its first press.
    pub open spec fn expire(self, current_time: i64) -> FullSyncState {
        if current_time - self.first_time > FULL_SYNC_SLACK || self.first_time - current_time
            > FULL_SYNC_SLACK {
            Self::initial()
        } else {
            self
        }
    }

    /// A press marks its lane; the first press of an attempt also sets the
    /// attempt's time. Other events change nothing.
    pub open spec fn accept(self, note_ev: CatchNoteEvent) -> FullSyncState {
        match sync_lane(note_ev) {
            Some(k) => FullSyncState {
                first_time: if self.is_initial() {
                    note_ev.real_time
                } else {
                    self.first_time
                },
                lane: self.lane.update(k, true),
            },
            None => self,
        }
    }

    pub open spec fn outcome(self) -> Option<NotesPattern> {
        if self.lane[0] && self.lane[1] && self.lane[2] && self.lane[3] {
            Some(NotesPattern::FullSync)
        } else {
            None
        }
    }
}

impl View for FullSyncReceptor {
    type V = FullSyncState;

    closed spec fn view(&self) -> FullSyncState {
        FullSyncState { first_time: self.first_time, lane: self.lane@ }
    }
}

impl Default for FullSyncReceptor {
    fn default() -> (r: Self)
        ensures
            r@ == FullSyncState::initial(),
    {
        let r = Self { first_time: 0, lane: [false, false, false, false] };
        assert(r.lane@ =~= seq![false, false, false, false]);
        r
    }
}

impl FullSyncReceptor {
    /// The state of a receptor is always a valid one.
    pub proof fn lemma_view_valid(&self)
        ensures
            self@.valid(),
    {
    }
}

impl PatternReceptor for FullSyncReceptor {
    const NAME: &'static str = "FullSync";

    open spec fn initial() -> FullSyncState {
        FullSyncState::initial()
    }

    open spec fn is_initial(state: FullSyncState) -> bool {
        state.is_initial()
    }

    open spec fn expire(state: FullSyncState, current_time: i64, bpm: u32) -> FullSyncState {
        state.expire(current_time)
    }

    open spec fn accept(state: FullSyncState, note_ev: CatchNoteEvent) -> FullSyncState {
        state.accept(note_ev)
    }

    open spec fn outcome(state: FullSyncState) -> Option<NotesPattern> {
        state.outcome()
    }

    open spec fn available(state: FullSyncState) -> bool {
        true
    }

    proof fn lemma_initial_is_silent() {
    }

    fn init(&mut self) {
        self.first_time = 0;
        self.lane = [false, false, false, false];
        assert(self.lane@ =~= seq![false, false, false, false]);
    }

    fn initialized(&self) -> (r: bool) {
        !self.lane[0] && !self.lane[1] && !self.lane[2] && !self.lane[3]
    }

    fn initialize_or_defer(&mut self, current_time: i64, bpm: u32) {
        let elapsed: i128 = current_time as i128 - self.first_time as i128;
        let slack: i128 = FULL_SYNC_SLACK as i128;
        if elapsed > slack || -elapsed > slack {
            self.init();
        }
    }

    fn input(&mut self, note_ev: &CatchNoteEvent) {
        match note_ev.note.note_type {
            NoteType::Normal { key } | NoteType::AdLib { key } => {
                if 0 <= key && key < 4 {
                    if self.initialized() {
                        self.first_time = note_ev.real_time;
                    }
                    self.lane[key as usize] = true;
                    assert(self.lane@ =~= old(self).lane@.update(key as int, true));
                }
            },
            _ => {},
        }
    }

    fn achieved(&self) -> (r: Option<NotesPattern>) {
        if self.lane[0] && self.lane[1] && self.lane[2] && self.lane[3] {
            Some(NotesPattern::FullSync)
        } else {
            None
        }
    }

    fn is_available(&self) -> (r: bool) {
        true
    }
}

/// Whether one of `note_events` presses lane `k`.
pub open spec fn presses(note_events: Seq<CatchNoteEvent>, k: int) -> bool {
    exists|i: int| 0 <= i < note_events.len() && sync_lane(#[trigger] note_events[i]) == Some(k)
}

/// Feeding notes marks exactly the lanes they press, whatever their order:
/// a lane is marked afterwards if it was marked before or one of the notes
/// presses it.
pub proof fn lemma_full_sync_marks(state: FullSyncState, note_events: Seq<CatchNoteEvent>, k: int)
    requires
        state.valid(),
        0 <= k < 4,
    ensures
        fed::<FullSyncReceptor>(state, note_events).valid(),
        fed::<FullSyncReceptor>(state, note_events).lane[k] == (state.lane[k] || presses(
            note_events,
            k,
        )),
    decreases note_events.len(),
{
    if note_events.len() > 0 {
        let front = note_events.drop_last();
        lemma_full_sync_marks(state, front, k);
        if presses(front, k) {
            let i = choose|i: int| 0 <= i < front.len() && sync_lane(#[trigger] front[i]) == Some(k);
            assert(note_events[i] == front[i]);
        }
        if presses(note_events, k) && sync_lane(note_events.last()) != Some(k) {
            let i = choose|i: int|
                0 <= i < note_events.len() && sync_lane(#[trigger] note_events[i]) == Some(k);
            assert(front[i] == note_events[i]);
        }
        if sync_lane(note_events.last()) == Some(k) {
            assert(sync_lane(note_events[note_events.len() - 1]) == Some(k));
        }
    }
}

/// Notes fed to a fresh receptor complete the pattern exactly when every
/// one of the four lanes is pressed by one of them. The order in which the
/// lanes arrive does not matter, and three lanes are never enough.
pub proof fn lemma_full_sync_complete(note_events: Seq<CatchNoteEvent>)
    ensures
        fed::<FullSyncReceptor>(FullSyncState::initial(), note_events).outcome() == (if presses(
            note_events,
            0,
        ) && presses(note_events, 1) && presses(note_events, 2) && presses(note_events, 3) {
            Some(NotesPattern::FullSync)
        } else {
            None
        }),
{
    lemma_full_sync_marks(FullSyncState::initial(), note_events, 0);
    lemma_full_sync_marks(FullSyncState::initial(), note_events, 1);
    lemma_full_sync_marks(FullSyncState::initial(), note_events, 2);
    lemma_full_sync_marks(FullSyncState::initial(), note_events, 3);
}

} // verus!
