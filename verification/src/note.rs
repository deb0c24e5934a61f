use vstd::prelude::*;

verus! {

/// What kind of note a chart entry is, with the lane it falls in.
#[derive(Clone, Copy, Debug, PartialEq, Eq, Structural)]
pub enum NoteType {
    Normal { key: i32 },
    /// A bar line: drawn, never captured.
    BarLine,
    /// An invisible note the player may hit freely; letting it pass is no miss.
    AdLib { key: i32 },
    /// A held note: `length` is its duration in thousandths of a beat, `id`
    /// tells the events of one held note from those of another.
    Long { key: i32, length: u32, id: u32 },
}

/// A note kind without what cannot be counted by: the key under which
/// captures are tallied.
#[derive(Clone, Copy, Debug, PartialEq, Eq, Structural, Hash)]
pub enum NoteTypeKey {
    Normal { key: i32 },
    AdLib { key: i32 },
    Long { key: i32 },
    /// Kinds that are not tallied.
    Other,
}

impl NoteType {
    /// The tally key of this note kind.
    pub open spec fn key_of(self) -> NoteTypeKey {
        match self {
            NoteType::Normal { key } => NoteTypeKey::Normal { key },
            NoteType::AdLib { key } => NoteTypeKey::AdLib { key },
            NoteType::Long { key, length: _, id: _ } => NoteTypeKey::Long { key },
            NoteType::BarLine => NoteTypeKey::Other,
        }
    }
}

impl From<&NoteType> for NoteTypeKey {
    fn from(ty: &NoteType) -> (r: NoteTypeKey) {
        match ty {
            NoteType::Normal { key } => NoteTypeKey::Normal { key: *key },
            NoteType::AdLib { key } => NoteTypeKey::AdLib { key: *key },
            NoteType::Long { key, length: _, id: _ } => NoteTypeKey::Long { key: *key },
            NoteType::BarLine => NoteTypeKey::Other,
        }
    }
}

impl vstd::std_specs::convert::FromSpecImpl<&NoteType> for NoteTypeKey {
    open spec fn obeys_from_spec() -> bool {
        true
    }

    open spec fn from_spec(ty: &NoteType) -> NoteTypeKey {
        ty.key_of()
    }
}

impl From<NoteType> for NoteTypeKey {
    fn from(ty: NoteType) -> (r: NoteTypeKey) {
        NoteTypeKey::from(&ty)
    }
}

impl vstd::std_specs::convert::FromSpecImpl<NoteType> for NoteTypeKey {
    open spec fn obeys_from_spec() -> bool {
        true
    }

    open spec fn from_spec(ty: NoteType) -> NoteTypeKey {
        ty.key_of()
    }
}

/// One note of a chart as the chart places it.
#[derive(Clone, Copy, Debug, PartialEq, Eq, Structural)]
pub struct NoteSpawn {
    pub note_type: NoteType,
    /// Bar number, from zero.
    pub bar: u32,
    /// Position inside the bar in thousandths of a beat, from zero.
    pub beat: u32,
}

/// One note of a chart as the game plays it.
#[derive(Clone, Copy, Debug, PartialEq, Eq, Structural)]
pub struct NoteInfo {
    pub note_type: NoteType,
    /// Bar number, from zero.
    pub bar: u32,
    /// Position inside the bar in thousandths of a beat, from zero.
    pub beat: u32,
    /// When the note appears on screen.
    pub spawn_time: i64,
    /// When the note reaches the judgment line.
    pub target_time: i64,
}

/// A key lane, by its number.
#[derive(Clone, Copy, Debug, PartialEq, Eq, Structural)]
pub struct KeyLane(pub i32);

impl KeyLane {
    /// Number of key lanes.
    pub const KEY_NUM: u8 = 4;
}

/// Marks a note whose miss has been announced.
#[derive(Clone, Copy, Debug)]
pub struct MissingNote;

/// Where a held note stands.
#[derive(Clone, Copy, Debug, PartialEq, Eq, Structural)]
pub enum LongNoteState {
    /// Not yet captured, not yet missed.
    BeforeRetrieve,
    /// Being held.
    Hold,
    /// Missed or let go too early.
    Miss,
    /// Held to its end.
    End,
}

/// What a held note carries through its life.
#[derive(Clone, Copy, Debug)]
pub struct LongNote {
    pub state: LongNoteState,
}

impl LongNote {
    pub fn new() -> (r: Self)
        ensures
            r.state == LongNoteState::BeforeRetrieve,
    {
        Self { state: LongNoteState::BeforeRetrieve }
    }
}

} // verus!
