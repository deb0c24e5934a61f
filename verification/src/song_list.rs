use vstd::prelude::*;

verus! {

/// One entry of the song list as it is written down.
#[derive(Debug)]
pub struct SongDataParser {
    pub name: String,
    /// Name of the thumbnail image.
    pub thumbnail: String,
    pub config_file_name: String,
    /// Whether the chart is closed to the editor. It may be left out, and a
    /// chart is closed unless this says otherwise.
    pub edit_freeze: Option<bool>,
}

/// One entry of the song list.
#[derive(Debug, Clone)]
pub struct SongData {
    pub name: String,
    pub thumbnail: String,
    pub config_file_name: String,
    pub edit_freeze: bool,
}

impl SongData {
    /// The entry that a written entry stands for: one that does not say
    /// whether it is closed to the editor is closed.
    pub open spec fn of_parsed(data: SongDataParser) -> SongData {
        SongData {
            name: data.name,
            thumbnail: data.thumbnail,
            config_file_name: data.config_file_name,
            edit_freeze: match data.edit_freeze {
                Some(freeze) => freeze,
                None => true,
            },
        }
    }
}

impl From<SongDataParser> for SongData {
    fn from(data: SongDataParser) -> (r: SongData) {
        SongData {
            name: data.name,
            thumbnail: data.thumbnail,
            config_file_name: data.config_file_name,
            edit_freeze: match data.edit_freeze {
                Some(freeze) => freeze,
                None => true,
            },
        }
    }
}

impl vstd::std_specs::convert::FromSpecImpl<SongDataParser> for SongData {
    open spec fn obeys_from_spec() -> bool {
        true
    }

    open spec fn from_spec(data: SongDataParser) -> SongData {
        SongData::of_parsed(data)
    }
}

/// Every song there is to choose from.
pub struct AllSongData(pub Vec<SongData>);

impl AllSongData {
    /// Turns the entries of a song list into the songs to choose from, in
    /// the order of the list.
    pub fn from_parsed(parsed: Vec<SongDataParser>) -> (r: AllSongData)
        ensures
            r.0@.len() == parsed@.len(),
            forall|i: int| 0 <= i < parsed@.len() ==> r.0@[i] == SongData::of_parsed(parsed@[i]),
    {
        let mut songs: Vec<SongData> = Vec::new();
        for entry in iter: parsed.into_iter()
            invariant
                iter.seq() == parsed@,
                songs@.len() == iter.index(),
                forall|i: int| 0 <= i < songs@.len() ==> songs@[i] == SongData::of_parsed(parsed@[i]),
        {
            songs.push(SongData::from(entry));
        }
        AllSongData(songs)
    }
}

} // verus!
