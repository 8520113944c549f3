//! Catalogue entries, built from what a file's container reported.
use vstd::prelude::*;
use crate::track_id::{id_of, track_id};

verus! {

/// One audio file's catalogue entry.
pub struct Track {
    /// Stable identifier derived from `path`.
    pub id: String,
    /// Where the file lies.
    pub path: String,
    pub title: String,
    pub artist: String,
    pub album: String,
    /// Duration in milliseconds, from the stream's properties.
    pub duration_ms: u64,
    pub track_number: Option<u32>,
    pub year: Option<u32>,
    pub genre: Option<String>,
}

/// The fields of a file's primary tag; each may be missing.
pub struct TagFields {
    pub title: Option<String>,
    pub artist: Option<String>,
    pub album: Option<String>,
    pub track_number: Option<u32>,
    pub year: Option<u32>,
    pub genre: Option<String>,
}

/// What probing an audio file's container gave: its duration and its
/// primary tag, if it has one.
pub struct ProbedFile {
    pub duration_ms: u64,
    pub tag: Option<TagFields>,
}

/// Artist shown for a file whose tag names none.
pub open spec fn unknown_artist() -> Seq<char> {
    "Unknown Artist"@
}

/// Album shown for a file whose tag names none.
pub open spec fn unknown_album() -> Seq<char> {
    "Unknown Album"@
}

/// A text field of a tag, or `fallback` where the tag or the field is
/// missing.
pub open spec fn text_or(field: Option<String>, fallback: Seq<char>) -> Seq<char> {
    match field {
        Some(s) => s@,
        None => fallback,
    }
}

/// `t` is the catalogue entry for the file at `path` with file stem `stem`
/// whose container reported `probed`.
pub open spec fn is_track_of(t: Track, path: String, stem: String, probed: ProbedFile) -> bool {
    &&& t.id@ == id_of(path@)
    &&& t.path == path
    &&& t.duration_ms == probed.duration_ms
    &&& match probed.tag {
        Some(tag) => {
            &&& t.title@ == text_or(tag.title, stem@)
            &&& t.artist@ == text_or(tag.artist, unknown_artist())
            &&& t.album@ == text_or(tag.album, unknown_album())
            &&& t.track_number == tag.track_number
            &&& t.year == tag.year
            &&& t.genre == tag.genre
        },
        None => {
            &&& t.title@ == stem@
            &&& t.artist@ == unknown_artist()
            &&& t.album@ == unknown_album()
            &&& t.track_number is None
            &&& t.year is None
            &&& t.genre is None
        },
    }
}

/// Builds the catalogue entry for the file at `path`, given its file stem
/// and what probing its container gave. A file without a stem, or whose
/// container could not be probed, gives no entry. Missing tag fields fall
/// back to the stem, "Unknown Artist" and "Unknown Album".
pub fn parse_track(path: String, stem: Option<String>, probed: Option<ProbedFile>) -> (r: Option<Track>)
    ensures
        r is Some <==> (stem is Some && probed is Some),
        r is Some ==> is_track_of(r->0, path, stem->0, probed->0),
{
    let file_name = match stem {
        Some(s) => s,
        None => return None,
    };
    let id = track_id(path.as_str());
    let probed = match probed {
        Some(p) => p,
        None => return None,
    };
    let duration_ms = probed.duration_ms;
    match probed.tag {
        Some(tag) => {
            let title = match tag.title {
                Some(t) => t,
                None => file_name,
            };
            let artist = match tag.artist {
                Some(a) => a,
                None => "Unknown Artist".to_owned(),
            };
            let album = match tag.album {
                Some(a) => a,
                None => "Unknown Album".to_owned(),
            };
            Some(Track {
                id,
                path,
                title,
                artist,
                album,
                duration_ms,
                track_number: tag.track_number,
                year: tag.year,
                genre: tag.genre,
            })
        },
        None => Some(Track {
            id,
            path,
            title: file_name,
            artist: "Unknown Artist".to_owned(),
            album: "Unknown Album".to_owned(),
            duration_ms,
            track_number: None,
            year: None,
            genre: None,
        }),
    }
}

} // verus!
