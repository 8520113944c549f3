//! The library scanner's decisions: which files of a walked tree become
//! catalogue entries, and in what order. Files that cannot be probed are
//! skipped rather than reported; only an unwalkable root is an error.
use vstd::prelude::*;
use crate::error::MusicError;
use vstd::utf8::{encode_scalar, encode_utf8};
use crate::order::cmp_bytes;
use crate::order::{cmp_tracks, is_sorted, is_stable_arrangement, sort_tracks};
use crate::track::{is_track_of, parse_track, ProbedFile, TagFields, Track};

verus! {

/// What walking the tree found about one regular file.
pub struct ScannedFile {
    /// Where the file lies.
    pub path: String,
    /// The file name's extension as written, if it has one.
    pub extension: Option<String>,
    /// The file name without its extension, if it has one.
    pub stem: Option<String>,
    /// What probing the container gave; `None` where it could not be
    /// opened, probed or its properties read.
    pub probed: Option<ProbedFile>,
}

/// The lower-case form of a text, as `str::to_lowercase` gives it.
pub uninterp spec fn lower_of(s: Seq<char>) -> Seq<char>;

/// An ASCII text with no upper-case letter.
pub open spec fn is_ascii_without_upper(s: Seq<char>) -> bool {
    forall|i: int| 0 <= i < s.len() ==> (#[trigger] s[i] as u32) < 128 && !(65 <= (s[i] as u32) <= 90)
}

/// Relies on `str::to_lowercase`: its result depends on the characters
/// alone, and characters without an upper-case form (ASCII lower-case
/// letters, digits, punctuation) are kept.
#[verifier::external_body]
fn lowercase(s: &str) -> (r: String)
    ensures
        r@ == lower_of(s@),
        is_ascii_without_upper(s@) ==> r@ == s@,
{
    s.to_lowercase()
}

/// The lower-case extensions of the supported containers.
pub open spec fn is_supported_lowered(ext: Seq<char>) -> bool {
    ||| ext == "mp3"@
    ||| ext == "flac"@
    ||| ext == "wav"@
    ||| ext == "ogg"@
    ||| ext == "m4a"@
    ||| ext == "aac"@
}

/// Whether an extension already in lower case names a supported container.
pub fn is_supported_lowered_extension(ext: &String) -> (r: bool)
    ensures
        r == is_supported_lowered(ext@),
{
    let names = ["mp3", "flac", "wav", "ogg", "m4a", "aac"];
    let mut i: usize = 0;
    while i < names.len()
        invariant
            names@ == seq!["mp3", "flac", "wav", "ogg", "m4a", "aac"],
            forall|k: int| 0 <= k < i ==> ext@ != (#[trigger] names@[k])@,
        decreases names@.len() - i,
    {
        let name = names[i].to_owned();
        if *ext == name {
            return true;
        }
        i = i + 1;
    }
    proof {
        assert(ext@ != names@[0]@ && ext@ != names@[1]@ && ext@ != names@[2]@);
        assert(ext@ != names@[3]@ && ext@ != names@[4]@ && ext@ != names@[5]@);
    }
    false
}

/// Whether a file extension names a supported container, case aside.
pub fn is_supported_extension(ext: &str) -> (r: bool)
    ensures
        r == is_supported_lowered(lower_of(ext@)),
        is_ascii_without_upper(ext@) ==> r == is_supported_lowered(ext@),
{
    let lowered = lowercase(ext);
    is_supported_lowered_extension(&lowered)
}

/// A scanned file becomes a catalogue entry: its extension is supported,
/// it has a stem, and its container was probed.
pub open spec fn accepts(f: ScannedFile) -> bool {
    &&& f.extension is Some
    &&& is_supported_lowered(lower_of(f.extension->0@))
    &&& f.stem is Some
    &&& f.probed is Some
}

/// The scanned files that become entries, in walk order.
pub open spec fn accepted(files: Seq<ScannedFile>) -> Seq<ScannedFile> {
    files.filter(|f: ScannedFile| accepts(f))
}

/// `tracks` holds, position by position, the entries for `files`.
pub open spec fn entries_of(tracks: Seq<Track>, files: Seq<ScannedFile>) -> bool {
    &&& tracks.len() == files.len()
    &&& forall|k: int| 0 <= k < files.len() ==> is_track_of(
        #[trigger] tracks[k],
        files[k].path,
        files[k].stem->0,
        files[k].probed->0,
    )
}

/// Builds the entries of the accepted files, in walk order; every other
/// file is skipped.
pub fn collect_tracks(files: Vec<ScannedFile>) -> (r: Vec<Track>)
    ensures
        entries_of(r@, accepted(files@)),
{
    let mut rest = files;
    let mut out: Vec<Track> = Vec::new();
    let ghost all = rest@;
    let ghost mut taken: Seq<ScannedFile> = Seq::empty();
    proof {
        reveal(Seq::filter);
        assert(accepted(taken) =~= Seq::<ScannedFile>::empty());
    }
    while rest.len() > 0
        invariant
            all == taken + rest@,
            entries_of(out@, accepted(taken)),
        decreases rest@.len(),
    {
        let f = rest.remove(0);
        let ghost g = f;
        proof {
            reveal(Seq::filter);
            assert(taken.push(g).drop_last() =~= taken);
            assert(taken.push(g) + rest@ =~= all);
            taken = taken.push(g);
        }
        let ScannedFile { path, extension, stem, probed } = f;
        let keep = match &extension {
            Some(e) => is_supported_extension(e.as_str()),
            None => false,
        };
        if keep {
            if let Some(t) = parse_track(path, stem, probed) {
                out.push(t);
            }
        }
    }
    proof {
        assert(taken =~= all);
    }
    out
}

/// Builds the sorted catalogue from the files that walking the tree found.
/// Fails with `TraversalError` exactly when the root could not be walked.
/// Otherwise the result holds one entry per accepted file and no other,
/// in catalogue order, entries that compare equal in walk order.
pub fn scan_directory(root_walkable: bool, files: Vec<ScannedFile>) -> (r: Result<Vec<Track>, MusicError>)
    ensures
        r is Err <==> !root_walkable,
        r is Err ==> r->Err_0 == MusicError::TraversalError,
        r is Ok ==> is_sorted(r->Ok_0@),
        r is Ok ==> exists|c: Seq<Track>, p: Seq<int>|
            entries_of(c, accepted(files@)) && #[trigger] is_stable_arrangement(r->Ok_0@, c, p),
{
    if !root_walkable {
        return Err(MusicError::TraversalError);
    }
    let tracks = collect_tracks(files);
    let ghost c = tracks@;
    let sorted = sort_tracks(tracks);
    let r = Ok(sorted);
    proof {
        let p = choose|p: Seq<int>| is_stable_arrangement(r->Ok_0@, c, p);
        assert(entries_of(c, accepted(files@)) && is_stable_arrangement(r->Ok_0@, c, p));
    }
    r
}

/// A file whose extension lower-cases to `ext`, with a stem.
pub open spec fn has_extension(f: ScannedFile, ext: Seq<char>) -> bool {
    f.extension is Some && lower_of(f.extension->0@) == ext && f.stem is Some
}

/// Scanning a readable mp3, an mp3 whose container could not be probed
/// (a corrupt file) and a text file yields exactly one entry: the one for
/// the readable mp3. `r` is any result that `scan_directory` may return
/// for these files, `c` and `p` the entries and arrangement its contract
/// names.
pub proof fn lemma_scan_skips_corrupt_and_text(
    good: ScannedFile,
    corrupt: ScannedFile,
    notes: ScannedFile,
    r: Seq<Track>,
    c: Seq<Track>,
    p: Seq<int>,
)
    requires
        has_extension(good, "mp3"@),
        good.probed is Some,
        has_extension(corrupt, "mp3"@),
        corrupt.probed is None,
        has_extension(notes, "txt"@),
        entries_of(c, accepted(seq![good, corrupt, notes])),
        is_stable_arrangement(r, c, p),
    ensures
        r.len() == 1,
        is_track_of(r[0], good.path, good.stem->0, good.probed->0),
{
    reveal(Seq::filter);
    reveal_strlit("mp3");
    reveal_strlit("txt");
    reveal_strlit("flac");
    reveal_strlit("wav");
    reveal_strlit("ogg");
    reveal_strlit("m4a");
    reveal_strlit("aac");
    let files = seq![good, corrupt, notes];
    assert(accepts(good));
    assert(!accepts(corrupt));
    assert(seq![good].drop_last() =~= Seq::<ScannedFile>::empty());
    assert(accepted(seq![good]) =~= seq![good]);
    assert(seq![good, corrupt].drop_last() =~= seq![good]);
    assert(accepted(seq![good, corrupt]) =~= seq![good]);
    assert(files.drop_last() =~= seq![good, corrupt]);
    assert("txt"@ != "mp3"@ && "txt"@ != "aac"@ && "txt"@ != "ogg"@ && "txt"@ != "wav"@) by {
        assert("txt"@[0] != "mp3"@[0]);
        assert("txt"@[0] != "aac"@[0]);
        assert("txt"@[0] != "ogg"@[0]);
        assert("txt"@[0] != "wav"@[0]);
    }
    assert("txt"@ != "flac"@ && "txt"@ != "m4a"@) by {
        assert("txt"@.len() != "flac"@.len());
        assert("txt"@[0] != "m4a"@[0]);
    }
    assert(!accepts(notes));
    assert(accepted(files) =~= seq![good]);
    assert(p[0] == 0);
}

/// A tagged mp3 whose primary tag names `artist`.
pub open spec fn is_tagged_mp3_by(f: ScannedFile, artist: Seq<char>) -> bool {
    &&& has_extension(f, "mp3"@)
    &&& f.probed is Some
    &&& f.probed->0.tag is Some
    &&& f.probed->0.tag->0.artist is Some
    &&& f.probed->0.tag->0.artist->0@ == artist
}

/// Scanning a track by Radiohead and one by ABBA, in either walk order,
/// lists ABBA's first: artists are compared by their bytes.
pub proof fn lemma_scan_orders_by_artist(
    files: Seq<ScannedFile>,
    radiohead: ScannedFile,
    abba: ScannedFile,
    r: Seq<Track>,
    c: Seq<Track>,
    p: Seq<int>,
)
    requires
        is_tagged_mp3_by(radiohead, "Radiohead"@),
        is_tagged_mp3_by(abba, "ABBA"@),
        files == seq![radiohead, abba] || files == seq![abba, radiohead],
        entries_of(c, accepted(files)),
        is_stable_arrangement(r, c, p),
        is_sorted(r),
    ensures
        r.len() == 2,
        r[0].artist@ == "ABBA"@,
        r[1].artist@ == "Radiohead"@,
{
    reveal(Seq::filter);
    reveal_strlit("mp3");
    reveal_strlit("ABBA");
    reveal_strlit("Radiohead");
    assert(accepts(radiohead) && accepts(abba));
    assert(seq![files[0]].drop_last() =~= Seq::<ScannedFile>::empty());
    assert(accepted(seq![files[0]]) =~= seq![files[0]]);
    assert(files.drop_last() =~= seq![files[0]]);
    assert(accepted(files) =~= files);
    let a = "ABBA"@;
    let b = "Radiohead"@;
    assert((65u32 & 0x7Fu32) == 65u32) by (bit_vector);
    assert((82u32 & 0x7Fu32) == 82u32) by (bit_vector);
    assert(a[0] as u32 == 65 && b[0] as u32 == 82);
    assert(encode_utf8(a)[0] == 65u8) by {
        assert(encode_utf8(a) == encode_scalar(a[0] as u32) + encode_utf8(a.drop_first()));
    }
    assert(encode_utf8(b)[0] == 82u8) by {
        assert(encode_utf8(b) == encode_scalar(b[0] as u32) + encode_utf8(b.drop_first()));
    }
    assert(cmp_bytes(encode_utf8(b), encode_utf8(a)) == 1);
    assert(r[0] == c[p[0]] && r[1] == c[p[1]]);
    assert(cmp_tracks(r[0], r[1]) <= 0);
}

} // verus!
