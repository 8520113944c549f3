use music_player::error::MusicError;
use music_player::library::{collect_tracks, is_supported_extension, scan_directory, ScannedFile};
use music_player::order::{compare_number, compare_text, compare_tracks, sort_tracks};
use music_player::track::{parse_track, ProbedFile, TagFields, Track};
use music_player::track_id::{md5_hash, track_id};

fn tag(artist: Option<&str>, album: Option<&str>, track: Option<u32>) -> TagFields {
    TagFields {
        title: Some("Song".to_string()),
        artist: artist.map(|s| s.to_string()),
        album: album.map(|s| s.to_string()),
        track_number: track,
        year: None,
        genre: None,
    }
}

fn file(path: &str, ext: Option<&str>, stem: &str, probed: Option<ProbedFile>) -> ScannedFile {
    ScannedFile {
        path: path.to_string(),
        extension: ext.map(|s| s.to_string()),
        stem: Some(stem.to_string()),
        probed,
    }
}

fn probed(duration_ms: u64, tag: Option<TagFields>) -> Option<ProbedFile> {
    Some(ProbedFile { duration_ms, tag })
}

#[test]
fn hash_values() {
    assert_eq!(md5_hash(""), 5381);
    assert_eq!(md5_hash("a"), 177670);
    assert_eq!(md5_hash("/music/ABBA/Gold/01.mp3"), 10396676586357362733);
}

#[test]
fn track_id_is_hex_of_hash() {
    assert_eq!(track_id(""), "1505");
    assert_eq!(track_id("a"), "2b606");
    assert_eq!(track_id("/music/ABBA/Gold/01.mp3"), "90486a457673902d");
    assert_eq!(track_id("/x/y.mp3"), track_id("/x/y.mp3"));
    assert_ne!(track_id("/x/y.mp3"), track_id("/x/z.mp3"));
}

#[test]
fn supported_extensions_ignore_case() {
    for e in ["mp3", "flac", "wav", "ogg", "m4a", "aac", "MP3", "Flac", "WAV", "oGg", "M4A", "AAC"] {
        assert!(is_supported_extension(e), "{}", e);
    }
    for e in ["txt", "", "mp4", "mp33", "jpg", "opus"] {
        assert!(!is_supported_extension(e), "{}", e);
    }
}

#[test]
fn untagged_file_falls_back() {
    let t = parse_track("/m/x/Some Song.flac".to_string(), Some("Some Song".to_string()), probed(5000, None)).unwrap();
    assert_eq!(t.title, "Some Song");
    assert_eq!(t.artist, "Unknown Artist");
    assert_eq!(t.album, "Unknown Album");
    assert_eq!(t.track_number, None);
    assert_eq!(t.year, None);
    assert_eq!(t.genre, None);
    assert_eq!(t.duration_ms, 5000);
    assert_eq!(t.path, "/m/x/Some Song.flac");
    assert_eq!(t.id, track_id("/m/x/Some Song.flac"));
}

#[test]
fn tag_with_missing_fields_falls_back() {
    let t = parse_track("/m/a.mp3".to_string(), Some("a".to_string()), probed(1, Some(TagFields {
        title: None,
        artist: None,
        album: Some("Gold".to_string()),
        track_number: Some(3),
        year: Some(1992),
        genre: Some("Pop".to_string()),
    }))).unwrap();
    assert_eq!(t.title, "a");
    assert_eq!(t.artist, "Unknown Artist");
    assert_eq!(t.album, "Gold");
    assert_eq!(t.track_number, Some(3));
    assert_eq!(t.year, Some(1992));
    assert_eq!(t.genre, Some("Pop".to_string()));
}

#[test]
fn unprobed_or_stemless_file_gives_nothing() {
    assert!(parse_track("/m/a.mp3".to_string(), Some("a".to_string()), None).is_none());
    assert!(parse_track("/m/.mp3".to_string(), None, probed(1, None)).is_none());
}

#[test]
fn scan_skips_corrupt_and_unsupported() {
    let files = vec![
        file("/lib/good.mp3", Some("mp3"), "good", probed(3000, None)),
        file("/lib/bad.mp3", Some("mp3"), "bad", None),
        file("/lib/notes.txt", Some("txt"), "notes", probed(0, None)),
        file("/lib/README", None, "README", probed(0, None)),
    ];
    let tracks = scan_directory(true, files).unwrap();
    assert_eq!(tracks.len(), 1);
    assert_eq!(tracks[0].path, "/lib/good.mp3");
    assert_eq!(tracks[0].title, "good");
}

#[test]
fn scan_orders_by_artist() {
    let files = vec![
        file("/lib/Radiohead/OK Computer/02 - Track.mp3", Some("mp3"), "02 - Track",
            probed(1000, Some(tag(Some("Radiohead"), Some("OK Computer"), Some(2))))),
        file("/lib/ABBA/Gold/01.mp3", Some("mp3"), "01", probed(1000, Some(tag(Some("ABBA"), None, None)))),
    ];
    let tracks = scan_directory(true, files).unwrap();
    assert_eq!(tracks.len(), 2);
    assert_eq!(tracks[0].artist, "ABBA");
    assert_eq!(tracks[1].artist, "Radiohead");
}

#[test]
fn scan_orders_by_album_then_number_absent_last() {
    let files = vec![
        file("/l/4.mp3", Some("mp3"), "4", probed(1, Some(tag(Some("A"), Some("X"), None)))),
        file("/l/3.mp3", Some("MP3"), "3", probed(1, Some(tag(Some("A"), Some("X"), Some(2))))),
        file("/l/2.mp3", Some("ogg"), "2", probed(1, Some(tag(Some("A"), Some("X"), Some(1))))),
        file("/l/1.mp3", Some("wav"), "1", probed(1, Some(tag(Some("A"), Some("W"), Some(9))))),
        file("/l/0.mp3", Some("aac"), "0", probed(1, Some(tag(Some("B"), Some("A"), Some(1))))),
    ];
    let tracks = scan_directory(true, files).unwrap();
    let order: Vec<&str> = tracks.iter().map(|t| t.path.as_str()).collect();
    assert_eq!(order, vec!["/l/1.mp3", "/l/2.mp3", "/l/3.mp3", "/l/4.mp3", "/l/0.mp3"]);
}

#[test]
fn scan_keeps_equal_entries_in_walk_order() {
    let files = vec![
        file("/l/b.mp3", Some("mp3"), "b", probed(1, None)),
        file("/l/a.mp3", Some("mp3"), "a", probed(1, None)),
        file("/l/c.mp3", Some("mp3"), "c", probed(1, None)),
    ];
    let tracks = scan_directory(true, files).unwrap();
    let order: Vec<&str> = tracks.iter().map(|t| t.title.as_str()).collect();
    assert_eq!(order, vec!["b", "a", "c"]);
}

#[test]
fn scan_unwalkable_root_fails() {
    assert_eq!(scan_directory(false, vec![]).err(), Some(MusicError::TraversalError));
}

#[test]
fn scan_empty_tree() {
    assert_eq!(scan_directory(true, vec![]).unwrap().len(), 0);
    assert_eq!(collect_tracks(vec![]).len(), 0);
}

#[test]
fn text_compares_by_bytes() {
    let s = |x: &str| x.to_string();
    assert_eq!(compare_text(&s("ABBA"), &s("Radiohead")), -1);
    assert_eq!(compare_text(&s("b"), &s("a")), 1);
    assert_eq!(compare_text(&s("ab"), &s("ab")), 0);
    assert_eq!(compare_text(&s("ab"), &s("abc")), -1);
    assert_eq!(compare_text(&s(""), &s("")), 0);
    assert_eq!(compare_text(&s("Zed"), &s("abba")), -1);
    assert_eq!(compare_text(&s("é"), &s("z")), 1);
}

#[test]
fn track_numbers_absent_last() {
    assert_eq!(compare_number(Some(1), Some(2)), -1);
    assert_eq!(compare_number(Some(2), Some(2)), 0);
    assert_eq!(compare_number(Some(9), None), -1);
    assert_eq!(compare_number(None, Some(1)), 1);
    assert_eq!(compare_number(None, None), 0);
}

fn entry(artist: &str, album: &str, n: Option<u32>) -> Track {
    parse_track(format!("/{}/{}", artist, album), Some("t".to_string()),
        probed(1, Some(tag(Some(artist), Some(album), n)))).unwrap()
}

#[test]
fn sort_tracks_orders_entries() {
    assert_eq!(compare_tracks(&entry("A", "B", None), &entry("A", "B", Some(1))), 1);
    let sorted = sort_tracks(vec![entry("C", "A", None), entry("A", "Z", Some(1)), entry("A", "B", Some(7)), entry("A", "B", Some(2))]);
    let keys: Vec<(String, String, Option<u32>)> =
        sorted.iter().map(|t| (t.artist.clone(), t.album.clone(), t.track_number)).collect();
    assert_eq!(keys, vec![
        ("A".to_string(), "B".to_string(), Some(2)),
        ("A".to_string(), "B".to_string(), Some(7)),
        ("A".to_string(), "Z".to_string(), Some(1)),
        ("C".to_string(), "A".to_string(), None),
    ]);
}
