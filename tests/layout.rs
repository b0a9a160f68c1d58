use rocksonic::layout::{effective_suffix, library_dir, track_label, CoverStrategy, OutputMode, Session};
use rocksonic::responses::SubSonicSong;
use rocksonic::utils::sanitize_filename;

fn song(track: Option<u16>, suffix: &str) -> SubSonicSong {
    SubSonicSong {
        id: String::from("abc"),
        title: String::from("Song"),
        track,
        album: String::from("Hits"),
        artist: String::from("A/C"),
        suffix: String::from(suffix),
        size: 1,
    }
}

#[test]
fn sanitize_strips_illegal_characters() {
    assert_eq!(sanitize_filename("A/C"), "AC");
    assert_eq!(sanitize_filename("a:b*c?d"), "abcd");
    assert_eq!(sanitize_filename("plain name"), "plain name");
    assert_eq!(sanitize_filename(".."), "");
    assert_eq!(sanitize_filename("a<b>c\\d|e\"f"), "abcdef");
    assert_eq!(sanitize_filename("tab\there\u{85}"), "tabhere");
    assert_eq!(sanitize_filename(". ."), ". .");
    assert_eq!(sanitize_filename("$0"), "$0");
    let long = "é".repeat(200);
    let cut = sanitize_filename(&long);
    assert_eq!(cut.len(), 254);
    assert_eq!(cut.chars().count(), 127);
    assert_eq!(sanitize_filename(&"a".repeat(300)).len(), 255);
}

#[test]
fn sanitised_label_keeps_mp3_ending() {
    let s = Session::new(String::from("/c"), "/o", None, true, 500, CoverStrategy::EmbeddedExtraction, OutputMode::Transcode(128));
    let mut t = song(Some(9), "opus");
    t.title = String::from("What? Now: \"live\"");
    assert_eq!(s.paths(&t).output, "/o/favs flat mp3/AC Hits 009 What Now live.mp3");
}

#[test]
fn nested_layout_path() {
    let s = Session::new(String::from("/c"), "/music", None, false, 500, CoverStrategy::RemoteFetch, OutputMode::Passthrough);
    let p = s.paths(&song(Some(3), "flac"));
    assert_eq!(p.output, "/music/favs/AC/Hits/003 Song.flac");
    assert_eq!(p.album.as_deref(), Some("/music/favs/AC/Hits"));
    assert_eq!(p.album_cover.as_deref(), Some("/music/favs/AC/Hits/cover.jpeg"));
}

#[test]
fn flat_layout_path() {
    let s = Session::new(String::from("/c"), "/music", None, true, 500, CoverStrategy::RemoteFetch, OutputMode::Passthrough);
    let p = s.paths(&song(Some(3), "flac"));
    assert_eq!(p.output, "/music/favs flat/AC Hits 003 Song.flac");
    assert_eq!(p.album, None);
    assert_eq!(p.album_cover, None);
}

#[test]
fn cache_paths() {
    let s = Session::new(String::from("/c"), "/music", None, true, 300, CoverStrategy::RemoteFetch, OutputMode::Transcode(192));
    let p = s.paths(&song(None, "flac"));
    assert_eq!(p.audio, "/c/.mp3/abc_192");
    assert_eq!(p.cover, "/c/.cover/abc_300");
    assert_eq!(p.resized, "/c/.cover/abc_300_baseline");
    assert_eq!(p.output, "/music/favs flat mp3/AC Hits 000 Song.mp3");
}

#[test]
fn transcode_forces_mp3_suffix() {
    assert_eq!(effective_suffix("opus", OutputMode::Transcode(128)), "mp3");
    assert_eq!(effective_suffix("flac", OutputMode::Transcode(128)), "mp3");
    assert_eq!(effective_suffix("opus", OutputMode::Passthrough), "mp3");
    assert_eq!(effective_suffix("flac", OutputMode::Passthrough), "flac");
    for strategy in [CoverStrategy::RemoteFetch, CoverStrategy::EmbeddedExtraction] {
        let s = Session::new(String::from("/c"), "/o", None, false, 500, strategy, OutputMode::Transcode(128));
        assert!(s.paths(&song(Some(1), "opus")).output.ends_with("001 Song.mp3"));
    }
}

#[test]
fn library_dir_names() {
    assert_eq!(library_dir(None, false, false), "/favs");
    assert_eq!(library_dir(Some("Road trip"), true, false), "/Road trip flat");
    assert_eq!(library_dir(None, true, true), "/favs flat mp3");
    assert_eq!(library_dir(Some("x"), false, true), "/x mp3");
}

#[test]
fn track_labels() {
    assert_eq!(track_label(Some(3), "Song", "flac"), "003 Song.flac");
    assert_eq!(track_label(Some(1234), "Long", "mp3"), "1234 Long.mp3");
    assert_eq!(track_label(None, "X", "ogg"), "000 X.ogg");
    assert_eq!(track_label(Some(45), "Y", "ogg"), "045 Y.ogg");
}

#[test]
fn required_dirs_list() {
    let s = Session::new(String::from("/c"), "/o", Some("list"), false, 500, CoverStrategy::RemoteFetch, OutputMode::Passthrough);
    assert_eq!(s.required_dirs(), vec![String::from("/c/.mp3"), String::from("/c/.cover"), String::from("/o/list")]);
}
