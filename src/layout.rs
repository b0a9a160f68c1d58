//! Where each artifact of a track lives: the raw-audio and cover caches, and
//! the final file in the flat or artist/album layout.

use vstd::prelude::*;
use crate::responses::SubSonicSong;
use crate::text::{dec, decimal, pad_left, padded, same_text};
use crate::utils::{safe_name, sanitize_filename};

verus! {

/// How a track's cover is obtained, fixed for a whole session.
#[derive(Debug, Clone, Copy, PartialEq, Eq, Structural)]
pub enum CoverStrategy {
    /// Demux the picture stream that the raw audio file carries, if any.
    EmbeddedExtraction,
    /// Ask the server for the cover art.
    RemoteFetch,
}

/// Whether the final files keep the source format or are transcoded to mp3
/// at the given bit rate (kbit/s), fixed for a whole session.
#[derive(Debug, Clone, Copy, PartialEq, Eq, Structural)]
pub enum OutputMode {
    Passthrough,
    Transcode(u16),
}

/// The bit rate that keys the raw-audio cache when nothing is transcoded.
pub const ORIGINAL_BITRATE: u16 = 320;

/// The settings of one sync run.
pub struct Session {
    /// Root of the caches (`.mp3` and `.cover` below it).
    pub cache_dir: String,
    /// The library's own output directory.
    pub library_path: String,
    pub flat: bool,
    pub cover_size: u16,
    pub strategy: CoverStrategy,
    pub mode: OutputMode,
}

/// The paths of one track's artifacts, as values.
pub struct PathsView {
    pub audio: Seq<char>,
    pub cover: Seq<char>,
    pub resized: Seq<char>,
    pub album: Option<Seq<char>>,
    pub album_cover: Option<Seq<char>>,
    pub output: Seq<char>,
}

/// The paths of one track's artifacts.
pub struct ItemPaths {
    /// Raw audio as downloaded.
    pub audio: String,
    /// Cover as fetched or extracted.
    pub cover: String,
    /// Cover after resizing and recompressing.
    pub resized: String,
    /// Artist/album directory (nested layout only).
    pub album: Option<String>,
    /// The copy of the cover kept in the album directory (nested layout only).
    pub album_cover: Option<String>,
    /// The final file.
    pub output: String,
}

pub open spec fn opt_view(o: Option<String>) -> Option<Seq<char>> {
    match o {
        Some(s) => Some(s@),
        None => None,
    }
}

impl View for ItemPaths {
    type V = PathsView;

    open spec fn view(&self) -> PathsView {
        PathsView {
            audio: self.audio@,
            cover: self.cover@,
            resized: self.resized@,
            album: opt_view(self.album),
            album_cover: opt_view(self.album_cover),
            output: self.output@,
        }
    }
}

pub open spec fn bitrate_key(mode: OutputMode) -> nat {
    match mode {
        OutputMode::Transcode(b) => b as nat,
        OutputMode::Passthrough => ORIGINAL_BITRATE as nat,
    }
}

/// The extension of the final file: mp3 when transcoding, and for opus
/// sources, whose codec goes into an mp3-named file; else the source's own.
pub open spec fn suffix_for(suffix: Seq<char>, mode: OutputMode) -> Seq<char> {
    if mode is Transcode || suffix == "opus"@ {
        "mp3"@
    } else {
        suffix
    }
}

/// The name of the library's directory, with its leading `/`: the playlist's
/// name (or `favs`), then ` flat` and ` mp3` where those apply.
pub open spec fn library_dir_of(playlist: Option<Seq<char>>, flat: bool, mp3: bool) -> Seq<char> {
    let base = "/"@ + match playlist {
        Some(name) => name,
        None => "favs"@,
    };
    let with_flat = if flat { base + " flat"@ } else { base };
    if mp3 { with_flat + " mp3"@ } else { with_flat }
}

pub open spec fn track_number(t: Option<u16>) -> nat {
    match t {
        Some(n) => n as nat,
        None => 0,
    }
}

/// `"{track:0>3} {title}.{suffix}"`.
pub open spec fn label_of(track: Option<u16>, title: Seq<char>, suffix: Seq<char>) -> Seq<char> {
    pad_left(dec(track_number(track)), 3, '0') + " "@ + title + "."@ + suffix
}

pub open spec fn audio_path_of(cache: Seq<char>, id: Seq<char>, mode: OutputMode) -> Seq<char> {
    cache + "/.mp3/"@ + id + "_"@ + dec(bitrate_key(mode))
}

pub open spec fn cover_path_of(cache: Seq<char>, id: Seq<char>, size: u16) -> Seq<char> {
    cache + "/.cover/"@ + id + "_"@ + dec(size as nat)
}

pub open spec fn resized_path_of(cache: Seq<char>, id: Seq<char>, size: u16) -> Seq<char> {
    cover_path_of(cache, id, size) + "_baseline"@
}

pub open spec fn album_dir_of(library: Seq<char>, artist: Seq<char>, album: Seq<char>) -> Seq<char> {
    library + "/"@ + safe_name(artist) + "/"@ + safe_name(album)
}

/// The final file in the nested layout.
pub open spec fn nested_output_of(
    library: Seq<char>,
    artist: Seq<char>,
    album: Seq<char>,
    label: Seq<char>,
) -> Seq<char> {
    album_dir_of(library, artist, album) + "/"@ + safe_name(label)
}

/// The final file in the flat layout.
pub open spec fn flat_output_of(
    library: Seq<char>,
    artist: Seq<char>,
    album: Seq<char>,
    label: Seq<char>,
) -> Seq<char> {
    library + "/"@ + safe_name(artist + " "@ + album + " "@ + label)
}

impl Session {
    pub open spec fn paths_spec(&self, t: &SubSonicSong) -> PathsView {
        let label = label_of(t.track, t.title@, suffix_for(t.suffix@, self.mode));
        let album = album_dir_of(self.library_path@, t.artist@, t.album@);
        PathsView {
            audio: audio_path_of(self.cache_dir@, t.id@, self.mode),
            cover: cover_path_of(self.cache_dir@, t.id@, self.cover_size),
            resized: resized_path_of(self.cache_dir@, t.id@, self.cover_size),
            album: if self.flat { None } else { Some(album) },
            album_cover: if self.flat { None } else { Some(album + "/cover.jpeg"@) },
            output: if self.flat {
                flat_output_of(self.library_path@, t.artist@, t.album@, label)
            } else {
                nested_output_of(self.library_path@, t.artist@, t.album@, label)
            },
        }
    }
}

/// The extension of the final file (see [`suffix_for`]).
pub fn effective_suffix(suffix: &str, mode: OutputMode) -> (r: String)
    ensures
        r@ == suffix_for(suffix@, mode),
{
    let transcode = match mode {
        OutputMode::Transcode(_) => true,
        OutputMode::Passthrough => false,
    };
    if transcode || same_text(suffix, "opus") {
        String::from_str("mp3")
    } else {
        String::from_str(suffix)
    }
}

/// The name of the library's directory (see [`library_dir_of`]).
pub fn library_dir(playlist: Option<&str>, flat: bool, mp3: bool) -> (r: String)
    ensures
        r@ == library_dir_of(
            match playlist {
                Some(p) => Some(p@),
                None => None,
            },
            flat,
            mp3,
        ),
{
    let mut r = String::from_str("/");
    match playlist {
        Some(name) => r.append(name),
        None => r.append("favs"),
    }
    if flat {
        r.append(" flat");
    }
    if mp3 {
        r.append(" mp3");
    }
    r
}

/// `"{track:0>3} {title}.{suffix}"`.
pub fn track_label(track: Option<u16>, title: &str, suffix: &str) -> (r: String)
    ensures
        r@ == label_of(track, title@, suffix@),
{
    let n: u16 = match track {
        Some(n) => n,
        None => 0,
    };
    let digits = decimal(n as u64);
    let mut r = padded(digits.as_str(), 3, '0');
    r.append(" ");
    r.append(title);
    r.append(".");
    r.append(suffix);
    r
}

fn cache_entry(cache: &str, dir: &str, id: &str, key: u16) -> (r: String)
    ensures
        r@ == cache@ + dir@ + id@ + "_"@ + dec(key as nat),
{
    let mut r = String::from_str(cache);
    r.append(dir);
    r.append(id);
    r.append("_");
    let digits = decimal(key as u64);
    r.append(digits.as_str());
    r
}

impl Session {
    /// The session whose library directory lies under `output_dir` and is
    /// named by [`library_dir`].
    pub fn new(
        cache_dir: String,
        output_dir: &str,
        playlist: Option<&str>,
        flat: bool,
        cover_size: u16,
        strategy: CoverStrategy,
        mode: OutputMode,
    ) -> (r: Session)
        ensures
            r.cache_dir == cache_dir,
            r.library_path@ == output_dir@ + library_dir_of(
                match playlist {
                    Some(p) => Some(p@),
                    None => None,
                },
                flat,
                mode is Transcode,
            ),
            r.flat == flat,
            r.cover_size == cover_size,
            r.strategy == strategy,
            r.mode == mode,
    {
        let transcode = match mode {
            OutputMode::Transcode(_) => true,
            OutputMode::Passthrough => false,
        };
        let dir = library_dir(playlist, flat, transcode);
        let mut library_path = String::from_str(output_dir);
        library_path.append(dir.as_str());
        Session { cache_dir, library_path, flat, cover_size, strategy, mode }
    }

    /// The directories to create before any track is processed: the two
    /// caches and the library directory.
    pub fn required_dirs(&self) -> (r: Vec<String>)
        ensures
            r@.len() == 3,
            r[0]@ == self.cache_dir@ + "/.mp3"@,
            r[1]@ == self.cache_dir@ + "/.cover"@,
            r[2]@ == self.library_path@,
    {
        let mut audio = String::from_str(self.cache_dir.as_str());
        audio.append("/.mp3");
        let mut cover = String::from_str(self.cache_dir.as_str());
        cover.append("/.cover");
        let library = String::from_str(self.library_path.as_str());
        let mut r: Vec<String> = Vec::new();
        r.push(audio);
        r.push(cover);
        r.push(library);
        r
    }

    /// The paths of `track`'s artifacts in this session.
    pub fn paths(&self, track: &SubSonicSong) -> (r: ItemPaths)
        ensures
            r@ == self.paths_spec(track),
    {
        let bitrate: u16 = match self.mode {
            OutputMode::Transcode(b) => b,
            OutputMode::Passthrough => ORIGINAL_BITRATE,
        };
        let cache = self.cache_dir.as_str();
        let id = track.id.as_str();
        let audio = cache_entry(cache, "/.mp3/", id, bitrate);
        let cover = cache_entry(cache, "/.cover/", id, self.cover_size);
        let mut resized = String::from_str(cover.as_str());
        resized.append("_baseline");

        let suffix = effective_suffix(track.suffix.as_str(), self.mode);
        let label = track_label(track.track, track.title.as_str(), suffix.as_str());
        let library = self.library_path.as_str();
        if self.flat {
            let mut name = String::from_str(track.artist.as_str());
            name.append(" ");
            name.append(track.album.as_str());
            name.append(" ");
            name.append(label.as_str());
            let safe = sanitize_filename(name.as_str());
            let mut output = String::from_str(library);
            output.append("/");
            output.append(safe.as_str());
            ItemPaths { audio, cover, resized, album: None, album_cover: None, output }
        } else {
            let artist = sanitize_filename(track.artist.as_str());
            let album_name = sanitize_filename(track.album.as_str());
            let mut album = String::from_str(library);
            album.append("/");
            album.append(artist.as_str());
            album.append("/");
            album.append(album_name.as_str());
            let mut album_cover = String::from_str(album.as_str());
            album_cover.append("/cover.jpeg");
            let safe = sanitize_filename(label.as_str());
            let mut output = String::from_str(album.as_str());
            output.append("/");
            output.append(safe.as_str());
            ItemPaths { audio, cover, resized, album: Some(album), album_cover: Some(album_cover), output }
        }
    }
}

} // verus!
