use std::collections::HashSet;

use rocksonic::layout::{CoverStrategy, OutputMode, Session};
use rocksonic::media::{exit_outcome, extract_directives, mux_directives, transcode_directives};
use rocksonic::pipeline::{resized_height, Action, Reply, Request, Stage};
use rocksonic::responses::SubSonicSong;

#[derive(Default)]
struct Disk {
    files: HashSet<String>,
    pictures: HashSet<String>,
    covers: HashSet<String>,
    failing_downloads: HashSet<String>,
    log: Vec<String>,
}

impl Disk {
    fn perform(&mut self, request: &Request) -> Reply {
        match request {
            Request::Exists(p) => Reply::Answer(self.files.contains(p)),
            Request::Probe(p) => Reply::Answer(self.pictures.contains(p)),
            Request::Download { id, dest, .. } => {
                self.log.push(format!("download {}", id));
                if self.failing_downloads.contains(id) {
                    Reply::Failed(String::from("connection reset"))
                } else {
                    self.files.insert(dest.clone());
                    Reply::Done
                }
            }
            Request::FetchCover { id, dest, .. } => {
                self.log.push(format!("cover {}", id));
                if self.covers.contains(id) {
                    self.files.insert(dest.clone());
                    Reply::Done
                } else {
                    Reply::NotFound
                }
            }
            Request::Extract { dest, .. } => {
                self.log.push(String::from("extract"));
                self.files.insert(dest.clone());
                Reply::Done
            }
            Request::Resize { dest, .. } => {
                self.log.push(String::from("resize"));
                self.files.insert(dest.clone());
                Reply::Done
            }
            Request::MakeDir(p) => {
                self.log.push(format!("mkdir {}", p));
                self.files.insert(p.clone());
                Reply::Done
            }
            Request::Copy { src, dest } => {
                self.log.push(format!("copy {} -> {}", src, dest));
                self.files.insert(dest.clone());
                Reply::Done
            }
            Request::Mux { dest, .. } => {
                self.log.push(format!("mux {}", dest));
                self.files.insert(dest.clone());
                Reply::Done
            }
            Request::Transcode { dest, .. } => {
                self.log.push(format!("transcode {}", dest));
                self.files.insert(dest.clone());
                Reply::Done
            }
            Request::Complete | Request::Abort(_) => Reply::Done,
        }
    }
}

fn song(id: &str, title: &str, suffix: &str) -> SubSonicSong {
    SubSonicSong {
        id: String::from(id),
        title: String::from(title),
        track: Some(3),
        album: String::from("Hits"),
        artist: String::from("A/C"),
        suffix: String::from(suffix),
        size: 1000,
    }
}

fn session(flat: bool, strategy: CoverStrategy, mode: OutputMode) -> Session {
    Session::new(String::from("/cache"), "/out", None, flat, 500, strategy, mode)
}

fn drive(session: &Session, track: &SubSonicSong, disk: &mut Disk) -> Result<Vec<Action>, String> {
    let mut pipeline = session.pipeline(track);
    let mut steps = 0;
    loop {
        let request = pipeline.request();
        if matches!(request, Request::Complete | Request::Abort(_)) {
            break;
        }
        let reply = disk.perform(&request);
        pipeline.step(reply);
        steps += 1;
        assert!(steps <= 12);
    }
    pipeline.outcome().expect("the pipeline is over")
}

#[test]
fn first_run_does_every_stage() {
    let s = session(false, CoverStrategy::RemoteFetch, OutputMode::Passthrough);
    let t = song("t1", "Song", "flac");
    let mut disk = Disk::default();
    disk.covers.insert(String::from("t1"));
    let actions = drive(&s, &t, &mut disk).unwrap();
    assert_eq!(
        actions,
        vec![Action::Downloaded, Action::CoverDownloaded, Action::CoverConverted, Action::CoverEmbedded]
    );
    assert!(disk.files.contains("/out/favs/AC/Hits/003 Song.flac"));
    assert!(disk.files.contains("/out/favs/AC/Hits/cover.jpeg"));
    assert!(disk.files.contains("/cache/.mp3/t1_320"));
    assert!(disk.files.contains("/cache/.cover/t1_500"));
    assert!(disk.files.contains("/cache/.cover/t1_500_baseline"));
}

#[test]
fn rerun_is_a_no_op() {
    for strategy in [CoverStrategy::RemoteFetch, CoverStrategy::EmbeddedExtraction] {
        for flat in [false, true] {
            for mode in [OutputMode::Passthrough, OutputMode::Transcode(128)] {
                for with_cover in [false, true] {
                    let s = session(flat, strategy, mode);
                    let t = song("t1", "Song", "flac");
                    let mut disk = Disk::default();
                    if with_cover {
                        disk.covers.insert(String::from("t1"));
                        disk.pictures.insert(s.paths(&t).audio);
                    }
                    let first = drive(&s, &t, &mut disk).unwrap();
                    assert!(!first.is_empty());
                    let files = disk.files.clone();
                    let writes = disk.log.len();
                    let second = drive(&s, &t, &mut disk).unwrap();
                    assert!(second.is_empty());
                    assert_eq!(disk.files, files);
                    let after: Vec<&String> = disk.log[writes..].iter().filter(|l| !l.starts_with("cover")).collect();
                    assert!(after.is_empty());
                }
            }
        }
    }
}

#[test]
fn coverless_passthrough_copies_raw_audio() {
    let s = session(true, CoverStrategy::RemoteFetch, OutputMode::Passthrough);
    let t = song("t2", "Song", "flac");
    let mut disk = Disk::default();
    let actions = drive(&s, &t, &mut disk).unwrap();
    assert_eq!(actions, vec![Action::Downloaded]);
    assert!(disk.log.contains(&String::from("copy /cache/.mp3/t2_320 -> /out/favs flat/AC Hits 003 Song.flac")));
    assert!(!disk.log.iter().any(|l| l.starts_with("mux")));
    assert!(!disk.log.contains(&String::from("resize")));
}

#[test]
fn coverless_embedded_track_skips_cover_stages() {
    let s = session(false, CoverStrategy::EmbeddedExtraction, OutputMode::Passthrough);
    let t = song("t3", "Song", "flac");
    let mut disk = Disk::default();
    let actions = drive(&s, &t, &mut disk).unwrap();
    assert_eq!(actions, vec![Action::Downloaded]);
    assert!(!disk.log.contains(&String::from("extract")));
    assert!(!disk.files.contains("/out/favs/AC/Hits/cover.jpeg"));
}

#[test]
fn covered_track_is_muxed() {
    let s = session(true, CoverStrategy::EmbeddedExtraction, OutputMode::Passthrough);
    let t = song("t4", "Song", "flac");
    let mut disk = Disk::default();
    disk.pictures.insert(s.paths(&t).audio);
    let actions = drive(&s, &t, &mut disk).unwrap();
    assert_eq!(
        actions,
        vec![Action::Downloaded, Action::CoverExtracted, Action::CoverConverted, Action::CoverEmbedded]
    );
    assert!(disk.log.contains(&String::from("mux /out/favs flat/AC Hits 003 Song.flac")));
}

#[test]
fn transcode_records_conversion() {
    let s = session(true, CoverStrategy::RemoteFetch, OutputMode::Transcode(128));
    let t = song("t5", "Song", "opus");
    let mut disk = Disk::default();
    let actions = drive(&s, &t, &mut disk).unwrap();
    assert_eq!(actions, vec![Action::Downloaded, Action::Converted]);
    assert!(disk.log.contains(&String::from("transcode /out/favs flat mp3/AC Hits 003 Song.mp3")));

    disk.covers.insert(String::from("t6"));
    let t = song("t6", "Other", "opus");
    let actions = drive(&s, &t, &mut disk).unwrap();
    assert_eq!(
        actions,
        vec![
            Action::Downloaded,
            Action::CoverDownloaded,
            Action::CoverConverted,
            Action::CoverEmbedded,
            Action::Converted
        ]
    );
}

#[test]
fn download_request_carries_bitrate() {
    let s = session(true, CoverStrategy::RemoteFetch, OutputMode::Transcode(128));
    let t = song("t7", "Song", "flac");
    let mut p = s.pipeline(&t);
    p.step(Reply::Answer(false));
    match p.request() {
        Request::Download { id, bitrate, dest } => {
            assert_eq!(id, "t7");
            assert_eq!(bitrate, Some(128));
            assert_eq!(dest, "/cache/.mp3/t7_128");
        }
        other => panic!("unexpected {:?}", other),
    }
}

#[test]
fn failed_download_aborts_with_detail() {
    let s = session(false, CoverStrategy::RemoteFetch, OutputMode::Passthrough);
    let t = song("t8", "Song", "flac");
    let mut disk = Disk::default();
    disk.failing_downloads.insert(String::from("t8"));
    let r = drive(&s, &t, &mut disk);
    assert_eq!(r, Err(String::from("connection reset")));
}

#[test]
fn unfitting_reply_fails_the_item() {
    let s = session(false, CoverStrategy::RemoteFetch, OutputMode::Passthrough);
    let t = song("t9", "Song", "flac");
    let mut p = s.pipeline(&t);
    assert_eq!(p.stage(), Stage::CheckAudio);
    p.step(Reply::Done);
    assert_eq!(p.stage(), Stage::Failed);
    match p.request() {
        Request::Abort(e) => assert_eq!(e, "unexpected reply"),
        other => panic!("unexpected {:?}", other),
    }
    assert!(p.outcome().is_some());
}

#[test]
fn pipeline_not_over_has_no_outcome() {
    let s = session(false, CoverStrategy::RemoteFetch, OutputMode::Passthrough);
    let t = song("t10", "Song", "flac");
    let p = s.pipeline(&t);
    assert!(p.outcome().is_none());
}

#[test]
fn resized_cover_keeps_aspect_ratio() {
    assert_eq!(resized_height(1000, 500, 500), 250);
    assert_eq!(resized_height(600, 600, 500), 500);
    assert_eq!(resized_height(3, 1, 2), 1);
    assert_eq!(resized_height(3, 5, 1), 2);
    assert_eq!(resized_height(4, 3, 2), 2);
    assert_eq!(resized_height(3, 4, 2), 3);
    assert_eq!(resized_height(5000, 1, 10), 1);
    assert_eq!(resized_height(0, 80, 300), 300);
    assert_eq!(resized_height(1, u32::MAX, u16::MAX), (u32::MAX as u64) * (u16::MAX as u64));
}

#[test]
fn media_directives() {
    assert_eq!(
        mux_directives(),
        vec![
            "-map", "0:a", "-map", "1:0", "-c:v", "copy", "-c:a", "copy", "-metadata:s:v:0",
            "comment=\"Cover (front)\"", "-metadata:s:v:0", "title=\"Album cover\"", "-disposition:v:0",
            "attached_pic", "-id3v2_version", "3"
        ]
    );
    assert_eq!(
        transcode_directives(128),
        vec![
            "-map", "0:a", "-b:a", "128k", "-metadata:s:v:0", "comment=\"Cover (front)\"", "-metadata:s:v:0",
            "title=\"Album cover\"", "-disposition:v:0", "attached_pic", "-id3v2_version", "3"
        ]
    );
    assert_eq!(extract_directives(), vec!["-map", "0:v:0", "-c:v", "copy", "-f", "image2"]);
}

#[test]
fn media_exit_codes() {
    assert_eq!(exit_outcome(Some(0)), Ok(()));
    assert_eq!(exit_outcome(None), Ok(()));
    assert_eq!(exit_outcome(Some(1)), Err(String::from("ffmpeg exited (1)")));
    assert_eq!(exit_outcome(Some(-11)), Err(String::from("ffmpeg exited (-11)")));
    assert_eq!(exit_outcome(Some(i32::MIN)), Err(String::from("ffmpeg exited (-2147483648)")));
}
