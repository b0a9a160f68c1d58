use rocksonic::pipeline::Action;
use rocksonic::progress::{worker_count, Progress};
use rocksonic::report::{describe_actions, status_line, title_width, ItemError};
use rocksonic::responses::SubSonicSong;
use rocksonic::text::{centred, decimal, padded, same_text};

fn song(id: &str, title: &str) -> SubSonicSong {
    SubSonicSong {
        id: String::from(id),
        title: String::from(title),
        track: None,
        album: String::from("B"),
        artist: String::from("A"),
        suffix: String::from("mp3"),
        size: 0,
    }
}

#[test]
fn text_helpers() {
    assert_eq!(decimal(0), "0");
    assert_eq!(decimal(40710), "40710");
    assert_eq!(decimal(u64::MAX), "18446744073709551615");
    assert_eq!(padded("7", 3, '0'), "007");
    assert_eq!(padded("1234", 3, '0'), "1234");
    assert_eq!(centred("ab", 7), "  ab   ");
    assert_eq!(centred("abc", 2), "abc");
    assert!(same_text("opus", "opus"));
    assert!(!same_text("opus", "opu"));
    assert!(!same_text("opus", "opuS"));
}

#[test]
fn actions_are_listed() {
    assert_eq!(describe_actions(&vec![]), "nothing to do");
    assert_eq!(describe_actions(&vec![Action::Downloaded]), "Downloaded");
    assert_eq!(
        describe_actions(&vec![Action::Downloaded, Action::CoverDownloaded, Action::CoverEmbedded]),
        "Downloaded, CoverDownloaded, CoverEmbedded"
    );
}

#[test]
fn success_and_failure_lines() {
    let ok: Result<Vec<Action>, ItemError> = Ok(vec![Action::Converted]);
    assert_eq!(status_line(3, 12, "Song", 8, &ok), "     3/12   Song   Converted");
    let none: Result<Vec<Action>, ItemError> = Ok(vec![]);
    assert_eq!(status_line(12, 12, "Song", 4, &none), "    12/12 Song nothing to do");
    let failed: Result<Vec<Action>, ItemError> =
        Err(ItemError::new(&song("id9", "Broken"), String::from("connection reset")));
    let line = status_line(1, 2, "Broken", 8, &failed);
    assert_eq!(line, "     1/2 Broken id9 connection reset");
}

#[test]
fn error_message_names_track() {
    let e = ItemError::new(&song("xyz", "Title"), String::from("boom"));
    let m = e.message();
    assert_eq!(m, "Title xyz boom");
    assert!(m.contains("Title") && m.contains("xyz"));
}

#[test]
fn width_is_longest_title() {
    assert_eq!(title_width(&vec![]), 0);
    assert_eq!(title_width(&vec![song("1", "ab"), song("2", "abcde"), song("3", "abc")]), 5);
    assert_eq!(title_width(&vec![song("1", "été")]), 3);
}

#[test]
fn workers_default() {
    assert_eq!(worker_count(None), 5);
    assert_eq!(worker_count(Some(0)), 5);
    assert_eq!(worker_count(Some(3)), 3);
}

#[test]
fn every_track_reported_once() {
    for total in 1..6usize {
        for width in 1..=total {
            let mut p = Progress::new(total);
            let mut running: Vec<usize> = Vec::new();
            let mut lines = Vec::new();
            let mut turn = 0usize;
            loop {
                while running.len() < width {
                    match p.take() {
                        Some(i) => running.push(i),
                        None => break,
                    }
                }
                if running.is_empty() {
                    break;
                }
                let i = running.remove(turn % running.len());
                turn += 1;
                let outcome: Result<Vec<Action>, ItemError> = if i % 2 == 0 {
                    Ok(vec![])
                } else {
                    Err(ItemError::new(&song("id", "t"), String::from("failed")))
                };
                lines.push(p.report(i, "t", 1, &outcome).expect("first report"));
                assert!(p.report(i, "t", 1, &outcome).is_none());
            }
            assert_eq!(lines.len(), total);
            assert_eq!(p.done(), total);
            for (k, line) in lines.iter().enumerate() {
                assert!(line.starts_with(&format!("{:>6}/{}", k + 1, total)));
            }
            assert!(p.take().is_none());
        }
    }
}

#[test]
fn isolated_failure_does_not_stop_batch() {
    let mut p = Progress::new(3);
    let tracks = [song("a1", "One"), song("b2", "Two"), song("c3", "Three")];
    let mut lines = Vec::new();
    while let Some(i) = p.take() {
        let outcome: Result<Vec<Action>, ItemError> = if i == 1 {
            Err(ItemError::new(&tracks[i], String::from("transport error")))
        } else {
            Ok(vec![Action::Downloaded])
        };
        lines.push(p.report(i, &tracks[i].title, 5, &outcome).unwrap());
    }
    assert_eq!(lines.len(), 3);
    assert_eq!(lines[1], "     2/3 Two b2 transport error");
    assert_eq!(lines[2], "     3/3 Three Downloaded");
    assert_eq!(p.done(), 3);
}

#[test]
fn unknown_track_is_refused() {
    let mut p = Progress::new(2);
    assert_eq!(p.finish(0), None);
    assert_eq!(p.take(), Some(0));
    assert_eq!(p.finish(1), None);
    assert_eq!(p.finish(0), Some(1));
    assert_eq!(p.finish(0), None);
    assert_eq!(p.total(), 2);
}
