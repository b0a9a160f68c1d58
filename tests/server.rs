use rocksonic::daemon::{daemon_next, daemon_start, find_marker, DaemonAction, DaemonEvent, DaemonState};
use rocksonic::responses::{SubSonicError, SubSonicErrorResponse};
use rocksonic::server::{
    check_envelope, cover_params, cover_refusal, data_refusal, endpoint_url, is_error_body, is_not_found, song_params,
    EnvelopeReply, Server, ServerError,
};

fn answered(status: &str, envelope: Option<SubSonicErrorResponse>) -> EnvelopeReply {
    EnvelopeReply::Answered { status: String::from("200 OK"), body: String::from("<x/>"), envelope: envelope.map(|mut e| {
        e.status = String::from(status);
        e
    }) }
}

fn envelope(error: Option<(u16, &str)>) -> SubSonicErrorResponse {
    SubSonicErrorResponse {
        status: String::from("failed"),
        error: error.map(|(code, m)| SubSonicError { code, message: String::from(m) }),
    }
}

#[test]
fn urls() {
    assert_eq!(
        endpoint_url("http://h/rest", "u", "p", "ping", None),
        "http://h/rest/ping?v=1.16.1&c=rocksonic-rs&u=u&p=p"
    );
    assert_eq!(
        endpoint_url("http://h/rest", "u", "p", "download", Some("id=7")),
        "http://h/rest/download?v=1.16.1&c=rocksonic-rs&u=u&p=p&id=7"
    );
    assert_eq!(song_params("7", None), "id=7");
    assert_eq!(song_params("7", Some(128)), "id=7&maxBitRate=128&format=mp3");
    assert_eq!(cover_params("7", 500), "id=7&size=500");
}

#[test]
fn connect_on_ok() {
    let s = Server::connect(String::from("http://h"), String::from("u"), String::from("p"), answered("ok", Some(envelope(None))))
        .unwrap();
    assert_eq!(s.url("getStarred", None), "http://h/getStarred?v=1.16.1&c=rocksonic-rs&u=u&p=p");
    assert_eq!(s.host(), "http://h");
}

#[test]
fn connect_refused() {
    let with_message = Server::connect(String::new(), String::new(), String::new(), answered("failed", Some(envelope(Some((40, "Wrong username or password"))))));
    match with_message {
        Err(e) => assert_eq!(e.message(), "Wrong username or password"),
        Ok(_) => panic!("connected"),
    }
    let bare = Server::connect(String::new(), String::new(), String::new(), answered("failed", Some(envelope(None))));
    match bare {
        Err(ServerError::Status(s)) => assert_eq!(s, "200 OK"),
        _ => panic!("wrong result"),
    }
    let unreadable = Server::connect(String::new(), String::new(), String::new(), answered("ok", None));
    match unreadable {
        Err(e) => assert_eq!(e.message(), "status 200 OK\n<x/>"),
        Ok(_) => panic!("connected"),
    }
    let down = Server::connect(String::new(), String::new(), String::new(), EnvelopeReply::Transport(String::from("refused")));
    match down {
        Err(ServerError::Transport(t)) => assert_eq!(t, "refused"),
        _ => panic!("wrong result"),
    }
    assert!(check_envelope(answered("ok", Some(envelope(None)))).is_ok());
}

#[test]
fn data_replies() {
    assert!(is_error_body(Some("text/xml")));
    assert!(!is_error_body(Some("audio/flac")));
    assert!(!is_error_body(None));
    assert!(is_not_found(&SubSonicError { code: 70, message: String::new() }));
    assert!(!is_not_found(&SubSonicError { code: 0, message: String::new() }));
    assert_eq!(data_refusal(envelope(Some((70, "not here")))).message(), "not here");
    assert_eq!(data_refusal(envelope(None)).message(), "unknown error");
}

#[test]
fn marker_search() {
    let dirs = vec![
        vec![String::from("music"), String::from("notes.txt")],
        vec![String::from("rocksonic.json")],
        vec![String::from("rocksonic.json"), String::from("x")],
    ];
    assert_eq!(find_marker(&dirs), Some(1));
    assert_eq!(find_marker(&vec![vec![String::from("rocksonic.jso")]]), None);
    assert_eq!(find_marker(&vec![]), None);
}

#[test]
fn daemon_cycle() {
    let (s, a) = daemon_start();
    assert!(matches!(s, DaemonState::Searching));
    assert!(matches!(a, DaemonAction::Search { after_ms: 500 }));
    let (s, a) = daemon_next(s, DaemonEvent::Scanned(None));
    assert!(matches!(a, DaemonAction::Search { .. }));
    let (s, a) = daemon_next(s, DaemonEvent::Scanned(Some(String::from("/media/dev"))));
    match &a {
        DaemonAction::Sync(d) => assert_eq!(d, "/media/dev"),
        other => panic!("unexpected {:?}", other),
    }
    let (s, a) = daemon_next(s, DaemonEvent::SessionEnded);
    match &a {
        DaemonAction::CheckGone { path, after_ms } => {
            assert_eq!(path, "/media/dev");
            assert_eq!(*after_ms, 100);
        }
        other => panic!("unexpected {:?}", other),
    }
    let (s, a) = daemon_next(s, DaemonEvent::StillMounted(true));
    assert!(matches!(a, DaemonAction::CheckGone { .. }));
    let (s, a) = daemon_next(s, DaemonEvent::StillMounted(false));
    assert!(matches!(s, DaemonState::Searching));
    assert!(matches!(a, DaemonAction::Search { .. }));
}

#[test]
fn cover_replies() {
    assert!(cover_refusal(envelope(Some((70, "not found")))).is_none());
    assert_eq!(cover_refusal(envelope(Some((10, "bad parameter")))).unwrap().message(), "bad parameter");
    assert_eq!(cover_refusal(envelope(None)).unwrap().message(), "unknown error");
}
