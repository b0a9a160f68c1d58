//! The media server as the library sees it: how requests are addressed, and
//! what its replies mean. The requests themselves are made by the caller.

use vstd::prelude::*;
use crate::responses::{SubSonicError, SubSonicErrorResponse};
use crate::text::{dec, decimal, same_text};

verus! {

/// The error code with which the server says that it holds no such data.
pub const NOT_FOUND_CODE: u16 = 70;

/// A connection to the media server, known to answer.
pub struct Server {
    host: String,
    username: String,
    password: String,
}

pub struct ServerView {
    pub host: Seq<char>,
    pub username: Seq<char>,
    pub password: Seq<char>,
}

impl View for Server {
    type V = ServerView;

    closed spec fn view(&self) -> ServerView {
        ServerView { host: self.host@, username: self.username@, password: self.password@ }
    }
}

/// Why a request to the server failed.
#[derive(Debug)]
pub enum ServerError {
    /// The request did not get through; the transport's own words.
    Transport(String),
    /// The reply was not a reply envelope: its HTTP status and body.
    Unreadable { status: String, body: String },
    /// The server refused with this message.
    Remote(String),
    /// The server refused without a message: the HTTP status.
    Status(String),
}

pub enum ServerErrorView {
    Transport(Seq<char>),
    Unreadable { status: Seq<char>, body: Seq<char> },
    Remote(Seq<char>),
    Status(Seq<char>),
}

impl View for ServerError {
    type V = ServerErrorView;

    open spec fn view(&self) -> ServerErrorView {
        match self {
            ServerError::Transport(e) => ServerErrorView::Transport(e@),
            ServerError::Unreadable { status, body } => ServerErrorView::Unreadable {
                status: status@,
                body: body@,
            },
            ServerError::Remote(m) => ServerErrorView::Remote(m@),
            ServerError::Status(s) => ServerErrorView::Status(s@),
        }
    }
}

pub open spec fn error_text(e: ServerErrorView) -> Seq<char> {
    match e {
        ServerErrorView::Transport(t) => t,
        ServerErrorView::Unreadable { status, body } => "status "@ + status + "\n"@ + body,
        ServerErrorView::Remote(m) => m,
        ServerErrorView::Status(s) => s,
    }
}

impl ServerError {
    /// The error in words.
    pub fn message(&self) -> (r: String)
        ensures
            r@ == error_text(self@),
    {
        match self {
            ServerError::Transport(t) => t.clone(),
            ServerError::Unreadable { status, body } => {
                let mut r = String::from_str("status ");
                r.append(status.as_str());
                r.append("\n");
                r.append(body.as_str());
                r
            },
            ServerError::Remote(m) => m.clone(),
            ServerError::Status(s) => s.clone(),
        }
    }
}

/// What came of a request whose reply is a bare envelope (a ping).
pub enum EnvelopeReply {
    /// The request did not get through.
    Transport(String),
    /// The server answered with this HTTP status and body; `envelope` is the
    /// body read as a reply envelope, where it is one.
    Answered { status: String, body: String, envelope: Option<SubSonicErrorResponse> },
}

/// What a refusal envelope means: the server's message, or the HTTP status
/// where it gave none.
pub open spec fn refusal(env: SubSonicErrorResponse, status: Seq<char>) -> ServerErrorView {
    match env.error {
        Some(e) => ServerErrorView::Remote(e.message@),
        None => ServerErrorView::Status(status),
    }
}

/// Whether a request answered by `reply` succeeded, and if not, why.
pub open spec fn envelope_result(reply: EnvelopeReply) -> Result<(), ServerErrorView> {
    match reply {
        EnvelopeReply::Transport(e) => Err(ServerErrorView::Transport(e@)),
        EnvelopeReply::Answered { status, body, envelope } => match envelope {
            None => Err(ServerErrorView::Unreadable { status: status@, body: body@ }),
            Some(env) => if env.status@ == "ok"@ {
                Ok(())
            } else {
                Err(refusal(env, status@))
            },
        },
    }
}

/// `"{host}/{endpoint}?v=1.16.1&c=rocksonic-rs&u={username}&p={password}"`,
/// then `"&{params}"` where there are any.
pub open spec fn url_of(
    host: Seq<char>,
    username: Seq<char>,
    password: Seq<char>,
    endpoint: Seq<char>,
    params: Option<Seq<char>>,
) -> Seq<char> {
    let base = host + "/"@ + endpoint + "?v=1.16.1&c=rocksonic-rs&u="@ + username + "&p="@
        + password;
    match params {
        Some(p) => base + "&"@ + p,
        None => base,
    }
}

pub open spec fn str_opt(o: Option<&str>) -> Option<Seq<char>> {
    match o {
        Some(s) => Some(s@),
        None => None,
    }
}

/// The address of a request to `endpoint` with the credentials and `params`.
pub fn endpoint_url(
    host: &str,
    username: &str,
    password: &str,
    endpoint: &str,
    params: Option<&str>,
) -> (r: String)
    ensures
        r@ == url_of(host@, username@, password@, endpoint@, str_opt(params)),
{
    let mut r = String::from_str(host);
    r.append("/");
    r.append(endpoint);
    r.append("?v=1.16.1&c=rocksonic-rs&u=");
    r.append(username);
    r.append("&p=");
    r.append(password);
    match params {
        Some(p) => {
            r.append("&");
            r.append(p);
        },
        None => {},
    }
    r
}

/// Whether the request answered by `reply` succeeded (see [`envelope_result`]).
pub fn check_envelope(reply: EnvelopeReply) -> (r: Result<(), ServerError>)
    ensures
        match (r, envelope_result(reply)) {
            (Ok(()), Ok(())) => true,
            (Err(e), Err(v)) => e@ == v,
            _ => false,
        },
{
    match reply {
        EnvelopeReply::Transport(e) => Err(ServerError::Transport(e)),
        EnvelopeReply::Answered { status, body, envelope } => match envelope {
            None => Err(ServerError::Unreadable { status, body }),
            Some(env) => if same_text(env.status.as_str(), "ok") {
                Ok(())
            } else {
                match env.error {
                    Some(e) => Err(ServerError::Remote(e.message)),
                    None => Err(ServerError::Status(status)),
                }
            },
        },
    }
}

/// `"id={id}&maxBitRate={bitrate}&format=mp3"` when transcoding, else
/// `"id={id}"`.
pub open spec fn song_params_of(id: Seq<char>, mp3: Option<u16>) -> Seq<char> {
    match mp3 {
        Some(b) => "id="@ + id + "&maxBitRate="@ + dec(b as nat) + "&format=mp3"@,
        None => "id="@ + id,
    }
}

/// The parameters of a download of track `id`.
pub fn song_params(id: &str, mp3: Option<u16>) -> (r: String)
    ensures
        r@ == song_params_of(id@, mp3),
{
    let mut r = String::from_str("id=");
    r.append(id);
    match mp3 {
        Some(b) => {
            r.append("&maxBitRate=");
            let digits = decimal(b as u64);
            r.append(digits.as_str());
            r.append("&format=mp3");
        },
        None => {},
    }
    r
}

/// The parameters of a cover-art request: `"id={id}&size={size}"`.
pub fn cover_params(id: &str, size: u16) -> (r: String)
    ensures
        r@ == "id="@ + id@ + "&size="@ + dec(size as nat),
{
    let mut r = String::from_str("id=");
    r.append(id);
    r.append("&size=");
    let digits = decimal(size as u64);
    r.append(digits.as_str());
    r
}

/// Whether a reply of this content type is an error envelope rather than
/// the data asked for.
pub fn is_error_body(content_type: Option<&str>) -> (r: bool)
    ensures
        r == (str_opt(content_type) == Some("text/xml"@)),
{
    match content_type {
        Some(t) => same_text(t, "text/xml"),
        None => false,
    }
}

/// Whether the server's error says that it holds no such data.
pub fn is_not_found(error: &SubSonicError) -> (r: bool)
    ensures
        r == (error.code == NOT_FOUND_CODE),
{
    error.code == NOT_FOUND_CODE
}

/// What an error envelope in place of data means: the server's message,
/// or `unknown error` where it gave none.
pub open spec fn data_refusal_of(envelope: SubSonicErrorResponse) -> ServerErrorView {
    match envelope.error {
        Some(e) => ServerErrorView::Remote(e.message@),
        None => ServerErrorView::Remote("unknown error"@),
    }
}

/// What an error envelope in place of data means (see [`data_refusal_of`]).
pub fn data_refusal(envelope: SubSonicErrorResponse) -> (r: ServerError)
    ensures
        r@ == data_refusal_of(envelope),
{
    match envelope.error {
        Some(e) => ServerError::Remote(e.message),
        None => ServerError::Remote(String::from_str("unknown error")),
    }
}

/// What an error envelope in place of cover art means: no cover (`None`)
/// where the server says it holds no such data, else a refusal (see
/// [`data_refusal_of`]).
pub fn cover_refusal(envelope: SubSonicErrorResponse) -> (r: Option<ServerError>)
    ensures
        (envelope.error matches Some(e) && e.code == NOT_FOUND_CODE) ==> r is None,
        !(envelope.error matches Some(e) && e.code == NOT_FOUND_CODE) ==> (r matches Some(x)
            && x@ == data_refusal_of(envelope)),
{
    let missing = match &envelope.error {
        Some(e) => is_not_found(e),
        None => false,
    };
    if missing {
        None
    } else {
        Some(data_refusal(envelope))
    }
}

impl Server {
    /// The server at `host` with these credentials, once its reply to a
    /// ping (made at `endpoint_url(host, username, password, "ping", None)`)
    /// shows it answers; else why not (see [`envelope_result`]).
    pub fn connect(host: String, username: String, password: String, ping: EnvelopeReply) -> (r:
        Result<Self, ServerError>)
        ensures
            envelope_result(ping) is Ok ==> (r matches Ok(s) && s@ == (ServerView {
                host: host@,
                username: username@,
                password: password@,
            })),
            envelope_result(ping) matches Err(v) ==> (r matches Err(e) && e@ == v),
    {
        match check_envelope(ping) {
            Ok(()) => Ok(Server { host, username, password }),
            Err(e) => Err(e),
        }
    }

    /// The address of a request to `endpoint` with `params`.
    pub fn url(&self, endpoint: &str, params: Option<&str>) -> (r: String)
        ensures
            r@ == url_of(self@.host, self@.username, self@.password, endpoint@, str_opt(params)),
    {
        endpoint_url(
            self.host.as_str(),
            self.username.as_str(),
            self.password.as_str(),
            endpoint,
            params,
        )
    }

    pub fn host(&self) -> (r: &str)
        ensures
            r@ == self@.host,
    {
        self.host.as_str()
    }
}

} // verus!
