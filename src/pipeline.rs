//! The per-track pipeline: acquire the raw audio, obtain the cover, resize
//! it, then write the final file, each stage skipped where its artifact
//! already exists.
//!
//! The pipeline does no I/O itself. It is a state machine: the caller asks
//! it for the next [`Request`], performs it, and hands back the [`Reply`].
//! [`request_of`] and [`next`] state exactly what it asks and how it moves.

use vstd::prelude::*;
use crate::layout::{opt_view, CoverStrategy, ItemPaths, OutputMode, PathsView, Session};
use crate::responses::SubSonicSong;

verus! {

/// A processing step that actually ran, for reporting.
#[derive(Debug, Clone, Copy, PartialEq, Eq, Structural)]
pub enum Action {
    Downloaded,
    CoverDownloaded,
    CoverExtracted,
    CoverConverted,
    Converted,
    CoverEmbedded,
}

/// What the pipeline asks its caller to do next.
#[derive(Debug)]
pub enum Request {
    /// Report whether the path exists (answer with [`Reply::Answer`]).
    Exists(String),
    /// Download the track to `dest`, transcoded by the server to mp3 at
    /// `bitrate` where one is given.
    Download { id: String, bitrate: Option<u16>, dest: String },
    /// Report whether the audio file carries a picture stream
    /// (answer with [`Reply::Answer`]).
    Probe(String),
    /// Demux the picture stream of `audio` to `dest`.
    Extract { audio: String, dest: String },
    /// Fetch the cover art of the track at `size` to `dest`; a server that
    /// has none is answered with [`Reply::NotFound`].
    FetchCover { id: String, size: u16, dest: String },
    /// Resize `src` to `width`, recompress it and write it to `dest`.
    Resize { src: String, dest: String, width: u16 },
    /// Create the directory and its parents.
    MakeDir(String),
    /// Copy (or link) `src` to `dest`.
    Copy { src: String, dest: String },
    /// Combine the audio stream with the cover picture, both copied as they
    /// are, into `dest`.
    Mux { audio: String, cover: String, dest: String },
    /// Transcode the audio to mp3 at `bitrate` into `dest`.
    Transcode { audio: String, dest: String, bitrate: u16 },
    /// Nothing left to do: the track is done.
    Complete,
    /// The track failed with this detail.
    Abort(String),
}

/// What the caller reports back after performing a [`Request`].
#[derive(Debug)]
pub enum Reply {
    /// The yes/no answer to `Exists` or `Probe`.
    Answer(bool),
    /// The operation succeeded.
    Done,
    /// The server holds no cover for the track.
    NotFound,
    /// The operation failed with this detail.
    Failed(String),
}

pub enum RequestView {
    Exists(Seq<char>),
    Download { id: Seq<char>, bitrate: Option<u16>, dest: Seq<char> },
    Probe(Seq<char>),
    Extract { audio: Seq<char>, dest: Seq<char> },
    FetchCover { id: Seq<char>, size: u16, dest: Seq<char> },
    Resize { src: Seq<char>, dest: Seq<char>, width: u16 },
    MakeDir(Seq<char>),
    Copy { src: Seq<char>, dest: Seq<char> },
    Mux { audio: Seq<char>, cover: Seq<char>, dest: Seq<char> },
    Transcode { audio: Seq<char>, dest: Seq<char>, bitrate: u16 },
    Complete,
    Abort(Seq<char>),
}

pub enum ReplyView {
    Answer(bool),
    Done,
    NotFound,
    Failed(Seq<char>),
}

impl View for Request {
    type V = RequestView;

    open spec fn view(&self) -> RequestView {
        match self {
            Request::Exists(p) => RequestView::Exists(p@),
            Request::Download { id, bitrate, dest } => RequestView::Download {
                id: id@,
                bitrate: *bitrate,
                dest: dest@,
            },
            Request::Probe(p) => RequestView::Probe(p@),
            Request::Extract { audio, dest } => RequestView::Extract { audio: audio@, dest: dest@ },
            Request::FetchCover { id, size, dest } => RequestView::FetchCover {
                id: id@,
                size: *size,
                dest: dest@,
            },
            Request::Resize { src, dest, width } => RequestView::Resize {
                src: src@,
                dest: dest@,
                width: *width,
            },
            Request::MakeDir(p) => RequestView::MakeDir(p@),
            Request::Copy { src, dest } => RequestView::Copy { src: src@, dest: dest@ },
            Request::Mux { audio, cover, dest } => RequestView::Mux {
                audio: audio@,
                cover: cover@,
                dest: dest@,
            },
            Request::Transcode { audio, dest, bitrate } => RequestView::Transcode {
                audio: audio@,
                dest: dest@,
                bitrate: *bitrate,
            },
            Request::Complete => RequestView::Complete,
            Request::Abort(e) => RequestView::Abort(e@),
        }
    }
}

impl View for Reply {
    type V = ReplyView;

    open spec fn view(&self) -> ReplyView {
        match self {
            Reply::Answer(b) => ReplyView::Answer(*b),
            Reply::Done => ReplyView::Done,
            Reply::NotFound => ReplyView::NotFound,
            Reply::Failed(e) => ReplyView::Failed(e@),
        }
    }
}

/// Where a pipeline stands; each stage but the last two has one request
/// outstanding.
#[derive(Debug, Clone, Copy, PartialEq, Eq, Structural)]
pub enum Stage {
    CheckAudio,
    FetchAudio,
    ProbeCover,
    CheckCover,
    FetchCover,
    CheckResized,
    Resize,
    CheckAlbum,
    MakeAlbum,
    CopyAlbumCover,
    CheckOutput,
    WriteOutput,
    Complete,
    Failed,
}

pub struct PipelineView {
    pub id: Seq<char>,
    pub strategy: CoverStrategy,
    pub mode: OutputMode,
    pub cover_size: u16,
    pub paths: PathsView,
    pub stage: Stage,
    pub actions: Seq<Action>,
    pub has_cover: bool,
    pub error: Seq<char>,
}

/// One track's run through the pipeline.
pub struct ItemPipeline {
    id: String,
    strategy: CoverStrategy,
    mode: OutputMode,
    cover_size: u16,
    paths: ItemPaths,
    stage: Stage,
    actions: Vec<Action>,
    has_cover: bool,
    error: String,
}

impl View for ItemPipeline {
    type V = PipelineView;

    closed spec fn view(&self) -> PipelineView {
        PipelineView {
            id: self.id@,
            strategy: self.strategy,
            mode: self.mode,
            cover_size: self.cover_size,
            paths: self.paths@,
            stage: self.stage,
            actions: self.actions@,
            has_cover: self.has_cover,
            error: self.error@,
        }
    }
}

pub open spec fn with_stage(s: PipelineView, stage: Stage) -> PipelineView {
    PipelineView { stage, ..s }
}

pub open spec fn failed(s: PipelineView, detail: Seq<char>) -> PipelineView {
    PipelineView { stage: Stage::Failed, error: detail, ..s }
}

/// The detail of a failure caused by a reply that does not fit the request.
pub open spec fn unexpected_reply() -> Seq<char> {
    "unexpected reply"@
}

/// Fails with the reply's own detail, or with [`unexpected_reply`].
pub open spec fn fail_on(s: PipelineView, reply: ReplyView) -> PipelineView {
    match reply {
        ReplyView::Failed(e) => failed(s, e),
        _ => failed(s, unexpected_reply()),
    }
}

/// The stage after the raw audio is in place.
pub open spec fn after_audio(s: PipelineView) -> PipelineView {
    match s.strategy {
        CoverStrategy::EmbeddedExtraction => with_stage(s, Stage::ProbeCover),
        CoverStrategy::RemoteFetch => with_stage(s, Stage::CheckCover),
    }
}

/// The stage after the cover work is over (or skipped).
pub open spec fn after_cover(s: PipelineView) -> PipelineView {
    if s.paths.album is Some {
        with_stage(s, Stage::CheckAlbum)
    } else {
        with_stage(s, Stage::CheckOutput)
    }
}

/// The stage once the raw cover is known present.
pub open spec fn with_cover(s: PipelineView) -> PipelineView {
    PipelineView { stage: Stage::CheckResized, has_cover: true, ..s }
}

/// The track has no cover: the cover stages are skipped.
pub open spec fn without_cover(s: PipelineView) -> PipelineView {
    after_cover(PipelineView { has_cover: false, ..s })
}

pub open spec fn record(s: PipelineView, a: Action) -> PipelineView {
    PipelineView { actions: s.actions.push(a), ..s }
}

/// The action recorded when the raw cover has been obtained.
pub open spec fn cover_action(strategy: CoverStrategy) -> Action {
    match strategy {
        CoverStrategy::EmbeddedExtraction => Action::CoverExtracted,
        CoverStrategy::RemoteFetch => Action::CoverDownloaded,
    }
}

/// The actions recorded once the final file has been written.
pub open spec fn output_actions(has_cover: bool, mode: OutputMode) -> Seq<Action> {
    if has_cover {
        if mode is Transcode {
            seq![Action::CoverEmbedded, Action::Converted]
        } else {
            seq![Action::CoverEmbedded]
        }
    } else if mode is Transcode {
        seq![Action::Converted]
    } else {
        seq![]
    }
}

/// How a pipeline in state `s` moves on `reply`.
pub open spec fn next(s: PipelineView, reply: ReplyView) -> PipelineView {
    match s.stage {
        Stage::CheckAudio => match reply {
            ReplyView::Answer(true) => after_audio(s),
            ReplyView::Answer(false) => with_stage(s, Stage::FetchAudio),
            _ => fail_on(s, reply),
        },
        Stage::FetchAudio => match reply {
            ReplyView::Done => after_audio(record(s, Action::Downloaded)),
            _ => fail_on(s, reply),
        },
        Stage::ProbeCover => match reply {
            ReplyView::Answer(true) => with_stage(s, Stage::CheckCover),
            ReplyView::Answer(false) => without_cover(s),
            _ => fail_on(s, reply),
        },
        Stage::CheckCover => match reply {
            ReplyView::Answer(true) => with_cover(s),
            ReplyView::Answer(false) => with_stage(s, Stage::FetchCover),
            _ => fail_on(s, reply),
        },
        Stage::FetchCover => match reply {
            ReplyView::Done => with_cover(record(s, cover_action(s.strategy))),
            ReplyView::NotFound => without_cover(s),
            _ => fail_on(s, reply),
        },
        Stage::CheckResized => match reply {
            ReplyView::Answer(true) => after_cover(s),
            ReplyView::Answer(false) => with_stage(s, Stage::Resize),
            _ => fail_on(s, reply),
        },
        Stage::Resize => match reply {
            ReplyView::Done => after_cover(record(s, Action::CoverConverted)),
            _ => fail_on(s, reply),
        },
        Stage::CheckAlbum => match reply {
            ReplyView::Answer(true) => with_stage(s, Stage::CheckOutput),
            ReplyView::Answer(false) => with_stage(s, Stage::MakeAlbum),
            _ => fail_on(s, reply),
        },
        Stage::MakeAlbum => match reply {
            ReplyView::Done => if s.has_cover {
                with_stage(s, Stage::CopyAlbumCover)
            } else {
                with_stage(s, Stage::CheckOutput)
            },
            _ => fail_on(s, reply),
        },
        Stage::CopyAlbumCover => match reply {
            ReplyView::Done => with_stage(s, Stage::CheckOutput),
            _ => fail_on(s, reply),
        },
        Stage::CheckOutput => match reply {
            ReplyView::Answer(true) => with_stage(s, Stage::Complete),
            ReplyView::Answer(false) => with_stage(s, Stage::WriteOutput),
            _ => fail_on(s, reply),
        },
        Stage::WriteOutput => match reply {
            ReplyView::Done => PipelineView {
                stage: Stage::Complete,
                actions: s.actions + output_actions(s.has_cover, s.mode),
                ..s
            },
            _ => fail_on(s, reply),
        },
        Stage::Complete => s,
        Stage::Failed => s,
    }
}

pub open spec fn or_empty(p: Option<Seq<char>>) -> Seq<char> {
    match p {
        Some(p) => p,
        None => Seq::empty(),
    }
}

/// The request that a pipeline in state `s` has outstanding.
pub open spec fn request_of(s: PipelineView) -> RequestView {
    let p = s.paths;
    match s.stage {
        Stage::CheckAudio => RequestView::Exists(p.audio),
        Stage::FetchAudio => RequestView::Download {
            id: s.id,
            bitrate: match s.mode {
                OutputMode::Transcode(b) => Some(b),
                OutputMode::Passthrough => None,
            },
            dest: p.audio,
        },
        Stage::ProbeCover => RequestView::Probe(p.audio),
        Stage::CheckCover => RequestView::Exists(p.cover),
        Stage::FetchCover => match s.strategy {
            CoverStrategy::EmbeddedExtraction => RequestView::Extract { audio: p.audio, dest: p.cover },
            CoverStrategy::RemoteFetch => RequestView::FetchCover {
                id: s.id,
                size: s.cover_size,
                dest: p.cover,
            },
        },
        Stage::CheckResized => RequestView::Exists(p.resized),
        Stage::Resize => RequestView::Resize { src: p.cover, dest: p.resized, width: s.cover_size },
        Stage::CheckAlbum => RequestView::Exists(or_empty(p.album)),
        Stage::MakeAlbum => RequestView::MakeDir(or_empty(p.album)),
        Stage::CopyAlbumCover => RequestView::Copy { src: p.resized, dest: or_empty(p.album_cover) },
        Stage::CheckOutput => RequestView::Exists(p.output),
        Stage::WriteOutput => if s.has_cover {
            RequestView::Mux { audio: p.audio, cover: p.resized, dest: p.output }
        } else {
            match s.mode {
                OutputMode::Passthrough => RequestView::Copy { src: p.audio, dest: p.output },
                OutputMode::Transcode(b) => RequestView::Transcode {
                    audio: p.audio,
                    dest: p.output,
                    bitrate: b,
                },
            }
        },
        Stage::Complete => RequestView::Complete,
        Stage::Failed => RequestView::Abort(s.error),
    }
}

/// The state in which every pipeline starts.
pub open spec fn initial(
    id: Seq<char>,
    strategy: CoverStrategy,
    mode: OutputMode,
    cover_size: u16,
    paths: PathsView,
) -> PipelineView {
    PipelineView {
        id,
        strategy,
        mode,
        cover_size,
        paths,
        stage: Stage::CheckAudio,
        actions: Seq::empty(),
        has_cover: false,
        error: Seq::empty(),
    }
}

/// A failure at any stage ends the track at once: the pipeline stops, and
/// its outstanding request is to abort with the failure's own detail.
pub proof fn lemma_failure_aborts(s: PipelineView, detail: Seq<char>)
    requires
        s.stage != Stage::Complete,
        s.stage != Stage::Failed,
    ensures
        next(s, ReplyView::Failed(detail)).stage == Stage::Failed,
        request_of(next(s, ReplyView::Failed(detail))) == RequestView::Abort(detail),
        next(s, ReplyView::Failed(detail)).actions == s.actions,
{
}

/// The JPEG quality to which resized covers are recompressed.
pub const COVER_QUALITY: usize = 75;

/// The height of a cover resized to `width`, keeping the source's aspect
/// ratio (rounded to the nearest integer, halves up, at least 1); a source
/// without width stays square.
pub open spec fn height_for(src_width: nat, src_height: nat, width: nat) -> nat {
    if src_width == 0 {
        width
    } else {
        let h = (src_height * width + src_width / 2) / src_width;
        if h == 0 {
            1
        } else {
            h
        }
    }
}

/// The height of a `src_width` x `src_height` cover resized to `width`
/// (see [`height_for`]).
pub fn resized_height(src_width: u32, src_height: u32, width: u16) -> (r: u64)
    ensures
        r as nat == height_for(src_width as nat, src_height as nat, width as nat),
{
    if src_width == 0 {
        return width as u64;
    }
    assert((src_height as u64) * (width as u64) <= 0xffff_ffff * 0xffff) by (nonlinear_arith)
        requires
            src_height <= 0xffff_ffffu32,
            width <= 0xffffu16,
    ;
    let h = ((src_height as u64) * (width as u64) + (src_width as u64) / 2) / (src_width as u64);
    if h == 0 {
        1
    } else {
        h
    }
}

fn copy_opt(p: &Option<String>) -> (r: String)
    ensures
        r@ == or_empty(opt_view(*p)),
{
    match p {
        Some(p) => p.clone(),
        None => String::new(),
    }
}

impl Session {
    /// A pipeline for `track` in this session, in its initial state.
    pub fn pipeline(&self, track: &SubSonicSong) -> (r: ItemPipeline)
        ensures
            r@ == initial(track.id@, self.strategy, self.mode, self.cover_size, self.paths_spec(track)),
    {
        ItemPipeline {
            id: track.id.clone(),
            strategy: self.strategy,
            mode: self.mode,
            cover_size: self.cover_size,
            paths: self.paths(track),
            stage: Stage::CheckAudio,
            actions: Vec::new(),
            has_cover: false,
            error: String::new(),
        }
    }
}

impl ItemPipeline {
    pub fn stage(&self) -> (r: Stage)
        ensures
            r == self@.stage,
    {
        self.stage
    }

    /// The actions recorded so far.
    pub fn actions(&self) -> (r: &Vec<Action>)
        ensures
            r@ == self@.actions,
    {
        &self.actions
    }

    /// The request outstanding (see [`request_of`]).
    pub fn request(&self) -> (r: Request)
        ensures
            r@ == request_of(self@),
    {
        let p = &self.paths;
        match self.stage {
            Stage::CheckAudio => Request::Exists(p.audio.clone()),
            Stage::FetchAudio => Request::Download {
                id: self.id.clone(),
                bitrate: match self.mode {
                    OutputMode::Transcode(b) => Some(b),
                    OutputMode::Passthrough => None,
                },
                dest: p.audio.clone(),
            },
            Stage::ProbeCover => Request::Probe(p.audio.clone()),
            Stage::CheckCover => Request::Exists(p.cover.clone()),
            Stage::FetchCover => match self.strategy {
                CoverStrategy::EmbeddedExtraction => Request::Extract {
                    audio: p.audio.clone(),
                    dest: p.cover.clone(),
                },
                CoverStrategy::RemoteFetch => Request::FetchCover {
                    id: self.id.clone(),
                    size: self.cover_size,
                    dest: p.cover.clone(),
                },
            },
            Stage::CheckResized => Request::Exists(p.resized.clone()),
            Stage::Resize => Request::Resize {
                src: p.cover.clone(),
                dest: p.resized.clone(),
                width: self.cover_size,
            },
            Stage::CheckAlbum => Request::Exists(copy_opt(&p.album)),
            Stage::MakeAlbum => Request::MakeDir(copy_opt(&p.album)),
            Stage::CopyAlbumCover => Request::Copy {
                src: p.resized.clone(),
                dest: copy_opt(&p.album_cover),
            },
            Stage::CheckOutput => Request::Exists(p.output.clone()),
            Stage::WriteOutput => if self.has_cover {
                Request::Mux { audio: p.audio.clone(), cover: p.resized.clone(), dest: p.output.clone() }
            } else {
                match self.mode {
                    OutputMode::Passthrough => Request::Copy {
                        src: p.audio.clone(),
                        dest: p.output.clone(),
                    },
                    OutputMode::Transcode(b) => Request::Transcode {
                        audio: p.audio.clone(),
                        dest: p.output.clone(),
                        bitrate: b,
                    },
                }
            },
            Stage::Complete => Request::Complete,
            Stage::Failed => Request::Abort(self.error.clone()),
        }
    }

    fn fail(&mut self, reply: Reply)
        ensures
            final(self)@ == fail_on(old(self)@, reply@),
    {
        self.stage = Stage::Failed;
        self.error = match reply {
            Reply::Failed(e) => e,
            _ => String::from_str("unexpected reply"),
        };
    }

    fn go_after_audio(&mut self)
        ensures
            final(self)@ == after_audio(old(self)@),
    {
        self.stage = match self.strategy {
            CoverStrategy::EmbeddedExtraction => Stage::ProbeCover,
            CoverStrategy::RemoteFetch => Stage::CheckCover,
        };
    }

    fn go_after_cover(&mut self)
        ensures
            final(self)@ == after_cover(old(self)@),
    {
        self.stage = if self.paths.album.is_some() {
            Stage::CheckAlbum
        } else {
            Stage::CheckOutput
        };
    }

    /// Moves on `reply` to the request outstanding (see [`next`]).
    pub fn step(&mut self, reply: Reply)
        ensures
            final(self)@ == next(old(self)@, reply@),
    {
        match self.stage {
            Stage::CheckAudio => match reply {
                Reply::Answer(true) => self.go_after_audio(),
                Reply::Answer(false) => self.stage = Stage::FetchAudio,
                _ => self.fail(reply),
            },
            Stage::FetchAudio => match reply {
                Reply::Done => {
                    self.actions.push(Action::Downloaded);
                    self.go_after_audio();
                },
                _ => self.fail(reply),
            },
            Stage::ProbeCover => match reply {
                Reply::Answer(true) => self.stage = Stage::CheckCover,
                Reply::Answer(false) => {
                    self.has_cover = false;
                    self.go_after_cover();
                },
                _ => self.fail(reply),
            },
            Stage::CheckCover => match reply {
                Reply::Answer(true) => {
                    self.has_cover = true;
                    self.stage = Stage::CheckResized;
                },
                Reply::Answer(false) => self.stage = Stage::FetchCover,
                _ => self.fail(reply),
            },
            Stage::FetchCover => match reply {
                Reply::Done => {
                    let a = match self.strategy {
                        CoverStrategy::EmbeddedExtraction => Action::CoverExtracted,
                        CoverStrategy::RemoteFetch => Action::CoverDownloaded,
                    };
                    self.actions.push(a);
                    self.has_cover = true;
                    self.stage = Stage::CheckResized;
                },
                Reply::NotFound => {
                    self.has_cover = false;
                    self.go_after_cover();
                },
                _ => self.fail(reply),
            },
            Stage::CheckResized => match reply {
                Reply::Answer(true) => self.go_after_cover(),
                Reply::Answer(false) => self.stage = Stage::Resize,
                _ => self.fail(reply),
            },
            Stage::Resize => match reply {
                Reply::Done => {
                    self.actions.push(Action::CoverConverted);
                    self.go_after_cover();
                },
                _ => self.fail(reply),
            },
            Stage::CheckAlbum => match reply {
                Reply::Answer(true) => self.stage = Stage::CheckOutput,
                Reply::Answer(false) => self.stage = Stage::MakeAlbum,
                _ => self.fail(reply),
            },
            Stage::MakeAlbum => match reply {
                Reply::Done => {
                    self.stage = if self.has_cover {
                        Stage::CopyAlbumCover
                    } else {
                        Stage::CheckOutput
                    };
                },
                _ => self.fail(reply),
            },
            Stage::CopyAlbumCover => match reply {
                Reply::Done => self.stage = Stage::CheckOutput,
                _ => self.fail(reply),
            },
            Stage::CheckOutput => match reply {
                Reply::Answer(true) => self.stage = Stage::Complete,
                Reply::Answer(false) => self.stage = Stage::WriteOutput,
                _ => self.fail(reply),
            },
            Stage::WriteOutput => match reply {
                Reply::Done => {
                    let transcode = match self.mode {
                        OutputMode::Transcode(_) => true,
                        OutputMode::Passthrough => false,
                    };
                    let ghost before = self.actions@;
                    if self.has_cover {
                        self.actions.push(Action::CoverEmbedded);
                    }
                    if transcode {
                        self.actions.push(Action::Converted);
                    }
                    assert(self.actions@ =~= before + output_actions(self.has_cover, self.mode));
                    self.stage = Stage::Complete;
                },
                _ => self.fail(reply),
            },
            Stage::Complete => {},
            Stage::Failed => {},
        }
    }

    /// Once the pipeline is over: the actions taken, or the failure's detail.
    pub fn outcome(self) -> (r: Option<Result<Vec<Action>, String>>)
        ensures
            self@.stage == Stage::Complete ==> (r matches Some(Ok(a)) && a@ == self@.actions),
            self@.stage == Stage::Failed ==> (r matches Some(Err(e)) && e@ == self@.error),
            self@.stage != Stage::Complete && self@.stage != Stage::Failed ==> r is None,
    {
        match self.stage {
            Stage::Complete => Some(Ok(self.actions)),
            Stage::Failed => Some(Err(self.error)),
            _ => None,
        }
    }
}

} // verus!
