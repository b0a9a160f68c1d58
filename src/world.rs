//! A model of what the pipeline's caller sees: which paths exist, which
//! audio files carry a picture stream and which tracks have cover art on the
//! server, with every operation succeeding. Driving a pipeline against it
//! states what a run does, and what running it again does.

use vstd::prelude::*;
use crate::layout::{CoverStrategy, OutputMode, PathsView};
use crate::pipeline::{
    initial, next, or_empty, output_actions, request_of, Action, PipelineView, ReplyView,
    RequestView, Stage,
};

verus! {

/// What the pipeline's caller would find.
pub struct World {
    /// Paths that exist.
    pub files: Set<Seq<char>>,
    /// Audio files that carry a picture stream.
    pub pictures: Set<Seq<char>>,
    /// Track ids for which the server has cover art.
    pub covers: Set<Seq<char>>,
}

/// The reply that the world gives to a request.
pub open spec fn answer(w: World, r: RequestView) -> ReplyView {
    match r {
        RequestView::Exists(p) => ReplyView::Answer(w.files.contains(p)),
        RequestView::Probe(p) => ReplyView::Answer(w.pictures.contains(p)),
        RequestView::FetchCover { id, .. } => if w.covers.contains(id) {
            ReplyView::Done
        } else {
            ReplyView::NotFound
        },
        _ => ReplyView::Done,
    }
}

pub open spec fn created(w: World, p: Seq<char>) -> World {
    World { files: w.files.insert(p), ..w }
}

/// The world after a request has been carried out.
pub open spec fn effect(w: World, r: RequestView) -> World {
    match r {
        RequestView::Download { dest, .. } => created(w, dest),
        RequestView::Extract { dest, .. } => created(w, dest),
        RequestView::FetchCover { id, dest, .. } => if w.covers.contains(id) {
            created(w, dest)
        } else {
            w
        },
        RequestView::Resize { dest, .. } => created(w, dest),
        RequestView::MakeDir(p) => created(w, p),
        RequestView::Copy { dest, .. } => created(w, dest),
        RequestView::Mux { dest, .. } => created(w, dest),
        RequestView::Transcode { dest, .. } => created(w, dest),
        _ => w,
    }
}

/// Whether carrying out the request writes to the file system.
pub open spec fn writes(w: World, r: RequestView) -> bool {
    match r {
        RequestView::Exists(_) => false,
        RequestView::Probe(_) => false,
        RequestView::FetchCover { id, .. } => w.covers.contains(id),
        RequestView::Complete => false,
        RequestView::Abort(_) => false,
        _ => true,
    }
}

/// At most this many requests precede the end of a run.
pub open spec fn max_steps() -> nat {
    12
}

/// The pipeline driven against the world for at most `fuel` requests: the
/// state it ends in and the world it leaves.
pub open spec fn run(s: PipelineView, w: World, fuel: nat) -> (PipelineView, World)
    decreases fuel,
{
    if fuel == 0 || s.stage == Stage::Complete || s.stage == Stage::Failed {
        (s, w)
    } else {
        let r = request_of(s);
        run(next(s, answer(w, r)), effect(w, r), (fuel - 1) as nat)
    }
}

/// Whether the run of at most `fuel` requests writes anything.
pub open spec fn run_writes(s: PipelineView, w: World, fuel: nat) -> bool
    decreases fuel,
{
    if fuel == 0 || s.stage == Stage::Complete || s.stage == Stage::Failed {
        false
    } else {
        let r = request_of(s);
        writes(w, r) || run_writes(next(s, answer(w, r)), effect(w, r), (fuel - 1) as nat)
    }
}

/// The requests that the run of at most `fuel` requests carries out, in order.
pub open spec fn run_requests(s: PipelineView, w: World, fuel: nat) -> Seq<RequestView>
    decreases fuel,
{
    if fuel == 0 || s.stage == Stage::Complete || s.stage == Stage::Failed {
        seq![]
    } else {
        let r = request_of(s);
        seq![r] + run_requests(next(s, answer(w, r)), effect(w, r), (fuel - 1) as nat)
    }
}

/// The paths of a track's artifacts that exist in its layout: the album
/// directory and its cover only in the nested one.
pub open spec fn present_paths(p: PathsView) -> Seq<Seq<char>> {
    let core = seq![p.audio, p.cover, p.resized, p.output];
    match (p.album, p.album_cover) {
        (Some(a), Some(c)) => core + seq![a, c],
        _ => core,
    }
}

/// A well-formed set of paths: the album directory and its cover come
/// together, and every artifact present has a path of its own.
pub open spec fn distinct_paths(p: PathsView) -> bool {
    &&& (p.album is Some <==> p.album_cover is Some)
    &&& forall|i: int, j: int|
        0 <= i < j < present_paths(p).len() ==> present_paths(p)[i] != present_paths(p)[j]
}

/// The inequalities between paths that the runs rely on.
proof fn lemma_distinct(p: PathsView)
    requires
        distinct_paths(p),
    ensures
        p.audio != p.cover,
        p.audio != p.output,
        p.cover != p.resized,
        p.cover != p.output,
        p.resized != p.output,
        p.album is Some ==> or_empty(p.album) != p.cover && or_empty(p.album) != p.output,
        p.album is Some ==> or_empty(p.album_cover) != p.cover && or_empty(p.album_cover)
            != p.output,
{
    let all = present_paths(p);
    assert(all[0] != all[1] && all[0] != all[3] && all[1] != all[2] && all[1] != all[3] && all[2]
        != all[3]);
    if p.album is Some {
        assert(all[4] == or_empty(p.album) && all[5] == or_empty(p.album_cover));
        assert(all[1] != all[4] && all[3] != all[4] && all[1] != all[5] && all[3] != all[5]);
    }
}

/// Where a stage stands in the run: every move goes to a lower rank.
pub open spec fn rank(st: Stage) -> nat {
    match st {
        Stage::CheckAudio => 12,
        Stage::FetchAudio => 11,
        Stage::ProbeCover => 10,
        Stage::CheckCover => 9,
        Stage::FetchCover => 8,
        Stage::CheckResized => 7,
        Stage::Resize => 6,
        Stage::CheckAlbum => 5,
        Stage::MakeAlbum => 4,
        Stage::CopyAlbumCover => 3,
        Stage::CheckOutput => 2,
        Stage::WriteOutput => 1,
        Stage::Complete => 0,
        Stage::Failed => 0,
    }
}

/// Whether a cover can be had for the track in this world.
pub open spec fn cover_available(s: PipelineView, w: World) -> bool {
    match s.strategy {
        CoverStrategy::EmbeddedExtraction => w.pictures.contains(s.paths.audio),
        CoverStrategy::RemoteFetch => w.files.contains(s.paths.cover) || w.covers.contains(s.id),
    }
}

/// Every artifact that a run of the track needs is in place.
pub open spec fn settled(s: PipelineView, w: World) -> bool {
    let p = s.paths;
    &&& w.files.contains(p.audio)
    &&& cover_available(s, w) ==> w.files.contains(p.cover) && w.files.contains(p.resized)
    &&& p.album is Some ==> w.files.contains(or_empty(p.album))
    &&& w.files.contains(p.output)
}

/// The cover stages are over and have left what the track's cover needs.
pub open spec fn cover_settled(s: PipelineView, w: World) -> bool {
    if s.has_cover {
        w.files.contains(s.paths.cover) && w.files.contains(s.paths.resized)
    } else {
        !cover_available(s, w)
    }
}

/// What a first run has established by the time it reaches `s.stage`.
pub open spec fn progress(s: PipelineView, w: World) -> bool {
    let p = s.paths;
    let f = w.files;
    let embedded = s.strategy == CoverStrategy::EmbeddedExtraction;
    match s.stage {
        Stage::CheckAudio => true,
        Stage::FetchAudio => true,
        Stage::ProbeCover => f.contains(p.audio) && embedded,
        Stage::CheckCover => f.contains(p.audio) && (embedded ==> w.pictures.contains(p.audio)),
        Stage::FetchCover => {
            &&& f.contains(p.audio)
            &&& !f.contains(p.cover)
            &&& embedded ==> w.pictures.contains(p.audio)
        },
        Stage::CheckResized => f.contains(p.audio) && s.has_cover && f.contains(p.cover),
        Stage::Resize => f.contains(p.audio) && s.has_cover && f.contains(p.cover),
        Stage::CheckAlbum => f.contains(p.audio) && cover_settled(s, w) && p.album is Some,
        Stage::MakeAlbum => f.contains(p.audio) && cover_settled(s, w) && p.album is Some,
        Stage::CopyAlbumCover => {
            &&& f.contains(p.audio)
            &&& cover_settled(s, w)
            &&& s.has_cover
            &&& p.album is Some
            &&& f.contains(or_empty(p.album))
        },
        Stage::CheckOutput => {
            &&& f.contains(p.audio)
            &&& cover_settled(s, w)
            &&& p.album is Some ==> f.contains(or_empty(p.album))
        },
        Stage::WriteOutput => {
            &&& f.contains(p.audio)
            &&& cover_settled(s, w)
            &&& p.album is Some ==> f.contains(or_empty(p.album))
        },
        Stage::Complete => settled(s, w) && cover_settled(s, w),
        Stage::Failed => true,
    }
}

/// A run that completes leaves every artifact of the track in place.
proof fn lemma_run_settles(s: PipelineView, w: World, fuel: nat)
    requires
        distinct_paths(s.paths),
        progress(s, w),
    ensures
        run(s, w, fuel).0.stage == Stage::Complete ==> settled(s, run(s, w, fuel).1),
    decreases fuel,
{
    if fuel == 0 || s.stage == Stage::Complete || s.stage == Stage::Failed {
    } else {
        let r = request_of(s);
        let s2 = next(s, answer(w, r));
        let w2 = effect(w, r);
        let p = s.paths;
        lemma_distinct(p);
        assert(progress(s2, w2));
        lemma_run_settles(s2, w2, (fuel - 1) as nat);
    }
}

/// What a run in a settled world has seen by the time it reaches `s.stage`:
/// only checks answered so that nothing is to be done.
pub open spec fn quiet(s: PipelineView, w: World) -> bool {
    &&& s.actions == Seq::<Action>::empty()
    &&& match s.stage {
        Stage::CheckAudio => true,
        Stage::ProbeCover => s.strategy == CoverStrategy::EmbeddedExtraction,
        Stage::CheckCover => s.strategy == CoverStrategy::RemoteFetch || w.pictures.contains(
            s.paths.audio,
        ),
        Stage::FetchCover => s.strategy == CoverStrategy::RemoteFetch && !cover_available(s, w),
        Stage::CheckResized => cover_available(s, w),
        Stage::CheckAlbum => s.paths.album is Some,
        Stage::CheckOutput => true,
        Stage::Complete => true,
        _ => false,
    }
}

/// In a settled world a run only checks: it completes with no action and
/// changes nothing.
proof fn lemma_settled_run_is_quiet(s: PipelineView, w: World, fuel: nat)
    requires
        settled(s, w),
        quiet(s, w),
        fuel >= rank(s.stage),
    ensures
        run(s, w, fuel).0.stage == Stage::Complete,
        run(s, w, fuel).0.actions == Seq::<Action>::empty(),
        run(s, w, fuel).1 == w,
        !run_writes(s, w, fuel),
    decreases fuel,
{
    if s.stage == Stage::Complete {
    } else {
        let r = request_of(s);
        let s2 = next(s, answer(w, r));
        assert(effect(w, r) == w);
        assert(!writes(w, r));
        assert(quiet(s2, w));
        assert(rank(s2.stage) < rank(s.stage));
        lemma_settled_run_is_quiet(s2, w, (fuel - 1) as nat);
    }
}

/// The request that writes the final file of a track: a mux where it has a
/// cover, else a copy of the raw audio or a transcode.
pub open spec fn final_write(p: PathsView, cover: bool, mode: OutputMode) -> RequestView {
    if cover {
        RequestView::Mux { audio: p.audio, cover: p.resized, dest: p.output }
    } else {
        match mode {
            OutputMode::Passthrough => RequestView::Copy { src: p.audio, dest: p.output },
            OutputMode::Transcode(b) => RequestView::Transcode { audio: p.audio, dest: p.output, bitrate: b },
        }
    }
}

/// What a first run, whose track can have a cover exactly when `avail`
/// holds, has established by the time it reaches `s.stage`.
pub open spec fn cover_course(s: PipelineView, w: World, avail: bool) -> bool {
    let p = s.paths;
    let remote = s.strategy == CoverStrategy::RemoteFetch;
    &&& s.stage != Stage::Failed
    &&& s.stage != Stage::Complete ==> !w.files.contains(p.output)
    &&& s.stage != Stage::Complete ==> !s.actions.contains(Action::CoverEmbedded)
    &&& s.stage == Stage::Complete ==> s.actions.contains(Action::CoverEmbedded) == avail
    &&& rank(s.stage) <= 7 ==> s.has_cover == avail
    &&& 3 <= rank(s.stage) <= 5 ==> p.album is Some
    &&& 6 <= rank(s.stage) <= 7 ==> s.has_cover
    &&& !avail && s.mode == OutputMode::Passthrough ==> forall|k: int|
        0 <= k < s.actions.len() ==> s.actions[k] == Action::Downloaded
    &&& match s.stage {
        Stage::CheckAudio => avail == cover_available(s, w),
        Stage::FetchAudio => avail == cover_available(s, w),
        Stage::ProbeCover => !remote && avail == cover_available(s, w),
        Stage::CheckCover => if remote {
            avail == cover_available(s, w)
        } else {
            avail
        },
        Stage::FetchCover => if remote {
            avail == w.covers.contains(s.id)
        } else {
            avail
        },
        _ => true,
    }
}

/// The rest of a first run from `s` completes, writes the final file as
/// [`final_write`] says, and muxes only where the track has a cover.
proof fn lemma_cover_course(s: PipelineView, w: World, avail: bool, fuel: nat)
    requires
        distinct_paths(s.paths),
        cover_course(s, w, avail),
        fuel >= rank(s.stage),
    ensures
        run(s, w, fuel).0.stage == Stage::Complete,
        run(s, w, fuel).0.actions.contains(Action::CoverEmbedded) == avail,
        !avail && s.mode == OutputMode::Passthrough ==> forall|k: int|
            0 <= k < run(s, w, fuel).0.actions.len() ==> run(s, w, fuel).0.actions[k]
                == Action::Downloaded,
        s.stage != Stage::Complete ==> run_requests(s, w, fuel).contains(
            final_write(s.paths, avail, s.mode),
        ),
        !avail ==> forall|k: int|
            0 <= k < run_requests(s, w, fuel).len() ==> !(run_requests(s, w, fuel)[k] is Mux),
    decreases fuel,
{
    if s.stage != Stage::Complete {
        let r = request_of(s);
        let s2 = next(s, answer(w, r));
        let w2 = effect(w, r);
        let p = s.paths;
        lemma_distinct(p);
        if s.stage == Stage::WriteOutput {
            let added = output_actions(s.has_cover, s.mode);
            assert(s2.actions == s.actions + added);
            if avail {
                assert(s2.actions[s.actions.len() as int] == Action::CoverEmbedded);
            } else {
                assert forall|k: int| 0 <= k < s2.actions.len() implies s2.actions[k]
                    != Action::CoverEmbedded by {
                    if k < s.actions.len() {
                        assert(s2.actions[k] == s.actions[k]);
                    }
                }
            }
        }
        assert(cover_course(s2, w2, avail));
        assert(rank(s2.stage) < rank(s.stage));
        lemma_cover_course(s2, w2, avail, (fuel - 1) as nat);
        let rest = run_requests(s2, w2, (fuel - 1) as nat);
        let all_reqs = run_requests(s, w, fuel);
        assert(all_reqs == seq![r] + rest);
        if s.stage == Stage::WriteOutput {
            assert(all_reqs[0] == final_write(s.paths, avail, s.mode));
        } else {
            let k = choose|k: int| 0 <= k < rest.len() && rest[k] == final_write(s.paths, avail, s.mode);
            assert(all_reqs[k + 1] == rest[k]);
        }
        if !avail {
            assert forall|k: int| 0 <= k < all_reqs.len() implies !(all_reqs[k] is Mux) by {
                if k > 0 {
                    assert(all_reqs[k] == rest[k - 1]);
                }
            }
        }
    }
}

/// A first run of a track whose final file does not exist yet completes.
/// Where a cover can be had (embedded in the audio or on the server, as the
/// session's strategy says), it writes the final file by muxing and records
/// `CoverEmbedded`; where none can, it never muxes, records no
/// `CoverEmbedded`, and without transcoding the final file is a copy of the
/// raw audio and nothing but `Downloaded` is recorded.
pub proof fn lemma_cover_presence_decides_output(
    id: Seq<char>,
    strategy: CoverStrategy,
    mode: OutputMode,
    cover_size: u16,
    paths: PathsView,
    w: World,
)
    requires
        distinct_paths(paths),
        !w.files.contains(paths.output),
    ensures
        ({
            let s0 = initial(id, strategy, mode, cover_size, paths);
            let end = run(s0, w, max_steps()).0;
            let done = run_requests(s0, w, max_steps());
            let avail = cover_available(s0, w);
            &&& end.stage == Stage::Complete
            &&& avail ==> done.contains(
                RequestView::Mux { audio: paths.audio, cover: paths.resized, dest: paths.output },
            )
            &&& end.actions.contains(Action::CoverEmbedded) == avail
            &&& !avail ==> forall|k: int| 0 <= k < done.len() ==> !(done[k] is Mux)
            &&& !avail && mode == OutputMode::Passthrough ==> done.contains(
                RequestView::Copy { src: paths.audio, dest: paths.output },
            )
            &&& !avail && mode == OutputMode::Passthrough ==> forall|k: int|
                0 <= k < end.actions.len() ==> end.actions[k] == Action::Downloaded
        }),
{
    let s0 = initial(id, strategy, mode, cover_size, paths);
    lemma_cover_course(s0, w, cover_available(s0, w), max_steps());
}

/// In this world every request succeeds, so a run that has not failed
/// completes within as many requests as its stage's rank.
proof fn lemma_run_completes(s: PipelineView, w: World, fuel: nat)
    requires
        s.stage != Stage::Failed,
        fuel >= rank(s.stage),
    ensures
        run(s, w, fuel).0.stage == Stage::Complete,
    decreases fuel,
{
    if s.stage != Stage::Complete {
        let r = request_of(s);
        let s2 = next(s, answer(w, r));
        assert(s2.stage != Stage::Failed && rank(s2.stage) < rank(s.stage));
        lemma_run_completes(s2, effect(w, r), (fuel - 1) as nat);
    }
}

/// A first run of a track completes, and running the pipeline again then
/// takes no action and changes nothing: the second run ends complete with an
/// empty list of actions, writes no file (so the final file stays as the
/// first run wrote it) and leaves the world as the first run left it.
pub proof fn lemma_rerun_takes_no_action(
    id: Seq<char>,
    strategy: CoverStrategy,
    mode: OutputMode,
    cover_size: u16,
    paths: PathsView,
    w: World,
)
    requires
        distinct_paths(paths),
    ensures
        ({
            let s0 = initial(id, strategy, mode, cover_size, paths);
            let (s1, w1) = run(s0, w, max_steps());
            let (s2, w2) = run(s0, w1, max_steps());
            &&& s1.stage == Stage::Complete
            &&& s2.stage == Stage::Complete
            &&& s2.actions == Seq::<Action>::empty()
            &&& w2 == w1
            &&& !run_writes(s0, w1, max_steps())
        }),
{
    let s0 = initial(id, strategy, mode, cover_size, paths);
    lemma_run_completes(s0, w, max_steps());
    lemma_run_settles(s0, w, max_steps());
    let w1 = run(s0, w, max_steps()).1;
    lemma_settled_run_is_quiet(s0, w1, max_steps());
}

} // verus!
