//! The daemon's decisions: wait for a device that holds the marker file,
//! sync it, wait for it to go away, and search again. The caller does the
//! waiting and looking; [`daemon_next`] says what to do next.

use vstd::prelude::*;
use crate::text::same_text;

verus! {

/// The file whose presence in a directory marks a device to sync.
pub const MARKER_FILE: &'static str = "rocksonic.json";

/// How long to wait between searches for a device, in milliseconds.
pub const SEARCH_INTERVAL_MS: u64 = 500;

/// How long to wait between checks that a synced device is gone.
pub const REMOVAL_INTERVAL_MS: u64 = 100;

pub open spec fn has_marker(names: Seq<String>) -> bool {
    exists|k: int| 0 <= k < names.len() && names[k]@ == MARKER_FILE@
}

fn holds_marker(names: &Vec<String>) -> (r: bool)
    ensures
        r == has_marker(names@),
{
    let mut i: usize = 0;
    while i < names.len()
        invariant
            i <= names.len(),
            forall|k: int| 0 <= k < i ==> names@[k]@ != MARKER_FILE@,
        decreases names.len() - i,
    {
        if same_text(names[i].as_str(), MARKER_FILE) {
            return true;
        }
        i = i + 1;
    }
    false
}

/// The first of the directories, each given by the names of its entries,
/// that holds the marker file.
pub fn find_marker(dirs: &Vec<Vec<String>>) -> (r: Option<usize>)
    ensures
        r matches Some(i) ==> i < dirs@.len() && has_marker(dirs@[i as int]@) && forall|j: int|
            0 <= j < i ==> !has_marker(#[trigger] dirs@[j]@),
        r is None ==> forall|j: int| 0 <= j < dirs@.len() ==> !has_marker(#[trigger] dirs@[j]@),
{
    let mut i: usize = 0;
    while i < dirs.len()
        invariant
            i <= dirs.len(),
            forall|j: int| 0 <= j < i ==> !has_marker(#[trigger] dirs@[j]@),
        decreases dirs.len() - i,
    {
        if holds_marker(&dirs[i]) {
            return Some(i);
        }
        i = i + 1;
    }
    None
}

/// Where the daemon stands.
#[derive(Debug)]
pub enum DaemonState {
    /// Looking for a device.
    Searching,
    /// Syncing the device mounted here.
    Syncing(String),
    /// Waiting for the synced device mounted here to go away.
    Draining(String),
}

/// What the caller reports after doing a [`DaemonAction`].
#[derive(Debug)]
pub enum DaemonEvent {
    /// A search ended, with the directory of a device that holds the marker, if any.
    Scanned(Option<String>),
    /// The session on the device is over.
    SessionEnded,
    /// Whether the device's directory is still there.
    StillMounted(bool),
}

/// What the daemon does next.
#[derive(Debug)]
pub enum DaemonAction {
    /// Wait this long, then search for a device.
    Search { after_ms: u64 },
    /// Run one session on the device mounted here.
    Sync(String),
    /// Wait this long, then check whether the directory is still there.
    CheckGone { path: String, after_ms: u64 },
}

pub enum DaemonStateView {
    Searching,
    Syncing(Seq<char>),
    Draining(Seq<char>),
}

pub enum DaemonActionView {
    Search { after_ms: u64 },
    Sync(Seq<char>),
    CheckGone { path: Seq<char>, after_ms: u64 },
}

impl View for DaemonState {
    type V = DaemonStateView;

    open spec fn view(&self) -> DaemonStateView {
        match self {
            DaemonState::Searching => DaemonStateView::Searching,
            DaemonState::Syncing(d) => DaemonStateView::Syncing(d@),
            DaemonState::Draining(d) => DaemonStateView::Draining(d@),
        }
    }
}

impl View for DaemonAction {
    type V = DaemonActionView;

    open spec fn view(&self) -> DaemonActionView {
        match self {
            DaemonAction::Search { after_ms } => DaemonActionView::Search { after_ms: *after_ms },
            DaemonAction::Sync(d) => DaemonActionView::Sync(d@),
            DaemonAction::CheckGone { path, after_ms } => DaemonActionView::CheckGone {
                path: path@,
                after_ms: *after_ms,
            },
        }
    }
}

/// What the daemon does while in `s`.
pub open spec fn action_in(s: DaemonStateView) -> DaemonActionView {
    match s {
        DaemonStateView::Searching => DaemonActionView::Search { after_ms: SEARCH_INTERVAL_MS },
        DaemonStateView::Syncing(d) => DaemonActionView::Sync(d),
        DaemonStateView::Draining(d) => DaemonActionView::CheckGone {
            path: d,
            after_ms: REMOVAL_INTERVAL_MS,
        },
    }
}

/// Where the daemon goes from `s` on `e`: a found device is synced, a synced
/// one is watched until it goes, then the search starts again. An event
/// that does not fit the state leaves it as it is.
pub open spec fn daemon_step(s: DaemonStateView, e: DaemonEvent) -> DaemonStateView {
    match (s, e) {
        (DaemonStateView::Searching, DaemonEvent::Scanned(Some(d))) => DaemonStateView::Syncing(d@),
        (DaemonStateView::Syncing(d), DaemonEvent::SessionEnded) => DaemonStateView::Draining(d),
        (DaemonStateView::Draining(_), DaemonEvent::StillMounted(false)) => DaemonStateView::Searching,
        _ => s,
    }
}

fn action_for(s: &DaemonState) -> (r: DaemonAction)
    ensures
        r@ == action_in(s@),
{
    match s {
        DaemonState::Searching => DaemonAction::Search { after_ms: SEARCH_INTERVAL_MS },
        DaemonState::Syncing(d) => DaemonAction::Sync(d.clone()),
        DaemonState::Draining(d) => DaemonAction::CheckGone {
            path: d.clone(),
            after_ms: REMOVAL_INTERVAL_MS,
        },
    }
}

/// The state the daemon starts in, and what it does first.
pub fn daemon_start() -> (r: (DaemonState, DaemonAction))
    ensures
        r.0@ == DaemonStateView::Searching,
        r.1@ == action_in(r.0@),
{
    (DaemonState::Searching, DaemonAction::Search { after_ms: SEARCH_INTERVAL_MS })
}

/// The daemon's next state on `e` (see [`daemon_step`]), and what it does there.
pub fn daemon_next(s: DaemonState, e: DaemonEvent) -> (r: (DaemonState, DaemonAction))
    ensures
        r.0@ == daemon_step(s@, e),
        r.1@ == action_in(r.0@),
{
    let next = match (s, e) {
        (DaemonState::Searching, DaemonEvent::Scanned(Some(d))) => DaemonState::Syncing(d),
        (DaemonState::Syncing(d), DaemonEvent::SessionEnded) => DaemonState::Draining(d),
        (DaemonState::Draining(_), DaemonEvent::StillMounted(false)) => DaemonState::Searching,
        (s, _) => s,
    };
    let action = action_for(&next);
    (next, action)
}

} // verus!
