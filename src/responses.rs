//! The records that the media server's XML replies carry.

use vstd::prelude::*;

verus! {

/// The error block of a reply: a numeric code and a message.
#[derive(Debug, PartialEq)]
pub struct SubSonicError {
    pub code: u16,
    pub message: String,
}

/// The envelope of every reply: its status (`"ok"` on success) and, on
/// failure, an optional error block.
#[derive(Debug, PartialEq)]
pub struct SubSonicErrorResponse {
    pub status: String,
    pub error: Option<SubSonicError>,
}

/// One remote track.
#[derive(Debug, PartialEq)]
pub struct SubSonicSong {
    pub id: String,
    pub title: String,
    pub track: Option<u16>,
    pub album: String,
    pub artist: String,
    pub suffix: String,
    pub size: u64,
}

/// A named playlist and its tracks, in order.
#[derive(Debug, PartialEq)]
pub struct SubSonicPlaylist {
    pub songs: Vec<SubSonicSong>,
    pub name: String,
}

/// The reply to a playlist listing.
#[derive(Debug, PartialEq)]
pub struct SubSonicPlaylistResponse {
    pub playlist: SubSonicPlaylist,
}

/// The favourite tracks, in order.
#[derive(Debug, PartialEq)]
pub struct SubSonicStarred {
    pub songs: Vec<SubSonicSong>,
}

/// The reply to a favourites listing.
#[derive(Debug, PartialEq)]
pub struct SubSonicStarredResponse {
    pub starred: SubSonicStarred,
}

} // verus!
