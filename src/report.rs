//! Reporting a batch: one line per finished track, in the order tracks
//! finish, with a counter that every finished track, failed or not, moves
//! on by one.

use vstd::prelude::*;
use crate::pipeline::Action;
use crate::responses::SubSonicSong;
use crate::text::{centre, centred, dec, decimal, pad_left, padded};

verus! {

/// The name under which an action is reported.
pub open spec fn action_name(a: Action) -> Seq<char> {
    match a {
        Action::Downloaded => "Downloaded"@,
        Action::CoverDownloaded => "CoverDownloaded"@,
        Action::CoverExtracted => "CoverExtracted"@,
        Action::CoverConverted => "CoverConverted"@,
        Action::Converted => "Converted"@,
        Action::CoverEmbedded => "CoverEmbedded"@,
    }
}

/// The names of the actions, separated by `", "`.
pub open spec fn names_joined(actions: Seq<Action>) -> Seq<char>
    decreases actions.len(),
{
    if actions.len() == 0 {
        Seq::empty()
    } else if actions.len() == 1 {
        action_name(actions[0])
    } else {
        names_joined(actions.drop_last()) + ", "@ + action_name(actions.last())
    }
}

/// How a list of actions is reported: their names, or `nothing to do`.
pub open spec fn actions_text(actions: Seq<Action>) -> Seq<char> {
    if actions.len() == 0 {
        "nothing to do"@
    } else {
        names_joined(actions)
    }
}

/// The name under which `a` is reported.
pub fn action_label(a: Action) -> (r: String)
    ensures
        r@ == action_name(a),
{
    match a {
        Action::Downloaded => String::from_str("Downloaded"),
        Action::CoverDownloaded => String::from_str("CoverDownloaded"),
        Action::CoverExtracted => String::from_str("CoverExtracted"),
        Action::CoverConverted => String::from_str("CoverConverted"),
        Action::Converted => String::from_str("Converted"),
        Action::CoverEmbedded => String::from_str("CoverEmbedded"),
    }
}

/// How `actions` are reported (see [`actions_text`]).
pub fn describe_actions(actions: &Vec<Action>) -> (r: String)
    ensures
        r@ == actions_text(actions@),
{
    if actions.len() == 0 {
        return String::from_str("nothing to do");
    }
    let mut r = String::new();
    let mut i: usize = 0;
    while i < actions.len()
        invariant
            0 < actions.len(),
            i <= actions.len(),
            r@ == names_joined(actions@.subrange(0, i as int)),
        decreases actions.len() - i,
    {
        if i > 0 {
            r.append(", ");
        }
        let name = action_label(actions[i]);
        r.append(name.as_str());
        proof {
            let next = actions@.subrange(0, i + 1);
            assert(next.drop_last() =~= actions@.subrange(0, i as int));
            if i == 0 {
                assert(actions@.subrange(0, 0) =~= Seq::<Action>::empty());
            }
        }
        i = i + 1;
    }
    assert(actions@.subrange(0, actions@.len() as int) =~= actions@);
    r
}

/// The failure of one track, with what identifies the track.
#[derive(Debug)]
pub struct ItemError {
    pub title: String,
    pub id: String,
    pub detail: String,
}

impl ItemError {
    pub open spec fn text(&self) -> Seq<char> {
        self.title@ + " "@ + self.id@ + " "@ + self.detail@
    }

    /// The failure of `track` with `detail`.
    pub fn new(track: &SubSonicSong, detail: String) -> (r: ItemError)
        ensures
            r.title@ == track.title@,
            r.id@ == track.id@,
            r.detail@ == detail@,
    {
        ItemError { title: track.title.clone(), id: track.id.clone(), detail }
    }

    /// `"{title} {id} {detail}"`.
    pub fn message(&self) -> (r: String)
        ensures
            r@ == self.text(),
    {
        let mut r = String::from_str(self.title.as_str());
        r.append(" ");
        r.append(self.id.as_str());
        r.append(" ");
        r.append(self.detail.as_str());
        r
    }
}

/// `"{count:>6}/{total}"`: the progress prefix of a line.
pub open spec fn counter_text(count: nat, total: nat) -> Seq<char> {
    pad_left(dec(count), 6, ' ') + "/"@ + dec(total)
}

/// The line of a track that succeeded.
pub open spec fn success_line(
    count: nat,
    total: nat,
    title: Seq<char>,
    width: nat,
    actions: Seq<Action>,
) -> Seq<char> {
    counter_text(count, total) + " "@ + centre(title, width) + " "@ + actions_text(actions)
}

/// The line of a track that failed.
pub open spec fn failure_line(count: nat, total: nat, error: ItemError) -> Seq<char> {
    counter_text(count, total) + " "@ + error.text()
}

/// The line of a failed track names the track: its title and its id stand
/// in it, each as a whole.
pub proof fn lemma_failure_line_names_track(count: nat, total: nat, error: ItemError)
    ensures
        ({
            let line = failure_line(count, total, error);
            let at = counter_text(count, total).len() as int + 1;
            &&& line.subrange(at, at + error.title@.len()) == error.title@
            &&& line.subrange(
                at + error.title@.len() + 1,
                at + error.title@.len() + 1 + error.id@.len(),
            ) == error.id@
        }),
{
    reveal_strlit(" ");
    let line = failure_line(count, total, error);
    let at = counter_text(count, total).len() as int + 1;
    assert(line.subrange(at, at + error.title@.len()) =~= error.title@);
    assert(line.subrange(
        at + error.title@.len() + 1,
        at + error.title@.len() + 1 + error.id@.len(),
    ) =~= error.id@);
}

fn counter(count: usize, total: usize) -> (r: String)
    ensures
        r@ == counter_text(count as nat, total as nat),
{
    let digits = decimal(count as u64);
    let mut r = padded(digits.as_str(), 6, ' ');
    r.append("/");
    let all = decimal(total as u64);
    r.append(all.as_str());
    r
}

/// The line reported for a finished track: `count` tracks, this one
/// included, of `total` are done; titles are centred in `width` columns.
pub fn status_line(
    count: usize,
    total: usize,
    title: &str,
    width: usize,
    outcome: &Result<Vec<Action>, ItemError>,
) -> (r: String)
    ensures
        outcome matches Ok(a) ==> r@ == success_line(count as nat, total as nat, title@, width as nat, a@),
        outcome matches Err(e) ==> r@ == failure_line(count as nat, total as nat, *e),
{
    let mut r = counter(count, total);
    r.append(" ");
    match outcome {
        Ok(actions) => {
            let t = centred(title, width);
            r.append(t.as_str());
            r.append(" ");
            let a = describe_actions(actions);
            r.append(a.as_str());
        },
        Err(e) => {
            let m = e.message();
            r.append(m.as_str());
        },
    }
    r
}

/// The largest of the titles' lengths, 0 for no track.
pub open spec fn widest(tracks: Seq<SubSonicSong>) -> nat
    decreases tracks.len(),
{
    if tracks.len() == 0 {
        0
    } else {
        let rest = widest(tracks.drop_last());
        let last = tracks.last().title@.len();
        if last > rest { last } else { rest }
    }
}

/// The width in which titles are centred: the longest title's length.
pub fn title_width(tracks: &Vec<SubSonicSong>) -> (r: usize)
    ensures
        r == widest(tracks@),
{
    let mut r: usize = 0;
    let mut i: usize = 0;
    while i < tracks.len()
        invariant
            i <= tracks.len(),
            r == widest(tracks@.subrange(0, i as int)),
        decreases tracks.len() - i,
    {
        let len = tracks[i].title.as_str().unicode_len();
        proof {
            assert(tracks@.subrange(0, i + 1).drop_last() =~= tracks@.subrange(0, i as int));
        }
        if len > r {
            r = len;
        }
        i = i + 1;
    }
    assert(tracks@.subrange(0, tracks@.len() as int) =~= tracks@);
    r
}

} // verus!
