//! Playlists: a named, ordered collection of tracks.
//!
//! Loading a playlist file from disk happens outside the crate; what is kept
//! here is the playlist value and its derived total duration.
use vstd::prelude::*;
use vstd::view::View as _;

use std::rc::Rc;

use crate::text::{split_parts, split_str, trim, trim_str};
use crate::time::{sat64, sum_durs, lemma_sum_durs_nonneg};
use crate::track::{Id, Track};

verus! {

/// Each line trimmed, blank lines dropped.
pub open spec fn paths_of(lines: Seq<Seq<char>>) -> Seq<Seq<char>>
    decreases lines.len(),
{
    if lines.len() == 0 {
        Seq::empty()
    } else {
        let before = paths_of(lines.drop_last());
        let t = trim(lines.last());
        if t.len() > 0 {
            before.push(t)
        } else {
            before
        }
    }
}

/// The track paths named by a playlist file: one path per line, trimmed,
/// blank lines skipped.
pub open spec fn playlist_paths(content: Seq<char>) -> Seq<Seq<char>> {
    paths_of(split_parts(content, '\n'))
}

/// Reads the track paths out of a playlist file's text.
pub fn playlist_track_paths(content: &str) -> (r: Vec<String>)
    ensures
        r@.map_values(|t: String| t@) == playlist_paths(content@),
{
    let lines = split_str(content, '\n');
    let mut out: Vec<String> = Vec::new();
    let n = lines.len();
    let mut k: usize = 0;
    while k < n
        invariant
            n == lines@.len(),
            k <= n,
            lines@.map_values(|l: String| l@) == split_parts(content@, '\n'),
            out@.map_values(|t: String| t@) == paths_of(
                lines@.map_values(|l: String| l@).take(k as int),
            ),
        decreases n - k,
    {
        let t = trim_str(lines[k].as_str());
        let ghost views = lines@.map_values(|l: String| l@);
        let ghost before = out@.map_values(|t0: String| t0@);
        proof {
            assert(views.take(k as int + 1).drop_last() =~= views.take(k as int));
            assert(views.take(k as int + 1).last() == lines@[k as int]@);
        }
        if t.as_str().unicode_len() > 0 {
            out.push(t);
            proof {
                assert(out@.map_values(|t0: String| t0@) =~= before.push(
                    trim(lines@[k as int]@),
                ));
            }
        }
        k = k + 1;
    }
    proof {
        let views = lines@.map_values(|l: String| l@);
        assert(views.take(n as int) =~= views);
    }
    out
}

/// The durations of a sequence of tracks, in milliseconds.
pub open spec fn track_durs(s: Seq<Rc<Track>>) -> Seq<u64> {
    s.map_values(|t: Rc<Track>| t.spec_duration())
}

/// A named, ordered collection of tracks.
#[derive(Debug)]
pub struct Playlist {
    pub id: Id,
    pub name: String,
    pub tracks: Vec<Rc<Track>>,
    /// Total length of all tracks in milliseconds, saturating at `u64::MAX`.
    pub duration: u64,
}

impl Playlist {
    /// The stored total duration is the (saturated) sum of the tracks'.
    pub open spec fn wf(self) -> bool {
        self.duration as int == sat64(sum_durs(track_durs(self.tracks@)))
    }

    pub fn new(id: Id, name: String, tracks: Vec<Rc<Track>>) -> (r: Playlist)
        ensures
            r.id == id,
            r.name == name,
            r.tracks == tracks,
            r.wf(),
    {
        let duration = total_duration(&tracks);
        Playlist { id, name, tracks, duration }
    }
}

/// Adds up the durations of `tracks`, saturating at `u64::MAX`.
pub fn total_duration(tracks: &Vec<Rc<Track>>) -> (r: u64)
    ensures
        r as int == sat64(sum_durs(track_durs(tracks@))),
{
    let n = tracks.len();
    let mut acc: u64 = 0;
    let mut k: usize = 0;
    while k < n
        invariant
            n == tracks@.len(),
            k <= n,
            acc as int == sat64(sum_durs(track_durs(tracks@.subrange(0, k as int)))),
        decreases n - k,
    {
        let d = tracks[k].duration();
        proof {
            let prefix = track_durs(tracks@.subrange(0, k as int));
            let next = track_durs(tracks@.subrange(0, k as int + 1));
            assert(next.drop_last() =~= prefix);
            assert(next.last() == d);
            lemma_sum_durs_nonneg(prefix);
        }
        acc = acc.saturating_add(d);
        k = k + 1;
    }
    proof {
        assert(tracks@.subrange(0, n as int) =~= tracks@);
    }
    acc
}

} // verus!
