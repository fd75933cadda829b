//! Tag data already read from audio files, keyed by file path.
//!
//! Reading a file happens outside the crate; the cache only remembers what
//! was read, so the same file is never parsed twice.
use vstd::prelude::*;
use vstd::view::View as _;

use std::rc::Rc;

use crate::track::TrackData;
use crate::track::rc_dup;

verus! {

/// The first entry of `s` whose path reads `path`, if any.
pub open spec fn lookup(s: Seq<(String, Rc<TrackData>)>, path: Seq<char>) -> Option<
    Rc<TrackData>,
>
    decreases s.len(),
{
    if s.len() == 0 {
        None
    } else if s[0].0@ == path {
        Some(s[0].1)
    } else {
        lookup(s.drop_first(), path)
    }
}

/// Appending an entry only answers lookups that nothing answered before.
pub proof fn lemma_lookup_push(
    s: Seq<(String, Rc<TrackData>)>,
    entry: (String, Rc<TrackData>),
    path: Seq<char>,
)
    ensures
        lookup(s.push(entry), path) == if lookup(s, path) is Some {
            lookup(s, path)
        } else if entry.0@ == path {
            Some(entry.1)
        } else {
            None
        },
    decreases s.len(),
{
    if s.len() == 0 {
        assert(s.push(entry)[0] == entry);
        assert(s.push(entry).drop_first() =~= Seq::<(String, Rc<TrackData>)>::empty());
        assert(lookup(Seq::<(String, Rc<TrackData>)>::empty(), path) is None);
    } else {
        assert(s.push(entry)[0] == s[0]);
        assert(s.push(entry).drop_first() =~= s.drop_first().push(entry));
        assert(s.push(entry).drop_first() == s.drop_first().push(entry));
        lemma_lookup_push(s.drop_first(), entry, path);
        if s[0].0@ == path {
            assert(lookup(s.push(entry), path) == Some(s[0].1));
            assert(lookup(s, path) == Some(s[0].1));
        } else {
            assert(lookup(s.push(entry), path) == lookup(s.drop_first().push(entry), path));
            assert(lookup(s, path) == lookup(s.drop_first(), path));
        }
    }
}

/// Tag data by file path.
#[derive(Debug)]
pub struct Cache {
    pub tracks_data: Vec<(String, Rc<TrackData>)>,
}

impl Cache {
    pub open spec fn spec_get(self, path: Seq<char>) -> Option<Rc<TrackData>> {
        lookup(self.tracks_data@, path)
    }

    pub open spec fn spec_has(self, path: Seq<char>) -> bool {
        self.spec_get(path) is Some
    }

    pub fn new() -> (r: Cache)
        ensures
            r.tracks_data@ == Seq::<(String, Rc<TrackData>)>::empty(),
    {
        Cache { tracks_data: Vec::new() }
    }

    pub fn get(&self, path: &String) -> (r: Option<&Rc<TrackData>>)
        ensures
            match r {
                Some(d) => self.spec_get(path@) == Some(*d),
                None => self.spec_get(path@) is None,
            },
    {
        let n = self.tracks_data.len();
        proof {
            assert(self.tracks_data@.subrange(0, n as int) =~= self.tracks_data@);
        }
        let mut k: usize = 0;
        while k < n
            invariant
                n == self.tracks_data@.len(),
                k <= n,
                lookup(self.tracks_data@, path@) == lookup(
                    self.tracks_data@.subrange(k as int, n as int),
                    path@,
                ),
            decreases n - k,
        {
            let ghost rest = self.tracks_data@.subrange(k as int, n as int);
            if self.tracks_data[k].0 == *path {
                assert(rest[0] == self.tracks_data@[k as int]);
                return Some(&self.tracks_data[k].1);
            }
            proof {
                assert(rest[0] == self.tracks_data@[k as int]);
                assert(rest.drop_first() =~= self.tracks_data@.subrange(k as int + 1, n as int));
            }
            k = k + 1;
        }
        None
    }

    pub fn has(&self, path: &String) -> (r: bool)
        ensures
            r == self.spec_has(path@),
    {
        self.get(path).is_some()
    }

    /// Remembers `track_data` for `path` unless the path is already known.
    pub fn add(&mut self, path: String, track_data: Rc<TrackData>)
        ensures
            old(self).spec_has(path@) ==> *final(self) == *old(self),
            !old(self).spec_has(path@) ==> final(self).tracks_data@ == old(
                self,
            ).tracks_data@.push((path, track_data)),
    {
        if !self.has(&path) {
            self.tracks_data.push((path, track_data));
        }
    }

    /// Returns the data already cached for `path`, or caches `data` for it
    /// and returns that.
    pub fn get_or_create(&mut self, path: &String, data: TrackData) -> (r: Rc<TrackData>)
        ensures
            final(self).spec_get(path@) == Some(r),
            old(self).spec_has(path@) ==> *final(self) == *old(self) && Some(r) == old(
                self,
            ).spec_get(path@),
            !old(self).spec_has(path@) ==> final(self).tracks_data@.len() == old(
                self,
            ).tracks_data@.len() + 1 && *r == data,
    {
        if let Some(d) = self.get(path) {
            return rc_dup(d);
        }
        let rc = Rc::new(data);
        let entry = (path.clone(), rc_dup(&rc));
        proof {
            lemma_lookup_push(self.tracks_data@, entry, path@);
        }
        self.tracks_data.push(entry);
        rc
    }
}

} // verus!
