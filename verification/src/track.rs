//! Tracks: identity, file path, and the tag data read from the file.
//!
//! Reading tags out of an audio file happens outside the crate; a track here
//! carries the already-resolved data as plain values.
use vstd::prelude::*;
use vstd::view::View as _;

use std::rc::Rc;

verus! {

/// Relies on Rc::clone: returns another handle to the same shared value.
#[verifier::external_body]
pub(crate) fn rc_dup<T>(rc: &Rc<T>) -> (res: Rc<T>)
    ensures
        res == *rc,
{
    Rc::clone(rc)
}

/// Identity of a track or playlist, unique within one run.
#[derive(Debug, Clone, Copy, PartialEq, Eq, Structural)]
pub struct Id(pub usize);

impl From<usize> for Id {
    fn from(value: usize) -> (r: Id) {
        Id(value)
    }
}

impl vstd::std_specs::convert::FromSpecImpl<usize> for Id {
    open spec fn obeys_from_spec() -> bool {
        true
    }

    open spec fn from_spec(value: usize) -> Id {
        Id(value)
    }
}

/// Tag data of an audio file.
#[derive(Debug)]
pub struct TrackData {
    pub title: Option<String>,
    pub album: Option<String>,
    pub artist: Option<String>,
    /// Track length in milliseconds.
    pub duration: u64,
}

impl Default for TrackData {
    /// No tags and a zero length.
    fn default() -> (r: TrackData)
        ensures
            r.title is None,
            r.album is None,
            r.artist is None,
            r.duration == 0,
    {
        TrackData { title: None, album: None, artist: None, duration: 0 }
    }
}

/// `s` without trailing path separators.
pub open spec fn drop_trailing_slashes(s: Seq<char>) -> Seq<char>
    decreases s.len(),
{
    if s.len() > 0 && s.last() == '/' {
        drop_trailing_slashes(s.drop_last())
    } else {
        s
    }
}

/// The characters after the last path separator.
pub open spec fn after_last_slash(s: Seq<char>) -> Seq<char>
    decreases s.len(),
{
    if s.len() == 0 {
        s
    } else if s.last() == '/' {
        Seq::empty()
    } else {
        after_last_slash(s.drop_last()).push(s.last())
    }
}

/// The short name shown for a path: its last component, prefixed with the
/// name of the directory it sits in when there is one. Nothing for a path
/// of separators alone.
pub open spec fn display_name_spec(path: Seq<char>) -> Option<Seq<char>> {
    let t = drop_trailing_slashes(path);
    if t.len() == 0 {
        None
    } else {
        let file = after_last_slash(t);
        let rest = drop_trailing_slashes(t.take(t.len() - file.len()));
        if rest.len() == 0 {
            Some(file)
        } else {
            Some(after_last_slash(rest) + seq!['/'] + file)
        }
    }
}

/// Trailing separators are exactly what dropping removes.
proof fn lemma_drop_trailing_slashes(s: Seq<char>, e: int)
    requires
        0 <= e <= s.len(),
        forall|j: int| e <= j < s.len() ==> s[j] == '/',
        e == 0 || s[e - 1] != '/',
    ensures
        drop_trailing_slashes(s) == s.take(e),
    decreases s.len() - e,
{
    if e == s.len() {
        if s.len() == 0 || s.last() != '/' {
            assert(s.take(e) =~= s);
        } else {
            assert(false);
        }
    } else {
        assert(s.last() == '/');
        assert(s.drop_last() =~= s.take(s.len() - 1));
        lemma_drop_trailing_slashes(s.take(s.len() - 1), e);
        assert(s.take(s.len() - 1).take(e) =~= s.take(e));
    }
}

/// The last component starts right after the last separator.
proof fn lemma_after_last_slash(s: Seq<char>, p: int)
    requires
        0 <= p <= s.len(),
        forall|j: int| p <= j < s.len() ==> s[j] != '/',
        p == 0 || s[p - 1] == '/',
    ensures
        after_last_slash(s) == s.skip(p),
    decreases s.len(),
{
    if s.len() == 0 {
        assert(s.skip(0) =~= s);
    } else if p == s.len() {
        assert(s.last() == '/');
        assert(s.skip(p) =~= Seq::<char>::empty());
    } else {
        assert(s.last() != '/');
        assert(s.drop_last() =~= s.take(s.len() - 1));
        lemma_after_last_slash(s.take(s.len() - 1), p);
        assert(s.take(s.len() - 1).skip(p).push(s.last()) =~= s.skip(p));
    }
}

/// Derives the short display name of a path: the last component, with the
/// directory name it sits under in front when there is one.
pub fn display_name(path: &str) -> (r: Option<String>)
    ensures
        match r {
            Some(name) => display_name_spec(path@) == Some(name@),
            None => display_name_spec(path@) is None,
        },
{
    let n = path.unicode_len();
    let mut end: usize = n;
    while end > 0 && path.get_char(end - 1) == '/'
        invariant
            n == path@.len(),
            end <= n,
            forall|j: int| end <= j < n ==> path@[j] == '/',
        decreases end,
    {
        end = end - 1;
    }
    proof {
        lemma_drop_trailing_slashes(path@, end as int);
    }
    let ghost t = path@.take(end as int);
    if end == 0 {
        return None;
    }

    let mut fstart: usize = end;
    while fstart > 0 && path.get_char(fstart - 1) != '/'
        invariant
            n == path@.len(),
            fstart <= end <= n,
            forall|j: int| fstart <= j < end ==> path@[j] != '/',
        decreases fstart,
    {
        fstart = fstart - 1;
    }
    proof {
        lemma_after_last_slash(t, fstart as int);
        assert(t.skip(fstart as int) =~= path@.subrange(fstart as int, end as int));
    }
    let file = path.substring_char(fstart, end);
    proof {
        assert(t.take(t.len() - after_last_slash(t).len()) =~= path@.take(fstart as int));
    }

    let mut rend: usize = fstart;
    while rend > 0 && path.get_char(rend - 1) == '/'
        invariant
            n == path@.len(),
            rend <= fstart <= n,
            forall|j: int| rend <= j < fstart ==> path@[j] == '/',
        decreases rend,
    {
        rend = rend - 1;
    }
    proof {
        lemma_drop_trailing_slashes(path@.take(fstart as int), rend as int);
        assert(path@.take(fstart as int).take(rend as int) =~= path@.take(rend as int));
    }
    let ghost rest = path@.take(rend as int);
    if rend == 0 {
        return Some(file.to_owned());
    }

    let mut pstart: usize = rend;
    while pstart > 0 && path.get_char(pstart - 1) != '/'
        invariant
            n == path@.len(),
            pstart <= rend <= n,
            forall|j: int| pstart <= j < rend ==> path@[j] != '/',
        decreases pstart,
    {
        pstart = pstart - 1;
    }
    proof {
        lemma_after_last_slash(rest, pstart as int);
        assert(rest.skip(pstart as int) =~= path@.subrange(pstart as int, rend as int));
    }
    let parent = path.substring_char(pstart, rend);

    let mut out = parent.to_owned();
    out.append("/");
    out.append(file);
    proof {
        reveal_strlit("/");
        assert(("/")@ =~= seq!['/']);
        assert(out@ =~= after_last_slash(rest) + seq!['/'] + after_last_slash(t));
    }
    Some(out)
}

/// A playable file and what is known about it.
#[derive(Debug)]
pub struct Track {
    pub id: Id,
    pub path: String,
    /// A short display name derived from the path.
    pub filename: Option<String>,
    pub data: Option<Rc<TrackData>>,
}

impl Track {
    /// Builds a track over `path` from what the cache knows of it, deriving
    /// the short display name from the path.
    pub fn from_path(cache: &crate::cache::Cache, id: Id, path: String) -> (r: Track)
        ensures
            r.id == id,
            r.path == path,
            match r.data {
                Some(d) => cache.spec_get(path@) == Some(d),
                None => cache.spec_get(path@) is None,
            },
            match r.filename {
                Some(f) => display_name_spec(path@) == Some(f@),
                None => display_name_spec(path@) is None,
            },
    {
        let data = match cache.get(&path) {
            Some(d) => Some(rc_dup(d)),
            None => None,
        };
        let filename = display_name(path.as_str());
        Track { id, path, filename, data }
    }

    pub open spec fn spec_try_title(self) -> Option<Seq<char>> {
        match self.data {
            Some(d) => match d.title {
                Some(t) => Some(t@),
                None => None,
            },
            None => None,
        }
    }

    pub open spec fn spec_try_album(self) -> Option<Seq<char>> {
        match self.data {
            Some(d) => match d.album {
                Some(t) => Some(t@),
                None => None,
            },
            None => None,
        }
    }

    pub open spec fn spec_try_artist(self) -> Option<Seq<char>> {
        match self.data {
            Some(d) => match d.artist {
                Some(t) => Some(t@),
                None => None,
            },
            None => None,
        }
    }

    pub open spec fn spec_try_duration(self) -> Option<u64> {
        match self.data {
            Some(d) => Some(d.duration),
            None => None,
        }
    }

    /// The title shown for the track: its tag title, else its file name,
    /// else a fixed placeholder.
    pub open spec fn spec_title(self) -> Seq<char> {
        match self.spec_try_title() {
            Some(t) => t,
            None => match self.filename {
                Some(f) => f@,
                None => "<no title>"@,
            },
        }
    }

    /// The track length in milliseconds, zero when unknown.
    pub open spec fn spec_duration(self) -> u64 {
        match self.spec_try_duration() {
            Some(d) => d,
            None => 0,
        }
    }

    pub fn try_title(&self) -> (r: Option<&String>)
        ensures
            match r {
                Some(t) => self.spec_try_title() == Some(t@),
                None => self.spec_try_title() is None,
            },
    {
        match &self.data {
            Some(d) => match &d.title {
                Some(t) => Some(t),
                None => None,
            },
            None => None,
        }
    }

    pub fn try_album(&self) -> (r: Option<&String>)
        ensures
            match r {
                Some(t) => self.spec_try_album() == Some(t@),
                None => self.spec_try_album() is None,
            },
    {
        match &self.data {
            Some(d) => match &d.album {
                Some(t) => Some(t),
                None => None,
            },
            None => None,
        }
    }

    pub fn try_artist(&self) -> (r: Option<&String>)
        ensures
            match r {
                Some(t) => self.spec_try_artist() == Some(t@),
                None => self.spec_try_artist() is None,
            },
    {
        match &self.data {
            Some(d) => match &d.artist {
                Some(t) => Some(t),
                None => None,
            },
            None => None,
        }
    }

    pub fn try_duration(&self) -> (r: Option<u64>)
        ensures
            r == self.spec_try_duration(),
    {
        match &self.data {
            Some(d) => Some(d.duration),
            None => None,
        }
    }

    /// Returns the tag title if any, else the file name, else `"<no title>"`.
    pub fn title(&self) -> (r: &str)
        ensures
            r@ == self.spec_title(),
    {
        match self.try_title() {
            Some(t) => t.as_str(),
            None => match &self.filename {
                Some(f) => f.as_str(),
                None => "<no title>",
            },
        }
    }

    /// Returns the length in milliseconds if known, otherwise zero.
    pub fn duration(&self) -> (r: u64)
        ensures
            r == self.spec_duration(),
    {
        match self.try_duration() {
            Some(d) => d,
            None => 0,
        }
    }
}

} // verus!
