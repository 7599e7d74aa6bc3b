//! The pool of tracks: the files of one directory that carry the recognised
//! extension, fixed once built, and a uniform random pick among them.

use vstd::prelude::*;
use rand::seq::IndexedRandom;

verus! {

/// Whether a file name has the extension `mp3` (lower case, compared exactly):
/// a non-empty stem, a dot, then `mp3`. A name such as `.mp3` is all stem and
/// has no extension.
pub open spec fn spec_is_track_name(name: Seq<char>) -> bool {
    &&& name.len() > 4
    &&& name.subrange(name.len() - 4, name.len() as int) == seq!['.', 'm', 'p', '3']
}

/// The names, in their order, that are tracks.
pub open spec fn tracks_among(names: Seq<String>) -> Seq<String> {
    names.filter(|n: String| spec_is_track_name(n@))
}

/// Whether the file name has the recognised extension.
pub fn is_track_name(name: &str) -> (r: bool)
    ensures
        r == spec_is_track_name(name@),
{
    let n = name.unicode_len();
    if n <= 4 {
        return false;
    }
    let r = name.get_char(n - 4) == '.' && name.get_char(n - 3) == 'm' && name.get_char(n - 2)
        == 'p' && name.get_char(n - 1) == '3';
    assert(r == (name@.subrange(n - 4, n as int) =~= seq!['.', 'm', 'p', '3']));
    r
}

/// Why no pool could be built.
#[derive(Clone, Copy, Debug, PartialEq, Eq, Structural)]
pub enum PoolError {
    /// None of the names is a track.
    NoTracks,
}

/// A non-empty sequence of track names, fixed at construction.
pub struct Pool {
    tracks: Vec<String>,
}

impl View for Pool {
    type V = Seq<String>;

    closed spec fn view(&self) -> Seq<String> {
        self.tracks@
    }
}

/// Relies on `rand::seq::IndexedRandom::choose` with `rand::rng()`: on a
/// non-empty slice it returns one of its elements, on an empty one `None`.
#[verifier::external_body]
fn choose_among(items: &Vec<String>) -> (r: Option<&String>)
    ensures
        r is Some <==> items@.len() > 0,
        r matches Some(t) ==> items@.contains(*t),
{
    items.choose(&mut rand::rng())
}

impl Pool {
    #[verifier::type_invariant]
    spec fn holds_tracks(self) -> bool {
        &&& self.tracks@.len() > 0
        &&& forall|i: int| 0 <= i < self.tracks@.len() ==> spec_is_track_name(#[trigger] self.tracks@[i]@)
    }

    /// Builds the pool from a directory's entry names, keeping the tracks in
    /// their order; fails when there is none.
    pub fn from_names(names: &Vec<String>) -> (r: Result<Pool, PoolError>)
        ensures
            r is Err <==> tracks_among(names@).len() == 0,
            r matches Err(e) ==> e == PoolError::NoTracks,
            r matches Ok(p) ==> p@ == tracks_among(names@),
    {
        let mut tracks: Vec<String> = Vec::new();
        let mut i: usize = 0;
        while i < names.len()
            invariant
                i <= names@.len(),
                tracks@ == tracks_among(names@.subrange(0, i as int)),
                forall|j: int| 0 <= j < tracks@.len() ==> spec_is_track_name(#[trigger] tracks@[j]@),
            decreases names@.len() - i,
        {
            proof {
                broadcast use Seq::lemma_filter_push;

                assert(names@.subrange(0, i as int + 1) =~= names@.subrange(0, i as int).push(
                    names@[i as int],
                ));
            }
            if is_track_name(names[i].as_str()) {
                tracks.push(names[i].clone());
            }
            i = i + 1;
        }
        assert(names@.subrange(0, names@.len() as int) =~= names@);
        if tracks.len() == 0 {
            Err(PoolError::NoTracks)
        } else {
            Ok(Pool { tracks })
        }
    }

    /// The number of tracks.
    pub fn len(&self) -> (r: usize)
        ensures
            r == self@.len(),
            r > 0,
            forall|i: int| 0 <= i < self@.len() ==> spec_is_track_name(#[trigger] self@[i]@),
    {
        proof {
            use_type_invariant(self);
        }
        self.tracks.len()
    }

    /// The track at `index`.
    pub fn track(&self, index: usize) -> (r: &String)
        requires
            index < self@.len(),
        ensures
            *r == self@[index as int],
    {
        &self.tracks[index]
    }

    /// One of the tracks, picked uniformly at random; picks are independent
    /// and may repeat.
    pub fn pick_track(&self) -> (r: &String)
        ensures
            self@.contains(*r),
            spec_is_track_name(r@),
    {
        proof {
            use_type_invariant(self);
        }
        let r = choose_among(&self.tracks).unwrap();
        proof {
            let i = choose|i: int| 0 <= i < self.tracks@.len() && self.tracks@[i] == *r;
            assert(spec_is_track_name(self.tracks@[i]@));
        }
        r
    }
}

/// The directory to play from, given the program's arguments (the program's
/// name first): the one argument if there is exactly one, else the current
/// directory.
pub fn music_directory(args: &Vec<String>) -> (r: String)
    ensures
        args@.len() == 2 ==> r@ == args@[1]@,
        args@.len() != 2 ==> r@ == "./"@,
{
    if args.len() == 2 {
        args[1].clone()
    } else {
        String::from_str("./")
    }
}

} // verus!
