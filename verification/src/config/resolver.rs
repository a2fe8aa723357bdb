//! A flat resolver over a list of root directories, used for dictionary
//! file lookup: each query is joined onto every root in order.

use vstd::prelude::*;

use crate::config::error::ConfigError;
use crate::config::paths::{join_path, spec_join, str_eq};
use crate::config::source::path_exists;

verus! {

/// The query joined onto every root, in order.
pub open spec fn joined_candidates(roots: Seq<Seq<char>>, path: Seq<char>) -> Seq<Seq<char>>
    decreases roots.len(),
{
    if roots.len() == 0 {
        Seq::empty()
    } else {
        joined_candidates(roots.drop_last(), path) + seq![spec_join(roots.last(), path)]
    }
}

/// `e` is the resolution-failure diagnostic for `path` over the given roots.
pub open spec fn is_root_resolution_failure_for(
    e: ConfigError,
    roots: Seq<Seq<char>>,
    path: Seq<char>,
) -> bool {
    &&& e matches ConfigError::PathResolution(query, cands)
    &&& query@ == path
    &&& cands.deep_view() == joined_candidates(roots, path)
}

/// An ordered list of root directories against which relative paths are
/// resolved.
#[derive(Debug)]
pub struct PathResolver {
    roots: Vec<String>,
}

impl View for PathResolver {
    type V = Seq<Seq<char>>;

    closed spec fn view(&self) -> Seq<Seq<char>> {
        self.roots.deep_view()
    }
}

impl PathResolver {
    /// An empty resolver with room reserved for `capacity` roots.
    pub fn with_capacity(capacity: usize) -> (r: PathResolver)
        ensures
            r@ == Seq::<Seq<char>>::empty(),
    {
        let r = PathResolver { roots: Vec::with_capacity(capacity) };
        proof {
            assert(r@ =~= Seq::<Seq<char>>::empty());
        }
        r
    }

    /// Add one root directory after the current ones.
    pub fn add(&mut self, path: String)
        ensures
            final(self)@ == old(self)@.push(path@),
    {
        let ghost p = path@;
        self.roots.push(path);
        proof {
            assert(final(self)@ =~= old(self)@.push(p));
        }
    }

    /// Whether `path` is one of the roots.
    pub fn contains(&self, path: &str) -> (r: bool)
        ensures
            r == exists|i: int| 0 <= i < self@.len() && self@[i] == path@,
    {
        let mut i: usize = 0;
        while i < self.roots.len()
            invariant
                i <= self.roots@.len(),
                self@ == self.roots.deep_view(),
                self@.len() == self.roots@.len(),
                forall|j: int| 0 <= j < i ==> self@[j] != path@,
            decreases self.roots@.len() - i,
        {
            proof {
                assert(self.roots.deep_view()[i as int] == self.roots@[i as int]@);
            }
            if str_eq(self.roots[i].as_str(), path) {
                return true;
            }
            i += 1;
        }
        false
    }

    /// The first root-joined path that exists on disk, in root order.  Which
    /// joined path exists only the disk can answer; what is promised is that
    /// the result, if any, is one of the joined paths.
    pub fn first_existing(&self, path: &str) -> (r: Option<String>)
        ensures
            r matches Some(p) ==> exists|i: int|
                0 <= i < self@.len() && p@ == spec_join(self@[i], path@),
    {
        let mut i: usize = 0;
        while i < self.roots.len()
            invariant
                i <= self.roots@.len(),
                self@ == self.roots.deep_view(),
                self@.len() == self.roots@.len(),
            decreases self.roots@.len() - i,
        {
            proof {
                assert(self.roots.deep_view()[i as int] == self.roots@[i as int]@);
            }
            let joined = join_path(self.roots[i].as_str(), path);
            if path_exists(joined.as_str()) {
                return Some(joined);
            }
            i += 1;
        }
        None
    }

    /// The resolution-failure diagnostic for `path`: the original query and
    /// every root-joined candidate.
    pub fn resolution_failure(&self, path: &str) -> (r: ConfigError)
        ensures
            is_root_resolution_failure_for(r, self@, path@),
    {
        let cands = self.all_candidates(path);
        ConfigError::PathResolution(String::from_str(path), cands)
    }

    /// Every root-joined candidate for `path`, in root order, regardless of
    /// existence.
    pub fn all_candidates(&self, path: &str) -> (r: Vec<String>)
        ensures
            r.deep_view() == joined_candidates(self@, path@),
    {
        let mut out: Vec<String> = Vec::new();
        let mut i: usize = 0;
        while i < self.roots.len()
            invariant
                i <= self.roots@.len(),
                self@ == self.roots.deep_view(),
                self@.len() == self.roots@.len(),
                out.deep_view() == joined_candidates(self@.take(i as int), path@),
            decreases self.roots@.len() - i,
        {
            proof {
                assert(self.roots.deep_view()[i as int] == self.roots@[i as int]@);
            }
            let ghost prefix = self@.take(i as int);
            let joined = join_path(self.roots[i].as_str(), path);
            out.push(joined);
            proof {
                assert(self@.take(i + 1).drop_last() =~= prefix);
                assert(self@.take(i + 1).last() == self@[i as int]);
                assert(out.deep_view() =~= joined_candidates(self@.take(i + 1), path@));
            }
            i += 1;
        }
        proof {
            assert(self@.take(self.roots@.len() as int) =~= self@);
        }
        out
    }

    /// The roots, in order.
    pub fn roots(&self) -> (r: &Vec<String>)
        ensures
            r.deep_view() == self@,
    {
        &self.roots
    }
}

} // verus!
