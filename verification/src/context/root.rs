//! Finding the root of the repository that contains a directory: the nearest
//! ancestor that has a `.git` entry.
//!
//! The search is a state machine: [`RootSearch::request`] names the `.git`
//! entry to look for next, and the caller says with [`RootSearch::answer`]
//! whether it is there, until the request is `None`.
use vstd::prelude::*;

use crate::path::{ancestors, join_path, parse_path, FsPath, PathView};

verus! {

/// The `.git` entry of a directory.
pub open spec fn marker(dir: PathView) -> PathView {
    join_path(dir, parse_path(".git"@))
}

/// A directory without its last component.
pub open spec fn parent_of(dir: PathView) -> PathView {
    PathView { absolute: dir.absolute, parts: dir.parts.drop_last() }
}

/// The nearest of `dir` and its ancestors whose `.git` entry exists according
/// to `has_git` (`dir.ancestors().find(..)`).
pub open spec fn root_from(dir: PathView, has_git: spec_fn(PathView) -> bool) -> Option<PathView>
    decreases dir.parts.len(),
{
    if has_git(marker(dir)) {
        Some(dir)
    } else if dir.parts.len() == 0 {
        None
    } else {
        root_from(parent_of(dir), has_git)
    }
}

/// The root is the first of the ancestors (nearest first) that has a `.git`
/// entry; when there is none, no ancestor has one.
pub proof fn lemma_root_from_nearest(dir: PathView, has_git: spec_fn(PathView) -> bool)
    ensures
        match root_from(dir, has_git) {
            Some(r) => exists|i: int|
                0 <= i < ancestors(dir).len() && r == ancestors(dir)[i] && has_git(marker(r))
                    && forall|j: int| 0 <= j < i ==> !has_git(marker(#[trigger] ancestors(dir)[j])),
            None => forall|j: int|
                0 <= j < ancestors(dir).len() ==> !has_git(marker(#[trigger] ancestors(dir)[j])),
        },
    decreases dir.parts.len(),
{
    let a = ancestors(dir);
    assert(a[0].parts =~= dir.parts);
    assert(a[0] == dir);
    if has_git(marker(dir)) {
        assert(a[0] == dir);
    } else if dir.parts.len() == 0 {
        assert forall|j: int| 0 <= j < a.len() implies !has_git(marker(#[trigger] a[j])) by {
            assert(j == 0);
        }
    } else {
        let p = parent_of(dir);
        lemma_root_from_nearest(p, has_git);
        let b = ancestors(p);
        assert forall|j: int| 0 <= j < b.len() implies #[trigger] b[j] == a[j + 1] by {
            assert(b[j].parts =~= a[j + 1].parts);
        }
        match root_from(p, has_git) {
            Some(r) => {
                let i = choose|i: int|
                    0 <= i < b.len() && r == b[i] && has_git(marker(r)) && forall|j: int|
                        0 <= j < i ==> !has_git(marker(#[trigger] b[j]));
                assert(r == a[i + 1]);
                assert forall|j: int| 0 <= j < i + 1 implies !has_git(marker(#[trigger] a[j])) by {
                    if j > 0 {
                        assert(a[j] == b[j - 1]);
                    }
                }
            },
            None => {
                assert forall|j: int| 0 <= j < a.len() implies !has_git(marker(#[trigger] a[j])) by {
                    if j > 0 {
                        assert(a[j] == b[j - 1]);
                    }
                }
            },
        }
    }
}

/// Where the search stands.
#[derive(Copy, Clone, PartialEq, Eq, Structural, Debug)]
pub enum RootState {
    Searching,
    Found,
    NotFound,
}

/// The mathematical model of a [`RootSearch`].
pub struct RootSearchView {
    /// The directory being looked at, or the root once found.
    pub current: PathView,
    pub state: RootState,
}

/// The search that starts at `dir`.
pub open spec fn root_start(dir: PathView) -> RootSearchView {
    RootSearchView { current: dir, state: RootState::Searching }
}

/// The `.git` entry the search asks about, while it is searching.
pub open spec fn root_request(v: RootSearchView) -> Option<PathView> {
    if v.state == RootState::Searching {
        Some(marker(v.current))
    } else {
        None
    }
}

/// The search after learning whether the asked-for entry exists.
pub open spec fn root_step(v: RootSearchView, found: bool) -> RootSearchView {
    if v.state != RootState::Searching {
        v
    } else if found {
        RootSearchView { state: RootState::Found, ..v }
    } else if v.current.parts.len() == 0 {
        RootSearchView { state: RootState::NotFound, ..v }
    } else {
        RootSearchView { current: parent_of(v.current), ..v }
    }
}

/// The root the search has found, if it is over.
pub open spec fn root_result(v: RootSearchView) -> Option<PathView> {
    if v.state == RootState::Found {
        Some(v.current)
    } else {
        None
    }
}

/// The search run for at most `fuel` questions, each answered by `has_git`.
pub open spec fn root_drive(v: RootSearchView, has_git: spec_fn(PathView) -> bool, fuel: nat) -> RootSearchView
    decreases fuel,
{
    if fuel == 0 || v.state != RootState::Searching {
        v
    } else {
        root_drive(root_step(v, has_git(marker(v.current))), has_git, (fuel - 1) as nat)
    }
}

proof fn lemma_root_drive(v: RootSearchView, has_git: spec_fn(PathView) -> bool, fuel: nat)
    requires
        v.state == RootState::Searching,
        fuel > v.current.parts.len(),
    ensures
        root_drive(v, has_git, fuel).state != RootState::Searching,
        root_result(root_drive(v, has_git, fuel)) == root_from(v.current, has_git),
    decreases fuel,
{
    let w = root_step(v, has_git(marker(v.current)));
    if w.state == RootState::Searching {
        lemma_root_drive(w, has_git, (fuel - 1) as nat);
    }
}

/// Answering each question of a new search started at `dir` with `has_git`
/// ends, after at most one question per ancestor, with [`root_from`].
pub proof fn lemma_root_search_finds_root(dir: PathView, has_git: spec_fn(PathView) -> bool)
    ensures
        root_drive(root_start(dir), has_git, dir.parts.len() + 1).state != RootState::Searching,
        root_result(root_drive(root_start(dir), has_git, dir.parts.len() + 1)) == root_from(
            dir,
            has_git,
        ),
{
    lemma_root_drive(root_start(dir), has_git, dir.parts.len() + 1);
}

/// The search for the root of the repository around a directory.
pub struct RootSearch {
    current: FsPath,
    state: RootState,
}

impl View for RootSearch {
    type V = RootSearchView;

    closed spec fn view(&self) -> RootSearchView {
        RootSearchView { current: self.current@, state: self.state }
    }
}

impl RootSearch {
    /// A new search that starts at `dir`.
    pub fn start(dir: FsPath) -> (r: RootSearch)
        ensures
            r@ == root_start(dir@),
    {
        RootSearch { current: dir, state: RootState::Searching }
    }

    /// The directory being looked at, or the root once found.
    pub fn current(&self) -> (r: &FsPath)
        ensures
            r@ == self@.current,
    {
        &self.current
    }

    /// Where the search stands.
    pub fn state(&self) -> (r: RootState)
        ensures
            r == self@.state,
    {
        self.state
    }

    /// The `.git` entry whose existence the search needs next, or `None` when
    /// the search is over.
    pub fn request(&self) -> (r: Option<FsPath>)
        ensures
            match r {
                Some(p) => root_request(self@) == Some(p@),
                None => root_request(self@) is None,
            },
    {
        match self.state {
            RootState::Searching => Some(self.current.join_str(".git")),
            _ => None,
        }
    }

    /// The search after learning whether the asked-for entry exists.
    pub fn answer(self, found: bool) -> (r: RootSearch)
        ensures
            r@ == root_step(self@, found),
    {
        match self.state {
            RootState::Searching => {
                if found {
                    RootSearch { current: self.current, state: RootState::Found }
                } else {
                    match self.current.parent() {
                        Some(p) => RootSearch { current: p, state: RootState::Searching },
                        None => RootSearch { current: self.current, state: RootState::NotFound },
                    }
                }
            },
            _ => self,
        }
    }

    /// The root found, once the search is over.
    pub fn result(self) -> (r: Option<FsPath>)
        ensures
            match r {
                Some(p) => root_result(self@) == Some(p@),
                None => root_result(self@) is None,
            },
    {
        match self.state {
            RootState::Found => Some(self.current),
            _ => None,
        }
    }
}

} // verus!
