//! An index of repositories, each kept once by path.

use vstd::prelude::*;

use crate::path::{components, path_eq, same_path, Comp};

verus! {

/// A repository known by its path.
#[derive(Debug)]
pub struct Repo {
    path: String,
}

impl View for Repo {
    type V = Seq<char>;

    closed spec fn view(&self) -> Seq<char> {
        self.path@
    }
}

impl Repo {
    /// The repository at `path`.
    pub fn new(path: String) -> (res: Self)
        ensures
            res@ == path@,
    {
        Repo { path }
    }

    /// The repository's path.
    pub fn path(&self) -> (res: &str)
        ensures
            res@ == self@,
    {
        self.path.as_str()
    }
}

/// The keys after adding `x`: unchanged where it is there already, else with it at the end.
pub open spec fn with_key<A>(v: Seq<A>, x: A) -> Seq<A> {
    if v.contains(x) {
        v
    } else {
        v.push(x)
    }
}

/// The keys after adding each of `xs` in turn to an empty list.
pub open spec fn pushed_keys<A>(xs: Seq<A>) -> Seq<A>
    decreases xs.len(),
{
    if xs.len() == 0 {
        Seq::empty()
    } else {
        with_key(pushed_keys(xs.drop_last()), xs.last())
    }
}

/// Whether `k` is the first position of `x` in `xs`.
pub open spec fn is_first_at<A>(xs: Seq<A>, x: A, k: int) -> bool {
    &&& 0 <= k < xs.len()
    &&& xs[k] == x
    &&& forall|m: int| 0 <= m < k ==> xs[m] != x
}

/// After adding keys one by one, each key added is held exactly once, in the order in which
/// each was first added; so as many are held as there are distinct keys.
pub proof fn lemma_pushed_keys<A>(xs: Seq<A>)
    ensures
        pushed_keys(xs).no_duplicates(),
        forall|x: A| #[trigger] pushed_keys(xs).contains(x) <==> xs.contains(x),
        forall|i: int, j: int, a: int, b: int|
            0 <= i < j < pushed_keys(xs).len() && is_first_at(xs, pushed_keys(xs)[i], a)
                && is_first_at(xs, pushed_keys(xs)[j], b) ==> a < b,
        pushed_keys(xs).len() == xs.to_set().len(),
    decreases xs.len(),
{
    let r = pushed_keys(xs);
    if xs.len() > 0 {
        let init = xs.drop_last();
        let x = xs.last();
        let r0 = pushed_keys(init);
        lemma_pushed_keys(init);
        assert(xs =~= init.push(x));
        assert forall|y: A, k: int| init.contains(y) && #[trigger] is_first_at(xs, y, k)
            implies is_first_at(init, y, k) by {
            let w = choose|w: int| 0 <= w < init.len() && init[w] == y;
            if k >= init.len() {
                assert(xs[w] == y);
            }
        }
        if init.contains(x) {
            assert(r == r0);
            assert forall|y: A| #[trigger] r.contains(y) <==> xs.contains(y) by {
                if xs.contains(y) {
                    let k = choose|k: int| 0 <= k < xs.len() && xs[k] == y;
                    if k < init.len() {
                        assert(init[k] == y);
                    }
                }
                if r.contains(y) {
                    let w = choose|w: int| 0 <= w < init.len() && init[w] == y;
                    assert(xs[w] == y);
                }
            }
            assert forall|i: int, j: int, a: int, b: int|
                0 <= i < j < r.len() && is_first_at(xs, r[i], a) && is_first_at(xs, r[j], b)
                implies a < b by {
                assert(r0.contains(r0[i]));
                assert(r0.contains(r0[j]));
                assert(is_first_at(init, r[i], a));
                assert(is_first_at(init, r[j], b));
            }
        } else {
            assert(r == r0.push(x));
            assert forall|y: A| #[trigger] r.contains(y) <==> xs.contains(y) by {
                if r.contains(y) {
                    let k = choose|k: int| 0 <= k < r.len() && r[k] == y;
                    if k < r0.len() {
                        assert(r0[k] == y);
                        assert(r0.contains(y));
                        let w = choose|w: int| 0 <= w < init.len() && init[w] == y;
                        assert(xs[w] == y);
                    } else {
                        assert(xs[xs.len() - 1] == y);
                    }
                }
                if xs.contains(y) {
                    let k = choose|k: int| 0 <= k < xs.len() && xs[k] == y;
                    if k < init.len() {
                        assert(init[k] == y);
                        assert(r0.contains(y));
                        let w = choose|w: int| 0 <= w < r0.len() && r0[w] == y;
                        assert(r[w] == y);
                    } else {
                        assert(r[r.len() - 1] == y);
                    }
                }
            }
            assert forall|i: int, j: int, a: int, b: int|
                0 <= i < j < r.len() && is_first_at(xs, r[i], a) && is_first_at(xs, r[j], b)
                implies a < b by {
                assert(r[i] == r0[i]);
                assert(r0.contains(r0[i]));
                assert(init.contains(r[i]));
                assert(is_first_at(init, r[i], a));
                if j < r0.len() {
                    assert(r[j] == r0[j]);
                    assert(r0.contains(r0[j]));
                    assert(init.contains(r[j]));
                    assert(is_first_at(init, r[j], b));
                } else {
                    assert(r[j] == x);
                    if b < init.len() {
                        assert(init[b] == x);
                    }
                }
            }
            assert forall|i: int, j: int|
                0 <= i < r.len() && 0 <= j < r.len() && i != j implies r[i] != r[j] by {
                if i < r0.len() && j < r0.len() {
                    assert(r[i] == r0[i] && r[j] == r0[j]);
                } else if i < r0.len() {
                    assert(r0.contains(r0[i]));
                } else {
                    assert(r0.contains(r0[j]));
                }
            }
        }
    }
    r.unique_seq_to_set();
    assert(r.to_set() =~= xs.to_set());
}

/// The components of each path.
pub open spec fn path_keys(paths: Seq<Seq<char>>) -> Seq<Seq<Comp>> {
    paths.map_values(|p: Seq<char>| components(p))
}

/// Whether no path occurs twice: no two paths are the same path (see `same_path`).
pub open spec fn distinct_paths(paths: Seq<Seq<char>>) -> bool {
    forall|i: int, j: int| 0 <= i < j < paths.len() ==> !same_path(paths[i], paths[j])
}

/// Whether `path` is the same path as one of `paths`.
pub open spec fn has_path(paths: Seq<Seq<char>>, path: Seq<char>) -> bool {
    exists|i: int| 0 <= i < paths.len() && same_path(paths[i], path)
}

/// The paths after adding `path`: unchanged where the same path is there already, else with
/// it at the end.
pub open spec fn with_path(paths: Seq<Seq<char>>, path: Seq<char>) -> Seq<Seq<char>> {
    if has_path(paths, path) {
        paths
    } else {
        paths.push(path)
    }
}

/// The paths after adding each of `ps` in turn to an empty index.
pub open spec fn pushed_paths(ps: Seq<Seq<char>>) -> Seq<Seq<char>>
    decreases ps.len(),
{
    if ps.len() == 0 {
        Seq::empty()
    } else {
        with_path(pushed_paths(ps.drop_last()), ps.last())
    }
}

/// Adding a path twice is adding it once, adding keeps the paths distinct, and afterwards the
/// path is held.
pub proof fn lemma_with_path(paths: Seq<Seq<char>>, path: Seq<char>)
    requires
        distinct_paths(paths),
    ensures
        with_path(with_path(paths, path), path) == with_path(paths, path),
        has_path(with_path(paths, path), path),
        distinct_paths(with_path(paths, path)),
{
    if !has_path(paths, path) {
        let q = paths.push(path);
        assert(same_path(q[paths.len() as int], path));
    }
}

/// Adding a path to an index adds its components to the components of the index, as keys.
proof fn lemma_with_path_keys(paths: Seq<Seq<char>>, path: Seq<char>)
    ensures
        path_keys(with_path(paths, path)) == with_key(path_keys(paths), components(path)),
{
    let ks = path_keys(paths);
    if has_path(paths, path) {
        let i = choose|i: int| 0 <= i < paths.len() && same_path(paths[i], path);
        assert(ks[i] == components(path));
    } else {
        if ks.contains(components(path)) {
            let i = choose|i: int| 0 <= i < ks.len() && ks[i] == components(path);
            assert(same_path(paths[i], path));
        }
        assert(path_keys(paths.push(path)) =~= ks.push(components(path)));
    }
}

/// After adding paths one by one, the index holds exactly the components of the paths added,
/// each once, in the order in which each was first added (see `lemma_pushed_keys`); each path
/// held is one of the paths added.
pub proof fn lemma_pushed_paths(ps: Seq<Seq<char>>)
    ensures
        path_keys(pushed_paths(ps)) == pushed_keys(path_keys(ps)),
        forall|x: Seq<char>| #[trigger] pushed_paths(ps).contains(x) ==> ps.contains(x),
        distinct_paths(pushed_paths(ps)),
    decreases ps.len(),
{
    if ps.len() > 0 {
        let init = ps.drop_last();
        lemma_pushed_paths(init);
        lemma_with_path_keys(pushed_paths(init), ps.last());
        lemma_with_path(pushed_paths(init), ps.last());
        assert(path_keys(ps).drop_last() =~= path_keys(init));
        assert forall|x: Seq<char>| #[trigger] pushed_paths(ps).contains(x) implies ps.contains(x) by {
            if pushed_paths(init).contains(x) {
                let w = choose|w: int| 0 <= w < init.len() && init[w] == x;
                assert(ps[w] == x);
            } else {
                assert(ps[ps.len() - 1] == x);
            }
        }
    } else {
        assert(path_keys(pushed_paths(ps)) =~= pushed_keys(path_keys(ps)));
    }
}

/// A list of repositories in which no path occurs twice.
#[derive(Debug)]
pub struct RepoIndex {
    repos: Vec<Repo>,
}

impl View for RepoIndex {
    type V = Seq<Seq<char>>;

    closed spec fn view(&self) -> Seq<Seq<char>> {
        self.repos@.map_values(|r: Repo| r@)
    }
}

impl RepoIndex {
    /// No path occurs twice.
    #[verifier::type_invariant]
    spec fn inv(self) -> bool {
        distinct_paths(self@)
    }

    /// An empty index.
    pub fn new() -> (res: Self)
        ensures
            res@ == Seq::<Seq<char>>::empty(),
    {
        let res = RepoIndex { repos: Vec::new() };
        assert(res@ =~= Seq::<Seq<char>>::empty());
        res
    }

    /// The repositories, in the order they were added.
    pub fn repos(&self) -> (res: &Vec<Repo>)
        ensures
            res@.map_values(|r: Repo| r@) == self@,
            distinct_paths(self@),
    {
        proof {
            use_type_invariant(self);
        }
        &self.repos
    }

    /// Adds `repo` unless a repository with its path is already there; says whether it was
    /// added.
    pub fn push(&mut self, repo: Repo) -> (res: bool)
        ensures
            res == !has_path(old(self)@, repo@),
            final(self)@ == with_path(old(self)@, repo@),
            distinct_paths(final(self)@),
    {
        proof {
            use_type_invariant(&*self);
        }
        let ghost v = self@;
        let mut i: usize = 0;
        while i < self.repos.len()
            invariant
                v == self.repos@.map_values(|r: Repo| r@),
                i <= self.repos.len(),
                forall|j: int| 0 <= j < i ==> !same_path(#[trigger] v[j], repo@),
            decreases self.repos.len() - i,
        {
            if path_eq(self.repos[i].path.as_str(), repo.path.as_str()) {
                assert(same_path(v[i as int], repo@));
                proof {
                    use_type_invariant(&*self);
                }
                return false;
            }
            i = i + 1;
        }
        proof {
            if has_path(v, repo@) {
                let j = choose|j: int| 0 <= j < v.len() && same_path(v[j], repo@);
                assert(!same_path(v[j], repo@));
            }
        }
        let mut repos: Vec<Repo> = Vec::new();
        std::mem::swap(&mut repos, &mut self.repos);
        repos.push(repo);
        proof {
            assert(repos@.map_values(|r: Repo| r@) =~= v.push(repo@));
        }
        self.repos = repos;
        proof {
            use_type_invariant(&*self);
        }
        true
    }
}

} // verus!
