//! What the `clone` command works on: the root to clone under, and the repository to clone.

use vstd::prelude::*;

use crate::param::AppParam;
use crate::query::{parse_query, Query, QueryConfig, QueryError, QueryErrorView, QueryView};
use crate::roots::{
    default_root_name, root_param_view, RootContext, RootContextMap, RootNotFound,
};

verus! {

/// Why the `clone` command cannot start.
#[derive(Debug)]
pub enum CloneContextError {
    /// The root named is not declared.
    RootNotFound(RootNotFound),
    /// The query does not name a repository.
    InvalidQuery { query: String, error: QueryError },
}

impl CloneContextError {
    /// The message shown to the user; for an invalid query, the reason follows as its cause.
    pub fn message(&self) -> (res: String)
        ensures
            match self {
                CloneContextError::RootNotFound(e) => res@ == crate::roots::root_not_found_message(
                    e.name@,
                ),
                CloneContextError::InvalidQuery { query, .. } => res@ == "invalid query: "@
                    + query@,
            },
    {
        match self {
            CloneContextError::RootNotFound(e) => e.message(),
            CloneContextError::InvalidQuery { query, .. } => {
                let mut res = String::from_str("invalid query: ");
                res.append(query.as_str());
                res
            },
        }
    }
}

/// The root to clone under and the repository to clone.
#[derive(Debug)]
pub struct CloneContext<'a> {
    root: &'a AppParam<RootContext>,
    query: Query,
}

impl<'a> CloneContext<'a> {
    /// The root to clone under.
    pub closed spec fn spec_root(&self) -> &'a AppParam<RootContext> {
        self.root
    }

    /// The repository to clone.
    pub closed spec fn spec_query(&self) -> Query {
        self.query
    }

    /// The root named `root_name` (the default root where none is named) and the repository
    /// `query` names. The root is looked up first.
    pub fn new(
        roots: &'a RootContextMap,
        root_name: Option<&str>,
        query: &str,
        config: &QueryConfig,
    ) -> (res: Result<Self, CloneContextError>)
        ensures
            match root_name {
                Some(n) => !roots@.contains_key(n@) ==> (res matches Err(
                    CloneContextError::RootNotFound(e),
                ) && e.name@ == n@),
                None => true,
            },
            (match root_name {
                Some(n) => roots@.contains_key(n@),
                None => true,
            }) ==> match res {
                Ok(ctx) => root_param_view(*ctx.spec_root()) == roots@[match root_name {
                    Some(n) => n@,
                    None => default_root_name(),
                }] && parse_query(config@, query@) == Ok::<QueryView, QueryErrorView>(ctx.spec_query()@),
                Err(CloneContextError::InvalidQuery { query: q, error }) => q@ == query@
                    && parse_query(config@, query@) == Err::<QueryView, QueryErrorView>(error@),
                Err(CloneContextError::RootNotFound(_)) => false,
            },
    {
        let root = match root_name {
            Some(name) => match roots.root_by_name_or_err(name) {
                Ok(r) => r,
                Err(e) => return Err(CloneContextError::RootNotFound(e)),
            },
            None => roots.default_root(),
        };
        match Query::parse(query, config) {
            Ok(q) => Ok(CloneContext { root, query: q }),
            Err(error) => Err(CloneContextError::InvalidQuery { query: query.to_owned(), error }),
        }
    }

    /// The root to clone under.
    pub fn root(&self) -> (res: &'a AppParam<RootContext>)
        ensures
            res == self.spec_root(),
    {
        self.root
    }

    /// The repository to clone.
    pub fn query(&self) -> (res: &Query)
        ensures
            res@ == self.spec_query()@,
    {
        &self.query
    }
}

/// What `url::Url::parse` and then `Url::host_str` and `Url::path` give for `url`: its host
/// and its path, where it parses and has a host.
pub uninterp spec fn url_host_path(url: Seq<char>) -> Option<(Seq<char>, Seq<char>)>;

/// The host and path of a URL (`url::Url::parse`, `Url::host_str`, `Url::path`); `None` where
/// it does not parse or has no host.
///
/// Trusted: the result is the named `url_host_path` of the argument; nothing more is stated of
/// how the `url` crate parses.
#[verifier::external_body]
fn url_host_and_path(url: &str) -> (res: Option<(String, String)>)
    ensures
        match res {
            Some((h, p)) => url_host_path(url@) == Some((h@, p@)),
            None => url_host_path(url@) is None,
        },
{
    let parsed = url::Url::parse(url).ok()?;
    Some((parsed.host_str()?.to_owned(), parsed.path().to_owned()))
}

/// A URL path without its leading `/`s.
pub open spec fn trim_leading_slashes(p: Seq<char>) -> Seq<char>
    decreases p.len(),
{
    if p.len() > 0 && p[0] == '/' {
        trim_leading_slashes(p.drop_first())
    } else {
        p
    }
}

/// A path without a trailing `.git`.
pub open spec fn trim_git_suffix(p: Seq<char>) -> Seq<char> {
    if p.len() >= 4 && p.skip(p.len() - 4) == ".git"@ {
        p.take(p.len() - 4)
    } else {
        p
    }
}

/// Where, under a root, the repository at `host` and `url_path` is cloned: the host, then the
/// path without its leading `/`s and without a trailing `.git`.
pub open spec fn clone_relative(host: Seq<char>, url_path: Seq<char>) -> Seq<char> {
    host + seq!['/'] + trim_git_suffix(trim_leading_slashes(url_path))
}

/// A URL path `/p` whose rest `p` starts with no `/` and does not end in `.git` is cloned at
/// `host/p`: the path is kept whole.
pub proof fn lemma_clone_relative_plain(host: Seq<char>, p: Seq<char>)
    requires
        p.len() == 0 || p[0] != '/',
        !(p.len() >= 4 && p[p.len() - 4] == '.' && p[p.len() - 3] == 'g' && p[p.len() - 2] == 'i'
            && p[p.len() - 1] == 't'),
    ensures
        clone_relative(host, seq!['/'] + p) == host + seq!['/'] + p,
{
    let u = seq!['/'] + p;
    assert(u.drop_first() =~= p);
    assert(trim_leading_slashes(u) == trim_leading_slashes(p));
    assert(trim_leading_slashes(p) == p);
    reveal_strlit(".git");
    if p.len() >= 4 {
        let t = p.skip(p.len() - 4);
        assert(t[0] == p[p.len() - 4]);
        assert(t[1] == p[p.len() - 3]);
        assert(t[2] == p[p.len() - 2]);
        assert(t[3] == p[p.len() - 1]);
        assert(t != ".git"@) by {
            if t == ".git"@ {
                assert(".git"@[0] == '.');
                assert(".git"@[1] == 'g');
                assert(".git"@[2] == 'i');
                assert(".git"@[3] == 't');
            }
        }
    }
    assert(trim_git_suffix(p) == p);
}

/// A URL path `/p.git`, where `p` starts with no `/`, is cloned at `host/p`: the trailing
/// `.git` is dropped, and nothing else.
pub proof fn lemma_clone_relative_git_suffix(host: Seq<char>, p: Seq<char>)
    requires
        p.len() == 0 || p[0] != '/',
    ensures
        clone_relative(host, seq!['/'] + p + seq!['.', 'g', 'i', 't']) == host + seq!['/'] + p,
{
    let g = seq!['.', 'g', 'i', 't'];
    let rest = p + g;
    let u = seq!['/'] + p + g;
    assert(u.drop_first() =~= rest);
    assert(trim_leading_slashes(u) == trim_leading_slashes(rest));
    assert(rest[0] != '/') by {
        if p.len() == 0 {
            assert(rest[0] == g[0]);
        } else {
            assert(rest[0] == p[0]);
        }
    }
    assert(trim_leading_slashes(rest) == rest);
    reveal_strlit(".git");
    assert(rest.skip(rest.len() - 4) =~= g);
    assert(g =~= ".git"@);
    assert(rest.take(rest.len() - 4) =~= p);
    assert(trim_git_suffix(rest) == p);
}

/// Where, under a root, the repository at `host` and `url_path` is cloned (see
/// `clone_relative`).
pub fn clone_relative_path(host: &str, url_path: &str) -> (res: String)
    ensures
        res@ == clone_relative(host@, url_path@),
{
    let c = crate::text::chars_of(url_path);
    let mut start: usize = 0;
    assert(url_path@.skip(0) =~= url_path@);
    while start < c.len() && c[start] == '/'
        invariant
            c@ == url_path@,
            start <= c.len(),
            trim_leading_slashes(url_path@) == trim_leading_slashes(url_path@.skip(start as int)),
        decreases c.len() - start,
    {
        assert(url_path@.skip(start as int).drop_first() =~= url_path@.skip(start + 1));
        start = start + 1;
    }
    assert(trim_leading_slashes(url_path@.skip(start as int)) == url_path@.skip(start as int));
    let mut end = c.len();
    proof {
        reveal_strlit(".git");
    }
    let ghost rest = url_path@.skip(start as int);
    if c.len() - start >= 4 && c[c.len() - 4] == '.' && c[c.len() - 3] == 'g' && c[c.len() - 2]
        == 'i' && c[c.len() - 1] == 't' {
        end = c.len() - 4;
        assert(rest.skip(rest.len() - 4) =~= ".git"@);
        assert(rest.take(rest.len() - 4) =~= c@.subrange(start as int, end as int));
    } else {
        assert(rest.len() >= 4 ==> rest.skip(rest.len() - 4) != ".git"@) by {
            if rest.len() >= 4 {
                assert(rest.skip(rest.len() - 4)[0] == c@[c.len() - 4]);
                assert(rest.skip(rest.len() - 4)[1] == c@[c.len() - 3]);
                assert(rest.skip(rest.len() - 4)[2] == c@[c.len() - 2]);
                assert(rest.skip(rest.len() - 4)[3] == c@[c.len() - 1]);
            }
        }
        assert(rest =~= c@.subrange(start as int, end as int));
    }
    let tail = crate::text::string_of(&c, start, end);
    let mut res = host.to_owned();
    crate::text::push_char(&mut res, '/');
    res.append(tail.as_str());
    res
}

/// Where, under a root, the repository `url` names is cloned: the host, then the path without
/// its leading `/`s and a trailing `.git`; `None` where the URL has no host.
pub fn clone_relative_path_of_url(url: &str) -> (res: Option<String>)
    ensures
        match url_host_path(url@) {
            Some((h, p)) => res matches Some(r) && r@ == clone_relative(h, p),
            None => res is None,
        },
{
    match url_host_and_path(url) {
        Some((host, path)) => Some(clone_relative_path(host.as_str(), path.as_str())),
        None => None,
    }
}

} // verus!
