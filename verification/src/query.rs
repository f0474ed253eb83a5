//! Resolving a user's query (`gh:owner/repo`, `owner/repo`, `git@host:path`, a URL) to the URL
//! of a remote repository.

use vstd::prelude::*;

use crate::assoc::{
    assoc_map, lemma_assoc_map_absent, lemma_assoc_map_finite, lemma_assoc_map_last,
    lemma_assoc_map_push,
};
use crate::scheme::Scheme;
use crate::template::{
    expand_pieces, names_view, pieces_view, vars_view, Piece, PieceView, Template,
};
use crate::text::{chars_of, chars_start_with, starts_with, string_of};

verus! {

/// The settings of query resolution, as a mathematical value.
pub struct QueryConfigView {
    /// The scheme put in front of a query that has none.
    pub default_scheme: Option<Seq<char>>,
    /// Schemes that stand for other schemes.
    pub scheme_alias: Map<Seq<char>, Seq<char>>,
    /// Schemes that expand to a template in which `{path}` is the rest of the query.
    pub custom_scheme: Map<Seq<char>, Seq<PieceView>>,
}

impl QueryConfigView {
    /// The schemes that the settings give a meaning to.
    pub open spec fn scheme_keys(self) -> Set<Seq<char>> {
        self.scheme_alias.dom().union(self.custom_scheme.dom())
    }
}

/// The views of a list of scheme alias pairs.
pub open spec fn alias_entries(v: Seq<(Scheme, Scheme)>) -> Seq<(Seq<char>, Seq<char>)> {
    v.map_values(|p: (Scheme, Scheme)| (p.0@, p.1@))
}

/// The views of a list of custom scheme pairs.
pub open spec fn custom_entries(v: Seq<(Scheme, Template)>) -> Seq<(Seq<char>, Seq<PieceView>)> {
    v.map_values(|p: (Scheme, Template)| (p.0@, p.1@))
}

/// The settings of query resolution.
#[derive(Debug)]
pub struct QueryConfig {
    default_scheme: Option<Scheme>,
    scheme_alias: Vec<(Scheme, Scheme)>,
    custom_scheme: Vec<(Scheme, Template)>,
}

impl View for QueryConfig {
    type V = QueryConfigView;

    closed spec fn view(&self) -> QueryConfigView {
        QueryConfigView {
            default_scheme: match self.default_scheme {
                Some(s) => Some(s@),
                None => None,
            },
            scheme_alias: assoc_map(alias_entries(self.scheme_alias@)),
            custom_scheme: assoc_map(custom_entries(self.custom_scheme@)),
        }
    }
}

/// The `{path}` variable of a custom scheme's template.
pub open spec fn path_vars(rest: Seq<char>) -> Map<Seq<char>, Seq<char>> {
    Map::empty().insert("path"@, rest)
}

/// The view of an optional scheme.
pub open spec fn opt_scheme_view(s: Option<Scheme>) -> Option<Seq<char>> {
    match s {
        Some(s) => Some(s@),
        None => None,
    }
}

/// The predefined settings: `gh` is the default scheme, `gh` and `gl` stand for `github` and
/// `gitlab`, which expand to `https://github.com/{path}.git` and `https://gitlab.com/{path}.git`.
pub open spec fn default_query_config() -> QueryConfigView {
    QueryConfigView {
        default_scheme: Some("gh"@),
        scheme_alias: Map::empty().insert("gh"@, "github"@).insert("gl"@, "gitlab"@),
        custom_scheme: Map::empty().insert(
            "github"@,
            seq![
                PieceView::Literal("https://github.com/"@),
                PieceView::Variable("path"@),
                PieceView::Literal(".git"@),
            ],
        ).insert(
            "gitlab"@,
            seq![
                PieceView::Literal("https://gitlab.com/"@),
                PieceView::Variable("path"@),
                PieceView::Literal(".git"@),
            ],
        ),
    }
}

/// The map of a list of pairs appended to another is the first map overridden by the second.
proof fn lemma_assoc_map_append<V>(a: Seq<(Seq<char>, V)>, b: Seq<(Seq<char>, V)>)
    ensures
        assoc_map(a + b) == assoc_map(a).union_prefer_right(assoc_map(b)),
    decreases b.len(),
{
    if b.len() == 0 {
        assert(a + b =~= a);
        assert(assoc_map(a).union_prefer_right(assoc_map(b)) =~= assoc_map(a));
    } else {
        lemma_assoc_map_append(a, b.drop_last());
        assert((a + b).drop_last() =~= a + b.drop_last());
        assert(assoc_map(a + b) =~= assoc_map(a).union_prefer_right(assoc_map(b)));
    }
}

/// Makes a scheme of a string literal known to be valid.
fn scheme_lit(s: &str) -> (res: Scheme)
    requires
        crate::scheme::is_valid_scheme(s@),
    ensures
        res@ == s@,
{
    Scheme::from_valid(s.to_owned())
}

/// The scheme used for a query that names none: `gh`.
pub fn default_scheme() -> (res: Scheme)
    ensures
        res@ == "gh"@,
{
    proof {
        reveal_strlit("gh");
    }
    scheme_lit("gh")
}

/// The template `prefix{path}.git`.
fn path_template(prefix: &str) -> (res: Template)
    ensures
        res@ == seq![
            PieceView::Literal(prefix@),
            PieceView::Variable("path"@),
            PieceView::Literal(".git"@),
        ],
{
    let pieces = vec![
        Piece::Literal(prefix.to_owned()),
        Piece::Variable("path".to_owned()),
        Piece::Literal(".git".to_owned()),
    ];
    let res = Template::from_pieces(pieces);
    assert(pieces_view(pieces@) =~= seq![
        PieceView::Literal(prefix@),
        PieceView::Variable("path"@),
        PieceView::Literal(".git"@),
    ]);
    res
}

impl QueryConfig {
    /// Settings with the given default scheme and no aliases or custom schemes.
    pub fn new(default_scheme: Option<Scheme>) -> (res: QueryConfig)
        ensures
            res@ == (QueryConfigView {
                default_scheme: opt_scheme_view(default_scheme),
                scheme_alias: Map::empty(),
                custom_scheme: Map::empty(),
            }),
    {
        let res = QueryConfig { default_scheme, scheme_alias: Vec::new(), custom_scheme: Vec::new() };
        assert(res@.scheme_alias =~= Map::empty());
        assert(res@.custom_scheme =~= Map::empty());
        res
    }

    /// The predefined settings (see `default_query_config`).
    pub fn default() -> (res: QueryConfig)
        ensures
            res@ == default_query_config(),
    {
        proof {
            reveal_strlit("gh");
            reveal_strlit("gl");
            reveal_strlit("github");
            reveal_strlit("gitlab");
        }
        let mut res = QueryConfig::new(Some(scheme_lit("gh")));
        res.insert_scheme_alias(scheme_lit("gh"), scheme_lit("github"));
        res.insert_scheme_alias(scheme_lit("gl"), scheme_lit("gitlab"));
        res.insert_custom_scheme(scheme_lit("github"), path_template("https://github.com/"));
        res.insert_custom_scheme(scheme_lit("gitlab"), path_template("https://gitlab.com/"));
        res
    }

    /// The predefined settings overridden by those of a configuration file: its default scheme
    /// where it has one, and its aliases and custom schemes, each replacing a predefined one of
    /// the same name.
    pub fn from_overrides(
        default_scheme: Option<Scheme>,
        mut scheme_alias: Vec<(Scheme, Scheme)>,
        mut custom_scheme: Vec<(Scheme, Template)>,
    ) -> (res: QueryConfig)
        ensures
            res@ == (QueryConfigView {
                default_scheme: match default_scheme {
                    Some(s) => Some(s@),
                    None => default_query_config().default_scheme,
                },
                scheme_alias: default_query_config().scheme_alias.union_prefer_right(
                    assoc_map(alias_entries(scheme_alias@)),
                ),
                custom_scheme: default_query_config().custom_scheme.union_prefer_right(
                    assoc_map(custom_entries(custom_scheme@)),
                ),
            }),
    {
        let mut config = QueryConfig::default();
        if let Some(scheme) = default_scheme {
            config.default_scheme = Some(scheme);
        }
        let ghost base_alias = config.scheme_alias@;
        let ghost base_custom = config.custom_scheme@;
        let ghost given_alias = scheme_alias@;
        let ghost given_custom = custom_scheme@;
        config.scheme_alias.append(&mut scheme_alias);
        config.custom_scheme.append(&mut custom_scheme);
        proof {
            assert(alias_entries(config.scheme_alias@) =~= alias_entries(base_alias)
                + alias_entries(given_alias));
            assert(custom_entries(config.custom_scheme@) =~= custom_entries(base_custom)
                + custom_entries(given_custom));
            lemma_assoc_map_append(alias_entries(base_alias), alias_entries(given_alias));
            lemma_assoc_map_append(custom_entries(base_custom), custom_entries(given_custom));
        }
        config
    }

    /// Replaces the default scheme.
    pub fn set_default_scheme(&mut self, scheme: Option<Scheme>)
        ensures
            final(self)@ == (QueryConfigView { default_scheme: opt_scheme_view(scheme), ..old(self)@ }),
    {
        self.default_scheme = scheme;
    }

    /// Makes `alias` stand for `scheme`, replacing an earlier alias of the same name.
    pub fn insert_scheme_alias(&mut self, alias: Scheme, scheme: Scheme)
        ensures
            final(self)@ == (QueryConfigView {
                scheme_alias: old(self)@.scheme_alias.insert(alias@, scheme@),
                ..old(self)@
            }),
    {
        let ghost old_entries = self.scheme_alias@;
        let ghost a = alias@;
        let ghost b = scheme@;
        self.scheme_alias.push((alias, scheme));
        proof {
            assert(alias_entries(self.scheme_alias@) =~= alias_entries(old_entries).push((a, b)));
            lemma_assoc_map_push(alias_entries(old_entries), a, b);
        }
    }

    /// Makes `scheme` expand to `template`, replacing an earlier one of the same name.
    pub fn insert_custom_scheme(&mut self, scheme: Scheme, template: Template)
        ensures
            final(self)@ == (QueryConfigView {
                custom_scheme: old(self)@.custom_scheme.insert(scheme@, template@),
                ..old(self)@
            }),
    {
        let ghost old_entries = self.custom_scheme@;
        let ghost a = scheme@;
        let ghost b = template@;
        self.custom_scheme.push((scheme, template));
        proof {
            assert(custom_entries(self.custom_scheme@) =~= custom_entries(old_entries).push(
                (a, b),
            ));
            lemma_assoc_map_push(custom_entries(old_entries), a, b);
        }
    }

    /// The default scheme.
    pub fn default_scheme(&self) -> (res: Option<&Scheme>)
        ensures
            match res {
                Some(s) => self@.default_scheme == Some(s@),
                None => self@.default_scheme is None,
            },
    {
        self.default_scheme.as_ref()
    }

    /// The scheme that `name` stands for.
    pub fn scheme_alias(&self, name: &String) -> (res: Option<&Scheme>)
        ensures
            match res {
                Some(s) => self@.scheme_alias.contains_key(name@) && self@.scheme_alias[name@]
                    == s@,
                None => !self@.scheme_alias.contains_key(name@),
            },
    {
        let ghost entries = alias_entries(self.scheme_alias@);
        let mut i = self.scheme_alias.len();
        while i > 0
            invariant
                i <= self.scheme_alias.len(),
                entries == alias_entries(self.scheme_alias@),
                forall|j: int| i <= j < self.scheme_alias.len() ==> entries[j].0 != name@,
            decreases i,
        {
            i = i - 1;
            if self.scheme_alias[i].0.eq_string(name) {
                proof {
                    lemma_assoc_map_last(entries, i as int);
                }
                return Some(&self.scheme_alias[i].1);
            }
        }
        proof {
            lemma_assoc_map_absent(entries, name@);
        }
        None
    }

    /// The template that `name` expands to.
    pub fn custom_scheme(&self, name: &String) -> (res: Option<&Template>)
        ensures
            match res {
                Some(t) => self@.custom_scheme.contains_key(name@) && self@.custom_scheme[name@]
                    == t@,
                None => !self@.custom_scheme.contains_key(name@),
            },
    {
        let ghost entries = custom_entries(self.custom_scheme@);
        let mut i = self.custom_scheme.len();
        while i > 0
            invariant
                i <= self.custom_scheme.len(),
                entries == custom_entries(self.custom_scheme@),
                forall|j: int| i <= j < self.custom_scheme.len() ==> entries[j].0 != name@,
            decreases i,
        {
            i = i - 1;
            if self.custom_scheme[i].0.eq_string(name) {
                proof {
                    lemma_assoc_map_last(entries, i as int);
                }
                return Some(&self.custom_scheme[i].1);
            }
        }
        proof {
            lemma_assoc_map_absent(entries, name@);
        }
        None
    }

    /// The schemes that the settings give a meaning to form a finite set.
    pub proof fn lemma_scheme_keys_finite(&self)
        ensures
            self@.scheme_keys().finite(),
    {
        lemma_assoc_map_finite(alias_entries(self.scheme_alias@));
        lemma_assoc_map_finite(custom_entries(self.custom_scheme@));
    }
}

/// Whether `q` already is a URL: it starts with `http://`, `https://`, `ssh://`, `git://` or
/// `ftp://`.
pub open spec fn has_url_prefix(q: Seq<char>) -> bool {
    starts_with(q, "http://"@) || starts_with(q, "https://"@) || starts_with(q, "ssh://"@)
        || starts_with(q, "git://"@) || starts_with(q, "ftp://"@)
}

/// Whether `i` is the position of the first `:` in `q`.
pub open spec fn is_first_colon(q: Seq<char>, i: int) -> bool {
    &&& 0 <= i < q.len()
    &&& q[i] == ':'
    &&& forall|j: int| 0 <= j < i ==> q[j] != ':'
}

/// Whether `q` holds a `:`.
pub open spec fn has_colon(q: Seq<char>) -> bool {
    exists|i: int| is_first_colon(q, i)
}

/// The position of the first `:` in `q`.
pub open spec fn first_colon(q: Seq<char>) -> int {
    choose|i: int| is_first_colon(q, i)
}

/// A string with a `:` at position `k` has a first `:`.
pub proof fn lemma_first_colon_exists(q: Seq<char>, k: int)
    requires
        0 <= k < q.len(),
        q[k] == ':',
    ensures
        has_colon(q),
    decreases k,
{
    if exists|j: int| 0 <= j < k && q[j] == ':' {
        let j = choose|j: int| 0 <= j < k && q[j] == ':';
        lemma_first_colon_exists(q, j);
    } else {
        assert(is_first_colon(q, k));
    }
}

/// There is one first `:`.
proof fn lemma_first_colon_unique(q: Seq<char>, i: int)
    requires
        is_first_colon(q, i),
    ensures
        first_colon(q) == i,
{
    let k = first_colon(q);
    assert(is_first_colon(q, k));
    if k < i {
        assert(q[k] != ':');
    } else if i < k {
        assert(q[i] != ':');
    }
}

/// What a query resolves to, as a mathematical value.
pub enum ExpansionView {
    /// A URL to hand to the URL parser.
    Url(Seq<char>),
    /// The query, once expanded this far, has no scheme and there is no default scheme.
    NoScheme(Seq<char>),
    /// The query, once expanded this far, names a scheme again that it was already expanded
    /// from.
    CircularAlias(Seq<char>),
}

/// Resolves a query step by step: a URL is kept; `scheme:rest` is rewritten with the alias or
/// custom scheme of that name (a scheme seen before is a circular alias), or else read as
/// scp-like syntax `ssh://scheme/rest`; a query without `:` gets the default scheme.
/// `visited` holds the schemes already rewritten.
pub open spec fn expand_query(cfg: QueryConfigView, visited: Set<Seq<char>>, q: Seq<char>) -> ExpansionView
    decreases cfg.scheme_keys().difference(visited).len(), if has_colon(q) {
        0nat
    } else {
        1nat
    },
    when cfg.scheme_keys().finite()
{
    if has_url_prefix(q) {
        ExpansionView::Url(q)
    } else if has_colon(q) {
        let i = first_colon(q);
        let scheme = q.take(i);
        let rest = q.skip(i + 1);
        if visited.contains(scheme) {
            ExpansionView::CircularAlias(q)
        } else if cfg.scheme_alias.contains_key(scheme) {
            proof {
                cfg.scheme_keys().lemma_set_insert_diff_decreases(visited, scheme);
            }
            expand_query(
                cfg,
                visited.insert(scheme),
                cfg.scheme_alias[scheme] + seq![':'] + rest,
            )
        } else if cfg.custom_scheme.contains_key(scheme) {
            proof {
                cfg.scheme_keys().lemma_set_insert_diff_decreases(visited, scheme);
            }
            expand_query(
                cfg,
                visited.insert(scheme),
                expand_pieces(cfg.custom_scheme[scheme], path_vars(rest)),
            )
        } else {
            ExpansionView::Url("ssh://"@ + scheme + "/"@ + rest)
        }
    } else {
        match cfg.default_scheme {
            Some(d) => {
                proof {
                    lemma_first_colon_exists(d + seq![':'] + q, d.len() as int);
                }
                expand_query(cfg, visited, d + seq![':'] + q)
            },
            None => ExpansionView::NoScheme(q),
        }
    }
}

/// What a query resolves to.
#[derive(Debug)]
pub enum Expansion {
    Url(String),
    NoScheme(String),
    CircularAlias(String),
}

impl View for Expansion {
    type V = ExpansionView;

    open spec fn view(&self) -> ExpansionView {
        match self {
            Expansion::Url(s) => ExpansionView::Url(s@),
            Expansion::NoScheme(s) => ExpansionView::NoScheme(s@),
            Expansion::CircularAlias(s) => ExpansionView::CircularAlias(s@),
        }
    }
}

/// The position of the first `:` in `chars`, if any.
fn find_colon(chars: &Vec<char>) -> (res: Option<usize>)
    ensures
        match res {
            Some(i) => is_first_colon(chars@, i as int),
            None => !has_colon(chars@),
        },
{
    let mut i: usize = 0;
    while i < chars.len()
        invariant
            i <= chars.len(),
            forall|j: int| 0 <= j < i ==> chars@[j] != ':',
        decreases chars.len() - i,
    {
        if chars[i] == ':' {
            return Some(i);
        }
        i = i + 1;
    }
    None
}

/// Whether the characters of `q` start with one of the URL prefixes.
fn is_url(chars: &Vec<char>) -> (res: bool)
    ensures
        res == has_url_prefix(chars@),
{
    chars_start_with(chars, "http://") || chars_start_with(chars, "https://") || chars_start_with(
        chars,
        "ssh://",
    ) || chars_start_with(chars, "git://") || chars_start_with(chars, "ftp://")
}

/// Adding a name to a list adds its view to the set of names.
proof fn lemma_names_view_push(names: Seq<String>, n: String)
    ensures
        names_view(names.push(n)) == names_view(names).insert(n@),
{
    let a = names.push(n).map_values(|x: String| x@);
    let b = names.map_values(|x: String| x@);
    assert(a =~= b.push(n@));
    assert forall|x: Seq<char>| a.to_set().contains(x) <==> b.to_set().insert(n@).contains(x) by {
        if a.to_set().contains(x) {
            let k = choose|k: int| 0 <= k < a.len() && a[k] == x;
            if k < b.len() {
                assert(b[k] == x);
            }
        }
        if b.to_set().contains(x) {
            let k = choose|k: int| 0 <= k < b.len() && b[k] == x;
            assert(a[k] == x);
        }
        if x == n@ {
            assert(a[b.len() as int] == x);
        }
    }
    assert(a.to_set() =~= b.to_set().insert(n@));
}

/// Joins three strings.
fn concat3(a: &str, b: &str, c: &str) -> (res: String)
    ensures
        res@ == a@ + b@ + c@,
{
    let mut res = a.to_owned();
    res.append(b);
    res.append(c);
    res
}

/// Resolves `query` as `expand_query` describes, starting with no scheme visited.
pub fn expand(query: &str, config: &QueryConfig) -> (res: Expansion)
    ensures
        res@ == expand_query(config@, Set::empty(), query@),
{
    proof {
        config.lemma_scheme_keys_finite();
    }
    let ghost cfg = config@;
    let mut q: String = query.to_owned();
    let mut visited: Vec<String> = Vec::new();
    assert(names_view(visited@) =~= Set::empty());
    loop
        invariant
            cfg == config@,
            cfg.scheme_keys().finite(),
            expand_query(cfg, Set::empty(), query@) == expand_query(
                cfg,
                names_view(visited@),
                q@,
            ),
        decreases cfg.scheme_keys().difference(names_view(visited@)).len(), if has_colon(q@) {
            0nat
        } else {
            1nat
        },
    {
        proof {
            reveal_strlit(":");
        }
        let chars = chars_of(q.as_str());
        if is_url(&chars) {
            return Expansion::Url(q);
        }
        let ghost vis = names_view(visited@);
        match find_colon(&chars) {
            Some(i) => {
                proof {
                    lemma_first_colon_unique(chars@, i as int);
                }
                let scheme = string_of(&chars, 0, i);
                let rest = string_of(&chars, i + 1, chars.len());
                assert(scheme@ =~= q@.take(i as int));
                assert(rest@ =~= q@.skip(i + 1));
                if crate::template::contains_name(&visited, &scheme) {
                    return Expansion::CircularAlias(q);
                }
                if let Some(target) = config.scheme_alias(&scheme) {
                    let ghost old_q = q@;
                    q = concat3(target.as_str(), ":", rest.as_str());
                    assert(q@ =~= target@ + seq![':'] + rest@);
                    proof {
                        lemma_names_view_push(visited@, scheme);
                        cfg.scheme_keys().lemma_set_insert_diff_decreases(vis, scheme@);
                    }
                    visited.push(scheme);
                    continue ;
                }
                if let Some(template) = config.custom_scheme(&scheme) {
                    let vars = vec![("path".to_owned(), rest)];
                    proof {
                        assert(vars_view(vars@).drop_last() =~= seq![]);
                        assert(crate::assoc::assoc_map(vars_view(vars@).drop_last()) =~= Map::<
                            Seq<char>,
                            Seq<char>,
                        >::empty());
                        assert(vars_view(vars@).last() == ("path"@, vars@[0].1@));
                        assert(crate::assoc::assoc_map(vars_view(vars@)) =~= path_vars(
                            vars@[0].1@,
                        ));
                    }
                    q = template.expand(&vars);
                    proof {
                        lemma_names_view_push(visited@, scheme);
                        cfg.scheme_keys().lemma_set_insert_diff_decreases(vis, scheme@);
                    }
                    visited.push(scheme);
                    continue ;
                }
                let mut url = concat3("ssh://", scheme.as_str(), "/");
                url.append(rest.as_str());
                return Expansion::Url(url);
            },
            None => {
                match config.default_scheme() {
                    Some(d) => {
                        let next = concat3(d.as_str(), ":", q.as_str());
                        assert(next@ =~= d@ + seq![':'] + q@);
                        proof {
                            lemma_first_colon_exists(next@, d@.len() as int);
                        }
                        q = next;
                        continue ;
                    },
                    None => {
                        return Expansion::NoScheme(q);
                    },
                }
            },
        }
    }
}

/// A `url::ParseError`, carried as it is in errors.
#[verifier::external_type_specification]
#[verifier::external_body]
pub struct ExUrlParseError(url::ParseError);

/// What the `url` crate makes of a string: the serialization of the parsed absolute URL, or
/// `None` where the string is not one.
pub uninterp spec fn url_parse_result(input: Seq<char>) -> Option<Seq<char>>;

/// Parses an absolute URL with `url::Url::parse` and gives back its serialization (the
/// `From<Url> for String` conversion).
///
/// Trusted: success and the serialization are the named `url_parse_result` of the input;
/// which `url::ParseError` comes on failure is not stated.
#[verifier::external_body]
fn parse_url(input: &str) -> (res: Result<String, url::ParseError>)
    ensures
        match res {
            Ok(u) => url_parse_result(input@) == Some(u@),
            Err(_) => url_parse_result(input@) is None,
        },
{
    url::Url::parse(input).map(String::from)
}

/// The text of a `url::ParseError` (its `Display` implementation).
///
/// Trusted: nothing is stated of the text.
#[verifier::external_body]
fn url_error_text(e: &url::ParseError) -> String {
    e.to_string()
}

/// A resolved query, as a mathematical value.
pub struct QueryView {
    /// The query as the user wrote it.
    pub original_query: Seq<char>,
    /// The serialization of the URL it resolved to.
    pub url: Seq<char>,
}

/// A query resolved to the URL of a remote repository.
#[derive(Debug)]
pub struct Query {
    original_query: String,
    url: String,
}

impl View for Query {
    type V = QueryView;

    closed spec fn view(&self) -> QueryView {
        QueryView { original_query: self.original_query@, url: self.url@ }
    }
}

/// Why a query was refused, as a mathematical value.
pub enum QueryErrorView {
    InvalidUrl { original_query: Seq<char>, expanded_query: Seq<char> },
    NoSchemeSpecified { original_query: Seq<char>, expanded_query: Seq<char> },
    CircularAlias { original_query: Seq<char>, expanded_query: Seq<char> },
}

/// Why a query was refused.
#[derive(Debug)]
pub enum QueryError {
    /// The query expanded to a string that is not a valid URL.
    InvalidUrl { original_query: String, expanded_query: String, source: url::ParseError },
    /// The query has no scheme and no default scheme is set.
    NoSchemeSpecified { original_query: String, expanded_query: String },
    /// The aliases and custom schemes expand the query in a circle.
    CircularAlias { original_query: String, expanded_query: String },
}

impl View for QueryError {
    type V = QueryErrorView;

    open spec fn view(&self) -> QueryErrorView {
        match self {
            QueryError::InvalidUrl { original_query, expanded_query, .. } => QueryErrorView::InvalidUrl {
                original_query: original_query@,
                expanded_query: expanded_query@,
            },
            QueryError::NoSchemeSpecified { original_query, expanded_query } => QueryErrorView::NoSchemeSpecified {
                original_query: original_query@,
                expanded_query: expanded_query@,
            },
            QueryError::CircularAlias { original_query, expanded_query } => QueryErrorView::CircularAlias {
                original_query: original_query@,
                expanded_query: expanded_query@,
            },
        }
    }
}

/// The outcome of resolving `query` with the settings `cfg`.
pub open spec fn parse_query(cfg: QueryConfigView, query: Seq<char>) -> Result<QueryView, QueryErrorView> {
    match expand_query(cfg, Set::empty(), query) {
        ExpansionView::Url(u) => match url_parse_result(u) {
            Some(url) => Ok(QueryView { original_query: query, url }),
            None => Err(QueryErrorView::InvalidUrl { original_query: query, expanded_query: u }),
        },
        ExpansionView::NoScheme(e) => Err(
            QueryErrorView::NoSchemeSpecified { original_query: query, expanded_query: e },
        ),
        ExpansionView::CircularAlias(e) => Err(
            QueryErrorView::CircularAlias { original_query: query, expanded_query: e },
        ),
    }
}

/// A query that already is a URL, one that starts with `http://`, `https://`, `ssh://`,
/// `git://` or `ftp://`, resolves to itself, whatever the settings and whatever schemes were
/// rewritten before; resolving it then succeeds exactly where the URL parser accepts it.
pub proof fn lemma_url_query_kept(cfg: QueryConfigView, visited: Set<Seq<char>>, q: Seq<char>)
    requires
        cfg.scheme_keys().finite(),
        starts_with(q, "http://"@) || starts_with(q, "https://"@) || starts_with(q, "ssh://"@)
            || starts_with(q, "git://"@) || starts_with(q, "ftp://"@),
    ensures
        expand_query(cfg, visited, q) == ExpansionView::Url(q),
        parse_query(cfg, q) == (match url_parse_result(q) {
            Some(url) => Ok::<QueryView, QueryErrorView>(QueryView { original_query: q, url }),
            None => Err(QueryErrorView::InvalidUrl { original_query: q, expanded_query: q }),
        }),
{
}

/// The view of the outcome of resolving a query.
pub open spec fn query_result_view(r: Result<Query, QueryError>) -> Result<QueryView, QueryErrorView> {
    match r {
        Ok(q) => Ok(q@),
        Err(e) => Err(e@),
    }
}

/// How an error message names a query: `` `original` `` or, where expansion changed it,
/// `` `original` (expanded to `expanded`) ``.
pub open spec fn query_subject(original: Seq<char>, expanded: Seq<char>) -> Seq<char> {
    if original == expanded {
        "`"@ + original + "`"@
    } else {
        "`"@ + original + "` (expanded to `"@ + expanded + "`)"@
    }
}

/// The message for a query that expanded to an invalid URL, where `reason` is the text of the
/// URL parser's error.
pub open spec fn invalid_url_message(original: Seq<char>, expanded: Seq<char>, reason: Seq<char>) -> Seq<char> {
    "invalid URL "@ + query_subject(original, expanded) + ": "@ + reason
}

/// Whether `m` is the message for the error `e`. For an invalid URL the message ends with the
/// text of the URL parser's error, which is not stated here.
pub open spec fn is_query_error_message(e: QueryErrorView, m: Seq<char>) -> bool {
    match e {
        QueryErrorView::InvalidUrl { original_query, expanded_query } => starts_with(
            m,
            invalid_url_message(original_query, expanded_query, seq![]),
        ),
        QueryErrorView::NoSchemeSpecified { original_query, expanded_query } => m
            == "no scheme specified "@ + query_subject(original_query, expanded_query),
        QueryErrorView::CircularAlias { original_query, expanded_query } => m
            == "invalid config: circular alias "@ + query_subject(original_query, expanded_query),
    }
}

/// Writes the message for a query that expanded to an invalid URL.
fn invalid_url_text(original: &String, expanded: &String, source: &url::ParseError) -> (res: String)
    ensures
        starts_with(res@, invalid_url_message(original@, expanded@, seq![])),
{
    let mut res = String::from_str("invalid URL ");
    let subject = subject_text(original, expanded);
    res.append(subject.as_str());
    res.append(": ");
    let text = url_error_text(source);
    res.append(text.as_str());
    assert(res@ == invalid_url_message(original@, expanded@, seq![]) + text@);
    assert(res@.take(invalid_url_message(original@, expanded@, seq![]).len() as int) =~= invalid_url_message(original@, expanded@, seq![]));
    res
}

/// Writes `query_subject`.
fn subject_text(original: &String, expanded: &String) -> (res: String)
    ensures
        res@ == query_subject(original@, expanded@),
{
    let mut res = String::from_str("`");
    res.append(original.as_str());
    if *original == *expanded {
        res.append("`");
    } else {
        res.append("` (expanded to `");
        res.append(expanded.as_str());
        res.append("`)");
    }
    res
}

impl QueryError {
    /// The message shown to the user. For an invalid URL the message ends with the text of
    /// the URL parser's error.
    pub fn message(&self) -> (res: String)
        ensures
            is_query_error_message(self@, res@),
    {
        match self {
            QueryError::InvalidUrl { original_query, expanded_query, source } => {
                invalid_url_text(original_query, expanded_query, source)
            },
            QueryError::NoSchemeSpecified { original_query, expanded_query } => {
                let mut res = String::from_str("no scheme specified ");
                let subject = subject_text(original_query, expanded_query);
                res.append(subject.as_str());
                res
            },
            QueryError::CircularAlias { original_query, expanded_query } => {
                let mut res = String::from_str("invalid config: circular alias ");
                let subject = subject_text(original_query, expanded_query);
                res.append(subject.as_str());
                res
            },
        }
    }
}

impl Query {
    /// Resolves a query to a URL: see `expand_query` for the steps, after which the URL parser
    /// decides whether the result is a valid URL.
    pub fn parse(query: &str, config: &QueryConfig) -> (res: Result<Query, QueryError>)
        ensures
            query_result_view(res) == parse_query(config@, query@),
    {
        match expand(query, config) {
            Expansion::Url(candidate) => {
                let parsed = parse_url(candidate.as_str());
                Query::from_parsed_url(query, candidate, parsed)
            },
            Expansion::NoScheme(e) => Err(
                QueryError::NoSchemeSpecified { original_query: query.to_owned(), expanded_query: e },
            ),
            Expansion::CircularAlias(e) => Err(
                QueryError::CircularAlias { original_query: query.to_owned(), expanded_query: e },
            ),
        }
    }

    /// The query for `original_query` once its expansion `expanded_query` has been handed to the
    /// URL parser and `parsed` came back: the URL's serialization, or an invalid-URL error.
    pub fn from_parsed_url(
        original_query: &str,
        expanded_query: String,
        parsed: Result<String, url::ParseError>,
    ) -> (res: Result<Query, QueryError>)
        ensures
            match parsed {
                Ok(url) => res matches Ok(q) && q@ == (QueryView {
                    original_query: original_query@,
                    url: url@,
                }),
                Err(e) => res matches Err(QueryError::InvalidUrl { original_query: o, expanded_query: x, source }) && o@
                    == original_query@ && x@ == expanded_query@ && source == e,
            },
    {
        match parsed {
            Ok(url) => Ok(Query { original_query: original_query.to_owned(), url }),
            Err(source) => Err(
                QueryError::InvalidUrl {
                    original_query: original_query.to_owned(),
                    expanded_query,
                    source,
                },
            ),
        }
    }

    /// The query as the user wrote it.
    pub fn original_query(&self) -> (res: &str)
        ensures
            res@ == self@.original_query,
    {
        self.original_query.as_str()
    }

    /// The serialization of the URL that the query resolved to.
    pub fn url(&self) -> (res: &str)
        ensures
            res@ == self@.url,
    {
        self.url.as_str()
    }
}

} // verus!
