//! Listing repositories: which roots are listed, in which format, and the variables a template
//! may use for each repository.

use vstd::prelude::*;

use crate::assoc::assoc_map;
use crate::cli::ListArgs;
use crate::config::GlobalContext;
use crate::param::AppParam;
use crate::repo::{CanonicalRepo, CanonicalRepoView, CanonicalRootView, CanonicalRoot};
use crate::roots::{root_param_view, RootContext, RootContextMap, RootNotFound, RootParamView};
use crate::template::{expand_pieces, first_unknown, names_view, vars_view, Template, TemplateError};

verus! {

/// The names of the variables a repository-list template may use.
pub open spec fn repo_list_names() -> Seq<Seq<char>> {
    seq![
        "root_name"@,
        "root_display_path"@,
        "root_real_path"@,
        "root_canonical_path"@,
        "repo_relative_path"@,
        "repo_display_path"@,
        "repo_real_path"@,
        "repo_canonical_path"@,
    ]
}

/// The names of the variables a repository-list template may use, as strings.
pub fn repo_list_variable_names() -> (res: Vec<String>)
    ensures
        res@.map_values(|n: String| n@) == repo_list_names(),
{
    let res = vec![
        "root_name".to_owned(),
        "root_display_path".to_owned(),
        "root_real_path".to_owned(),
        "root_canonical_path".to_owned(),
        "repo_relative_path".to_owned(),
        "repo_display_path".to_owned(),
        "repo_real_path".to_owned(),
        "repo_canonical_path".to_owned(),
    ];
    assert(res@.map_values(|n: String| n@) =~= repo_list_names());
    res
}

/// How repositories are listed.
#[derive(Debug)]
pub enum Format {
    /// One canonical path per line.
    Default,
    /// A JSON document.
    Json,
    /// One line per repository, from a template.
    Template(Template),
}

/// The format options of the `list` command.
#[derive(Debug)]
pub struct FormatArgs {
    pub json: bool,
    pub template: Option<Template>,
}

/// Whether `res` is the format the options ask for: JSON where `json` is set, else the
/// template where one is given and it uses only the variables of a repository list (an error
/// naming the first other variable where it does not), else the default format.
pub open spec fn format_chosen(args: FormatArgs, res: Result<Format, TemplateError>) -> bool {
    if args.json {
        res matches Ok(Format::Json)
    } else {
        match args.template {
            None => res matches Ok(Format::Default),
            Some(template) => match res {
                Ok(Format::Template(t)) => t@ == template@ && first_unknown(
                    template@,
                    repo_list_names().to_set(),
                ) is None,
                Err(TemplateError::UnknownVariable { name }) => first_unknown(
                    template@,
                    repo_list_names().to_set(),
                ) == Some(name@),
                _ => false,
            },
        }
    }
}

impl FormatArgs {
    /// The format asked for (see `format_chosen`).
    pub fn validate(&self) -> (res: Result<Format, TemplateError>)
        ensures
            format_chosen(*self, res),
    {
        if self.json {
            Ok(Format::Json)
        } else {
            match &self.template {
                Some(template) => {
                    let names = repo_list_variable_names();
                    assert(names_view(names@) == repo_list_names().to_set());
                    match template.validate(&names) {
                        Ok(()) => Ok(Format::Template(template.clone())),
                        Err(e) => Err(e),
                    }
                },
                None => Ok(Format::Default),
            }
        }
    }
}

/// The values of a repository-list template's variables for one repository, as a
/// mathematical value.
pub struct RepoListTemplateContextView {
    pub root_name: Seq<char>,
    pub root_display_path: Seq<char>,
    pub root_real_path: Seq<char>,
    pub root_canonical_path: Seq<char>,
    pub repo_relative_path: Seq<char>,
    pub repo_display_path: Seq<char>,
    pub repo_real_path: Seq<char>,
    pub repo_canonical_path: Seq<char>,
}

/// The values of a repository-list template's variables for one repository.
#[derive(Debug)]
pub struct RepoListTemplateContext {
    pub root_name: String,
    pub root_display_path: String,
    pub root_real_path: String,
    pub root_canonical_path: String,
    pub repo_relative_path: String,
    pub repo_display_path: String,
    pub repo_real_path: String,
    pub repo_canonical_path: String,
}

impl View for RepoListTemplateContext {
    type V = RepoListTemplateContextView;

    open spec fn view(&self) -> RepoListTemplateContextView {
        RepoListTemplateContextView {
            root_name: self.root_name@,
            root_display_path: self.root_display_path@,
            root_real_path: self.root_real_path@,
            root_canonical_path: self.root_canonical_path@,
            repo_relative_path: self.repo_relative_path@,
            repo_display_path: self.repo_display_path@,
            repo_real_path: self.repo_real_path@,
            repo_canonical_path: self.repo_canonical_path@,
        }
    }
}

/// The variables for `repo` under `root`.
pub open spec fn repo_list_context(root: CanonicalRootView, repo: CanonicalRepoView) -> RepoListTemplateContextView {
    RepoListTemplateContextView {
        root_name: root.root.name,
        root_display_path: root.root.path.display_path,
        root_real_path: root.root.path.real_path,
        root_canonical_path: root.canonical_path,
        repo_relative_path: repo.repo.relative_path.real_path,
        repo_display_path: repo.repo.path.display_path,
        repo_real_path: repo.repo.path.real_path,
        repo_canonical_path: repo.canonical_path,
    }
}

/// The variables of a context, by name.
pub open spec fn context_vars(c: RepoListTemplateContextView) -> Map<Seq<char>, Seq<char>> {
    map![
        "root_name"@ => c.root_name,
        "root_display_path"@ => c.root_display_path,
        "root_real_path"@ => c.root_real_path,
        "root_canonical_path"@ => c.root_canonical_path,
        "repo_relative_path"@ => c.repo_relative_path,
        "repo_display_path"@ => c.repo_display_path,
        "repo_real_path"@ => c.repo_real_path,
        "repo_canonical_path"@ => c.repo_canonical_path,
    ]
}

/// The variables of a listed repository are exactly the eight names a template may use, and
/// each holds what its name says: the root's name, the root's path as shown (with `~`), as
/// found and canonicalized, the repository's path relative to the root, and its path as
/// shown, as found and canonicalized.
pub proof fn lemma_repo_list_vars(root: CanonicalRootView, repo: CanonicalRepoView)
    ensures
        context_vars(repo_list_context(root, repo)).dom() == repo_list_names().to_set(),
        context_vars(repo_list_context(root, repo))["root_name"@] == root.root.name,
        context_vars(repo_list_context(root, repo))["root_display_path"@]
            == root.root.path.display_path,
        context_vars(repo_list_context(root, repo))["root_real_path"@] == root.root.path.real_path,
        context_vars(repo_list_context(root, repo))["root_canonical_path"@] == root.canonical_path,
        context_vars(repo_list_context(root, repo))["repo_relative_path"@]
            == repo.repo.relative_path.real_path,
        context_vars(repo_list_context(root, repo))["repo_display_path"@]
            == repo.repo.path.display_path,
        context_vars(repo_list_context(root, repo))["repo_real_path"@] == repo.repo.path.real_path,
        context_vars(repo_list_context(root, repo))["repo_canonical_path"@] == repo.canonical_path,
{
    reveal_strlit("root_name");
    reveal_strlit("root_display_path");
    reveal_strlit("root_real_path");
    reveal_strlit("root_canonical_path");
    reveal_strlit("repo_relative_path");
    reveal_strlit("repo_display_path");
    reveal_strlit("repo_real_path");
    reveal_strlit("repo_canonical_path");
    // Names of one length differ in their third character.
    assert("root_name"@.len() == 9);
    assert("root_real_path"@.len() == 14 && "repo_real_path"@.len() == 14);
    assert("root_display_path"@.len() == 17 && "repo_display_path"@.len() == 17);
    assert("repo_relative_path"@.len() == 18);
    assert("root_canonical_path"@.len() == 19 && "repo_canonical_path"@.len() == 19);
    assert("root_real_path"@[2] == 'o' && "repo_real_path"@[2] == 'p');
    assert("root_display_path"@[2] == 'o' && "repo_display_path"@[2] == 'p');
    assert("root_canonical_path"@[2] == 'o' && "repo_canonical_path"@[2] == 'p');
    let m = context_vars(repo_list_context(root, repo));
    let names = repo_list_names();
    assert forall|k: Seq<char>| m.dom().contains(k) <==> names.to_set().contains(k) by {
        if names.to_set().contains(k) {
            let i = names.index_of(k);
            assert(0 <= i < 8);
        }
        if m.dom().contains(k) {
            if k == "root_name"@ {
                assert(names[0] == k);
            } else if k == "root_display_path"@ {
                assert(names[1] == k);
            } else if k == "root_real_path"@ {
                assert(names[2] == k);
            } else if k == "root_canonical_path"@ {
                assert(names[3] == k);
            } else if k == "repo_relative_path"@ {
                assert(names[4] == k);
            } else if k == "repo_display_path"@ {
                assert(names[5] == k);
            } else if k == "repo_real_path"@ {
                assert(names[6] == k);
            } else {
                assert(names[7] == k);
            }
        }
    }
    assert(m.dom() =~= names.to_set());
}

impl RepoListTemplateContext {
    /// The variables for `repo` under `root` (see `repo_list_context`).
    pub fn new(root: &CanonicalRoot, repo: &CanonicalRepo) -> (res: Self)
        ensures
            res@ == repo_list_context(root@, repo@),
    {
        RepoListTemplateContext {
            root_name: root.name().to_owned(),
            root_display_path: format_displayable_path(root.path().as_display_path()),
            root_real_path: format_displayable_path(root.path().as_real_path()),
            root_canonical_path: format_displayable_path(root.canonical_path()),
            repo_relative_path: format_displayable_path(repo.relative_path().as_real_path()),
            repo_display_path: format_displayable_path(repo.path().as_display_path()),
            repo_real_path: format_displayable_path(repo.path().as_real_path()),
            repo_canonical_path: format_displayable_path(repo.canonical_path()),
        }
    }

    /// The variables as name/value pairs.
    pub fn vars(&self) -> (res: Vec<(String, String)>)
        ensures
            assoc_map(vars_view(res@)) == context_vars(self@),
    {
        let res = vec![
            ("root_name".to_owned(), self.root_name.clone()),
            ("root_display_path".to_owned(), self.root_display_path.clone()),
            ("root_real_path".to_owned(), self.root_real_path.clone()),
            ("root_canonical_path".to_owned(), self.root_canonical_path.clone()),
            ("repo_relative_path".to_owned(), self.repo_relative_path.clone()),
            ("repo_display_path".to_owned(), self.repo_display_path.clone()),
            ("repo_real_path".to_owned(), self.repo_real_path.clone()),
            ("repo_canonical_path".to_owned(), self.repo_canonical_path.clone()),
        ];
        proof {
            let v = vars_view(res@);
            reveal_with_fuel(assoc_map, 9);
            assert(v =~= seq![
                ("root_name"@, self.root_name@),
                ("root_display_path"@, self.root_display_path@),
                ("root_real_path"@, self.root_real_path@),
                ("root_canonical_path"@, self.root_canonical_path@),
                ("repo_relative_path"@, self.repo_relative_path@),
                ("repo_display_path"@, self.repo_display_path@),
                ("repo_real_path"@, self.repo_real_path@),
                ("repo_canonical_path"@, self.repo_canonical_path@),
            ]);
            assert(assoc_map(v) =~= context_vars(self@));
        }
        res
    }
}

/// The line a template gives for `repo` under `root`.
pub fn render_repo_line(template: &Template, root: &CanonicalRoot, repo: &CanonicalRepo) -> (res: String)
    ensures
        res@ == expand_pieces(template@, context_vars(repo_list_context(root@, repo@))),
{
    let context = RepoListTemplateContext::new(root, repo);
    template.expand(&context.vars())
}

/// Whether every name of `names` before index `n` is a root.
pub open spec fn all_found(m: Map<Seq<char>, RootParamView>, names: Seq<String>, n: int) -> bool {
    forall|j: int| 0 <= j < n ==> m.contains_key(#[trigger] names[j]@)
}

/// The views of a list of root parameters.
pub open spec fn param_views(v: Seq<&AppParam<RootContext>>) -> Seq<RootParamView> {
    v.map_values(|p: &AppParam<RootContext>| root_param_view(*p))
}

/// The views of an optional list of names.
pub open spec fn opt_names(names: Option<&Vec<String>>) -> Option<Seq<String>> {
    match names {
        Some(ns) => Some(ns@),
        None => None,
    }
}

/// The views of an optional owned list of names.
pub open spec fn opt_name_list(names: Option<Vec<String>>) -> Option<Seq<String>> {
    match names {
        Some(ns) => Some(ns@),
        None => None,
    }
}

/// Whether `v` lists the roots to list: those named, in the order named, every one of them a
/// root; or, where none is named, every root in the order `sorted` (ascending by name).
pub open spec fn listed_roots(
    m: Map<Seq<char>, RootParamView>,
    sorted: Seq<Seq<char>>,
    names: Option<Seq<String>>,
    v: Seq<RootParamView>,
) -> bool {
    match names {
        None => v.len() == sorted.len() && forall|i: int|
            0 <= i < v.len() ==> v[i] == m[#[trigger] sorted[i]],
        Some(ns) => all_found(m, ns, ns.len() as int) && v.len() == ns.len() && forall|i: int|
            0 <= i < v.len() ==> v[i] == m[(#[trigger] ns[i])@],
    }
}

/// Whether `name` is the first of `names` that is not a root.
pub open spec fn first_missing_root(m: Map<Seq<char>, RootParamView>, names: Seq<String>, name: Seq<char>) -> bool {
    exists|j: int|
        0 <= j < names.len() && all_found(m, names, j) && !m.contains_key(#[trigger] names[j]@)
            && name == names[j]@
}

/// The roots to list: those named, in the order named, or all roots in ascending order of
/// their names where none is named (see `listed_roots`). The error names the first name that
/// is not a root.
pub fn select_roots<'a>(roots: &'a RootContextMap, names: Option<&Vec<String>>) -> (res: Result<
    Vec<&'a AppParam<RootContext>>,
    RootNotFound,
>)
    ensures
        match res {
            Ok(v) => listed_roots(roots@, roots.spec_names(), opt_names(names), param_views(v@)),
            Err(e) => names is Some && first_missing_root(roots@, names->0@, e.name@),
        },
{
    match names {
        None => Ok(roots.all_roots()),
        Some(ns) => {
            let mut res: Vec<&'a AppParam<RootContext>> = Vec::new();
            let mut i: usize = 0;
            while i < ns.len()
                invariant
                    names == Some(ns),
                    i <= ns.len(),
                    res.len() == i,
                    all_found(roots@, ns@, i as int),
                    forall|j: int| 0 <= j < i ==> root_param_view(*res[j]) == roots@[(#[trigger] ns@[j])@],
                decreases ns.len() - i,
            {
                match roots.root_by_name_or_err(ns[i].as_str()) {
                    Ok(p) => {
                        res.push(p);
                    },
                    Err(e) => {
                        assert(0 <= i < ns@.len() && all_found(roots@, ns@, i as int)
                            && !roots@.contains_key(ns@[i as int]@) && e.name@ == ns@[i as int]@);
                        assert(names->0@ == ns@);
                        assert(first_missing_root(roots@, ns@, e.name@));
                        return Err(e);
                    },
                }
                i = i + 1;
            }
            Ok(res)
        },
    }
}

/// Why the `list` command cannot start.
#[derive(Debug)]
pub enum ListContextError {
    /// A root named is not declared.
    RootNotFound(RootNotFound),
    /// The template is refused.
    Template(TemplateError),
}

impl ListContextError {
    /// The message shown to the user.
    pub fn message(&self) -> (res: String)
        ensures
            match self {
                ListContextError::RootNotFound(e) => res@ == crate::roots::root_not_found_message(
                    e.name@,
                ),
                ListContextError::Template(e) => res@ == crate::template::template_error_message(
                    *e,
                ),
            },
    {
        match self {
            ListContextError::RootNotFound(e) => e.message(),
            ListContextError::Template(e) => e.message(),
        }
    }
}

/// What the `list` command works on: the roots to list, and the format.
#[derive(Debug)]
pub struct ListContext<'a> {
    roots: Vec<&'a AppParam<RootContext>>,
    format: Format,
}

impl<'a> ListContext<'a> {
    /// The roots to list.
    pub closed spec fn spec_roots(&self) -> Seq<RootParamView> {
        param_views(self.roots@)
    }

    /// The format.
    pub closed spec fn spec_format(&self) -> Format {
        self.format
    }

    /// The roots the options name (all of them where none is named) and the format they ask
    /// for; the roots are looked up first.
    pub fn new(global: &'a GlobalContext, args: &ListArgs) -> (res: Result<Self, ListContextError>)
        ensures
            match res {
                Ok(ctx) => listed_roots(
                    global.spec_roots(),
                    global.spec_root_names(),
                    opt_name_list(args.root_name),
                    ctx.spec_roots(),
                ) && format_chosen(args.format, Ok(ctx.spec_format())),
                Err(ListContextError::RootNotFound(e)) => args.root_name is Some
                    && first_missing_root(global.spec_roots(), args.root_name->0@, e.name@),
                Err(ListContextError::Template(e)) => (exists|v: Seq<RootParamView>|
                    listed_roots(
                        global.spec_roots(),
                        global.spec_root_names(),
                        opt_name_list(args.root_name),
                        v,
                    )) && format_chosen(args.format, Err(e)),
            },
    {
        let roots = match select_roots(global.root_map(), args.root_name()) {
            Ok(r) => r,
            Err(e) => return Err(ListContextError::RootNotFound(e)),
        };
        match args.format() {
            Ok(format) => Ok(ListContext { roots, format }),
            Err(e) => Err(ListContextError::Template(e)),
        }
    }

    /// The roots to list.
    pub fn roots(&self) -> (res: &Vec<&'a AppParam<RootContext>>)
        ensures
            param_views(res@) == self.spec_roots(),
    {
        &self.roots
    }

    /// The format.
    pub fn format(&self) -> (res: &Format)
        ensures
            *res == self.spec_format(),
    {
        &self.format
    }
}

/// A path as it is shown in a template: its text.
pub fn format_displayable_path(path: &str) -> (res: String)
    ensures
        res@ == path@,
{
    path.to_owned()
}

} // verus!
