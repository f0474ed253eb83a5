//! Roots: the named directories under which repositories are cloned, as the configuration file
//! declares them.

use vstd::prelude::*;

use crate::name_map::{text_lt, NameMap};
use crate::param::{AppParam, AppParamSource, AppParamSourceView};
use crate::path::{is_abs, join_path, parent, path_join};
use crate::pretty_path::{
    app_dirs_wf, expand_tilde, normalize_requires, normalized, AppDirs, AppDirsView, PrettyPath,
    PrettyPathView, UnresolvedPath,
};

verus! {

/// The name of the root used when no root is named.
pub open spec fn default_root_name() -> Seq<char> {
    seq!['d', 'e', 'f', 'a', 'u', 'l', 't']
}

/// The name of the root used when no root is named, as a string.
pub fn default_root_name_str() -> (res: &'static str)
    ensures
        res@ == default_root_name(),
{
    proof {
        reveal_strlit("default");
    }
    "default"
}

/// The name of the directory, under the application's data directory, of the default root.
pub open spec fn default_root_dir_name() -> Seq<char> {
    seq!['r', 'o', 'o', 't']
}

/// The name of the default root's directory, as a string.
fn root_dir_name_str() -> (res: &'static str)
    ensures
        res@ == default_root_dir_name(),
{
    proof {
        reveal_strlit("root");
    }
    "root"
}

/// A named directory under which repositories are kept.
#[derive(Debug)]
pub struct Root {
    name: String,
    path: PrettyPath,
}

/// A root, as a mathematical value.
pub struct RootView {
    pub name: Seq<char>,
    pub path: PrettyPathView,
}

impl View for Root {
    type V = RootView;

    closed spec fn view(&self) -> RootView {
        RootView { name: self.name@, path: self.path@ }
    }
}

impl Clone for Root {
    fn clone(&self) -> (res: Self)
        ensures
            res@ == self@,
    {
        Root { name: self.name.clone(), path: self.path.clone() }
    }
}

impl Root {
    /// A root named `name` at `path`.
    pub fn new(name: String, path: PrettyPath) -> (res: Self)
        ensures
            res@ == (RootView { name: name@, path: path@ }),
    {
        Root { name, path }
    }

    /// The root's name.
    pub fn name(&self) -> (res: &str)
        ensures
            res@ == self@.name,
    {
        self.name.as_str()
    }

    /// The root's directory.
    pub fn path(&self) -> (res: &PrettyPath)
        ensures
            res@ == self@.path,
    {
        &self.path
    }
}

/// A `[[root]]` entry of the configuration file.
#[derive(Debug)]
pub struct RootConfig {
    pub name: String,
    pub path: Option<UnresolvedPath>,
    pub visit_hidden_dirs: bool,
    pub visit_repo_subdirs: bool,
    pub include_bare_repo: bool,
}

/// A root entry of the configuration file, as a mathematical value.
pub struct RootConfigView {
    pub name: Seq<char>,
    pub path: Option<Seq<char>>,
    pub visit_hidden_dirs: bool,
    pub visit_repo_subdirs: bool,
    pub include_bare_repo: bool,
}

impl View for RootConfig {
    type V = RootConfigView;

    open spec fn view(&self) -> RootConfigView {
        RootConfigView {
            name: self.name@,
            path: match self.path {
                Some(p) => Some(p@),
                None => None,
            },
            visit_hidden_dirs: self.visit_hidden_dirs,
            visit_repo_subdirs: self.visit_repo_subdirs,
            include_bare_repo: self.include_bare_repo,
        }
    }
}

impl Clone for RootConfig {
    fn clone(&self) -> (res: Self)
        ensures
            res@ == self@,
    {
        RootConfig {
            name: self.name.clone(),
            path: match &self.path {
                Some(p) => Some(p.clone()),
                None => None,
            },
            visit_hidden_dirs: self.visit_hidden_dirs,
            visit_repo_subdirs: self.visit_repo_subdirs,
            include_bare_repo: self.include_bare_repo,
        }
    }
}

/// The entry used for the default root when the configuration file declares none.
pub open spec fn default_root_config() -> RootConfigView {
    RootConfigView {
        name: default_root_name(),
        path: None,
        visit_hidden_dirs: false,
        visit_repo_subdirs: false,
        include_bare_repo: false,
    }
}

impl RootConfig {
    /// The entry used for the default root when the configuration file declares none: named
    /// `default`, at the default path, visiting neither hidden directories nor the insides of
    /// repositories, and leaving bare repositories out.
    pub fn default_root() -> (res: Self)
        ensures
            res@ == default_root_config(),
    {
        RootConfig {
            name: default_root_name_str().to_owned(),
            path: None,
            visit_hidden_dirs: false,
            visit_repo_subdirs: false,
            include_bare_repo: false,
        }
    }
}

/// The default root's directory: `root` under the application's data directory.
pub open spec fn default_root_path(dirs: AppDirsView) -> PrettyPathView {
    normalized(
        join_path(dirs.data_local_dir, default_root_dir_name()),
        AppParamSourceView::ImplicitDefault,
        dirs,
    )
}

/// Expanding `~` keeps an absolute path absolute when the home directory is absolute.
pub(crate) proof fn lemma_expand_tilde_abs(p: Seq<char>, home: Seq<char>)
    requires
        is_abs(p),
        is_abs(home),
    ensures
        is_abs(expand_tilde(p, home)),
{
    match crate::path::strip_prefix(p, crate::pretty_path::tilde()) {
        Some(rest) => crate::path::lemma_join_abs(home, rest),
        None => {},
    }
}

/// The default root's directory: `root` under the application's data directory.
fn default_path(dirs: &AppDirs) -> (res: PrettyPath)
    ensures
        res@ == default_root_path(dirs@),
{
    dirs.lemma_wf();
    let dir = path_join(dirs.data_local_dir(), root_dir_name_str());
    proof {
        crate::path::lemma_join_abs(dirs@.data_local_dir, default_root_dir_name());
        lemma_expand_tilde_abs(dir@, dirs@.home_dir);
    }
    UnresolvedPath::new(dir).normalize(&AppParamSource::ImplicitDefault, dirs)
}

/// A root together with how it is walked.
#[derive(Debug)]
pub struct RootContext {
    root: Root,
    visit_hidden_dirs: bool,
    visit_repo_subdirs: bool,
    include_bare_repo: bool,
}

/// A root and how it is walked, as a mathematical value.
pub struct RootContextView {
    pub root: RootView,
    pub visit_hidden_dirs: bool,
    pub visit_repo_subdirs: bool,
    pub include_bare_repo: bool,
}

impl View for RootContext {
    type V = RootContextView;

    closed spec fn view(&self) -> RootContextView {
        RootContextView {
            root: self.root@,
            visit_hidden_dirs: self.visit_hidden_dirs,
            visit_repo_subdirs: self.visit_repo_subdirs,
            include_bare_repo: self.include_bare_repo,
        }
    }
}

impl Clone for RootContext {
    fn clone(&self) -> (res: Self)
        ensures
            res@ == self@,
    {
        RootContext {
            root: self.root.clone(),
            visit_hidden_dirs: self.visit_hidden_dirs,
            visit_repo_subdirs: self.visit_repo_subdirs,
            include_bare_repo: self.include_bare_repo,
        }
    }
}

/// Whether the configuration file at `config_path` lies in an absolute directory, against which
/// relative root paths are resolved.
pub open spec fn config_dir_known(config_path: PrettyPathView) -> bool {
    parent(config_path.real_path) is Some && is_abs(parent(config_path.real_path)->0)
}

/// Whether the path of a configuration entry can be resolved: it has none, or it is absolute
/// once `~` is expanded, or the configuration file lies in an absolute directory.
pub open spec fn root_resolvable(cfg: RootConfigView, config_path: PrettyPathView, dirs: AppDirsView) -> bool {
    match cfg.path {
        Some(p) => normalize_requires(
            p,
            AppParamSourceView::ConfigurationFile { path: config_path },
            dirs,
        ),
        None => true,
    }
}

/// Whether the paths of all the configuration entries can be resolved.
pub open spec fn roots_resolvable(
    configs: Seq<RootConfigView>,
    config_path: PrettyPathView,
    dirs: AppDirsView,
) -> bool {
    forall|i: int| 0 <= i < configs.len() ==> root_resolvable(#[trigger] configs[i], config_path, dirs)
}

/// The root a configuration entry declares: its path resolved against the configuration
/// file's directory, or the default path where it gives none.
pub open spec fn root_context_of(
    cfg: RootConfigView,
    config_path: PrettyPathView,
    dirs: AppDirsView,
) -> RootContextView {
    RootContextView {
        root: RootView {
            name: cfg.name,
            path: match cfg.path {
                Some(p) => normalized(
                    p,
                    AppParamSourceView::ConfigurationFile { path: config_path },
                    dirs,
                ),
                None => default_root_path(dirs),
            },
        },
        visit_hidden_dirs: cfg.visit_hidden_dirs,
        visit_repo_subdirs: cfg.visit_repo_subdirs,
        include_bare_repo: cfg.include_bare_repo,
    }
}

impl RootContext {
    /// The root that a configuration entry declares (see `root_context_of`).
    pub fn from_config(cfg: &RootConfig, config_path: &PrettyPath, dirs: &AppDirs) -> (res: Self)
        requires
            root_resolvable(cfg@, config_path@, dirs@),
        ensures
            res@ == root_context_of(cfg@, config_path@, dirs@),
    {
        let path = match &cfg.path {
            Some(p) => {
                let source = AppParamSource::ConfigurationFile { path: config_path.clone() };
                assert(normalize_requires(p@, source@, dirs@));
                p.normalize(&source, dirs)
            },
            None => default_path(dirs),
        };
        RootContext {
            root: Root::new(cfg.name.clone(), path),
            visit_hidden_dirs: cfg.visit_hidden_dirs,
            visit_repo_subdirs: cfg.visit_repo_subdirs,
            include_bare_repo: cfg.include_bare_repo,
        }
    }

    /// The root.
    pub fn root(&self) -> (res: &Root)
        ensures
            res@ == self@.root,
    {
        &self.root
    }

    /// The root's name.
    pub fn name(&self) -> (res: &str)
        ensures
            res@ == self@.root.name,
    {
        self.root.name()
    }

    /// The root's directory.
    pub fn path(&self) -> (res: &PrettyPath)
        ensures
            res@ == self@.root.path,
    {
        self.root.path()
    }

    /// How the root's directory tree is searched.
    pub fn walk_options(&self) -> (res: crate::walk::WalkOptions)
        ensures
            res == (crate::walk::WalkOptions {
                visit_hidden_dirs: self@.visit_hidden_dirs,
                visit_repo_subdirs: self@.visit_repo_subdirs,
                include_bare_repo: self@.include_bare_repo,
            }),
    {
        crate::walk::WalkOptions {
            visit_hidden_dirs: self.visit_hidden_dirs,
            visit_repo_subdirs: self.visit_repo_subdirs,
            include_bare_repo: self.include_bare_repo,
        }
    }

    /// Whether hidden directories under the root are searched.
    pub fn visit_hidden_dirs(&self) -> (res: bool)
        ensures
            res == self@.visit_hidden_dirs,
    {
        self.visit_hidden_dirs
    }

    /// Whether bare repositories are listed.
    pub fn include_bare_repo(&self) -> (res: bool)
        ensures
            res == self@.include_bare_repo,
    {
        self.include_bare_repo
    }

    /// Whether the insides of repositories are searched for more repositories.
    pub fn visit_repo_subdirs(&self) -> (res: bool)
        ensures
            res == self@.visit_repo_subdirs,
    {
        self.visit_repo_subdirs
    }
}

/// A root as the application uses it: where it came from, and the root itself.
pub type RootParamView = (AppParamSourceView, RootContextView);

/// The views of a list of root entries.
pub open spec fn config_views(configs: Seq<RootConfig>) -> Seq<RootConfigView> {
    configs.map_values(|c: RootConfig| c@)
}

/// The roots that a list of configuration entries declares, by name; a later entry with a name
/// replaces an earlier one.
pub open spec fn configured_roots(
    configs: Seq<RootConfigView>,
    config_path: PrettyPathView,
    dirs: AppDirsView,
) -> Map<Seq<char>, RootParamView>
    decreases configs.len(),
{
    if configs.len() == 0 {
        Map::empty()
    } else {
        configured_roots(configs.drop_last(), config_path, dirs).insert(
            configs.last().name,
            (
                AppParamSourceView::ConfigurationFile { path: config_path },
                root_context_of(configs.last(), config_path, dirs),
            ),
        )
    }
}

/// All the roots: those the configuration entries declare, and the default root, which the
/// application adds where no entry declares it.
pub open spec fn all_roots_of(
    configs: Seq<RootConfigView>,
    config_path: PrettyPathView,
    dirs: AppDirsView,
) -> Map<Seq<char>, RootParamView> {
    let m = configured_roots(configs, config_path, dirs);
    if m.contains_key(default_root_name()) {
        m
    } else {
        m.insert(
            default_root_name(),
            (
                AppParamSourceView::ImplicitDefault,
                root_context_of(default_root_config(), config_path, dirs),
            ),
        )
    }
}

/// The view of a root parameter.
pub open spec fn root_param_view(p: AppParam<RootContext>) -> RootParamView {
    (p.spec_source()@, p.spec_value()@)
}

/// The roots of the application, by name.
#[derive(Debug)]
pub struct RootContextMap {
    map: NameMap<AppParam<RootContext>>,
}

impl View for RootContextMap {
    type V = Map<Seq<char>, RootParamView>;

    closed spec fn view(&self) -> Map<Seq<char>, RootParamView> {
        self.map.spec_map().map_values(|p: AppParam<RootContext>| root_param_view(p))
    }
}

/// Whether a root's directory may be missing: only the default root the application added
/// may be; a missing directory of a root the user declared is an error.
pub fn root_may_be_missing(root: &AppParam<RootContext>) -> (res: bool)
    ensures
        res == (root_param_view(*root).0 is ImplicitDefault),
{
    root.source().is_implicit_default()
}

/// A root that the configuration does not declare.
#[derive(Debug)]
pub struct RootNotFound {
    pub name: String,
}

/// The message for a root that is not declared.
pub open spec fn root_not_found_message(name: Seq<char>) -> Seq<char> {
    seq!['r', 'o', 'o', 't', ' ', '`'] + name + seq![
        '`',
        ' ',
        'n',
        'o',
        't',
        ' ',
        'f',
        'o',
        'u',
        'n',
        'd',
        ' ',
        'i',
        'n',
        ' ',
        'c',
        'o',
        'n',
        'f',
        'i',
        'g',
        ' ',
        'f',
        'i',
        'l',
        'e',
    ]
}

impl RootNotFound {
    /// The message shown to the user: ``root `NAME` not found in config file``.
    pub fn message(&self) -> (res: String)
        ensures
            res@ == root_not_found_message(self.name@),
    {
        proof {
            reveal_strlit("root `");
            reveal_strlit("` not found in config file");
        }
        let mut res = String::from_str("root `");
        res.append(self.name.as_str());
        res.append("` not found in config file");
        res
    }
}

impl RootContextMap {
    /// The default root is always present.
    #[verifier::type_invariant]
    spec fn inv(self) -> bool {
        self.map.spec_map().contains_key(default_root_name())
    }

    /// The names of the roots, in ascending order.
    pub closed spec fn spec_names(&self) -> Seq<Seq<char>> {
        self.map.spec_keys()
    }

    /// The roots that `configs`, read from the configuration file at `config_path`, declare,
    /// with the default root added where they do not declare it (see `all_roots_of`).
    pub fn new(config_path: &PrettyPath, configs: &Vec<RootConfig>, dirs: &AppDirs) -> (res: Self)
        requires
            roots_resolvable(config_views(configs@), config_path@, dirs@),
        ensures
            res@ == all_roots_of(config_views(configs@), config_path@, dirs@),
    {
        let mut map: NameMap<AppParam<RootContext>> = NameMap::new();
        let ghost cv = config_views(configs@);
        let mut i: usize = 0;
        while i < configs.len()
            invariant
                cv == config_views(configs@),
                roots_resolvable(cv, config_path@, dirs@),
                i <= configs.len(),
                map.spec_map().map_values(|p: AppParam<RootContext>| root_param_view(p))
                    == configured_roots(cv.take(i as int), config_path@, dirs@),
            decreases configs.len() - i,
        {
            let cfg = &configs[i];
            assert(cv[i as int] == cfg@);
            let source = AppParamSource::ConfigurationFile { path: config_path.clone() };
            let value = RootContext::from_config(cfg, config_path, dirs);
            let ghost before = map.spec_map();
            let param = AppParam::new(source, value);
            map.insert(cfg.name.clone(), param);
            proof {
                assert(cv.take(i + 1).drop_last() =~= cv.take(i as int));
                assert(map.spec_map().map_values(|p: AppParam<RootContext>| root_param_view(p))
                    =~= before.map_values(|p: AppParam<RootContext>| root_param_view(p)).insert(
                    cfg@.name,
                    root_param_view(param),
                ));
            }
            i = i + 1;
        }
        proof {
            assert(cv.take(configs.len() as int) =~= cv);
        }
        if !map.contains(default_root_name_str()) {
            let ghost before = map.spec_map();
            let value = RootContext::from_config(&RootConfig::default_root(), config_path, dirs);
            let param = AppParam::new(AppParamSource::ImplicitDefault, value);
            map.insert(default_root_name_str().to_owned(), param);
            proof {
                assert(map.spec_map().map_values(|p: AppParam<RootContext>| root_param_view(p))
                    =~= before.map_values(|p: AppParam<RootContext>| root_param_view(p)).insert(
                    default_root_name(),
                    root_param_view(param),
                ));
            }
        }
        RootContextMap { map }
    }

    /// The default root.
    pub fn default_root(&self) -> (res: &AppParam<RootContext>)
        ensures
            self@.contains_key(default_root_name()),
            root_param_view(*res) == self@[default_root_name()],
    {
        proof {
            use_type_invariant(self);
        }
        match self.map.get(default_root_name_str()) {
            Some(p) => p,
            None => vstd::pervasive::unreached(),
        }
    }

    /// The root named `name`, if there is one.
    pub fn root_by_name(&self, name: &str) -> (res: Option<&AppParam<RootContext>>)
        ensures
            match res {
                Some(p) => self@.contains_key(name@) && root_param_view(*p) == self@[name@],
                None => !self@.contains_key(name@),
            },
    {
        self.map.get(name)
    }

    /// The root named `name`, or an error naming it where there is none.
    pub fn root_by_name_or_err(&self, name: &str) -> (res: Result<&AppParam<RootContext>, RootNotFound>)
        ensures
            match res {
                Ok(p) => self@.contains_key(name@) && root_param_view(*p) == self@[name@],
                Err(e) => !self@.contains_key(name@) && e.name@ == name@,
            },
    {
        match self.root_by_name(name) {
            Some(p) => Ok(p),
            None => Err(RootNotFound { name: name.to_owned() }),
        }
    }

    /// All the roots, in ascending order of their names, each once.
    pub fn all_roots(&self) -> (res: Vec<&AppParam<RootContext>>)
        ensures
            res.len() == self.spec_names().len(),
            forall|i: int, j: int|
                0 <= i < j < self.spec_names().len() ==> text_lt(
                    self.spec_names()[i],
                    self.spec_names()[j],
                ),
            forall|k: Seq<char>| #[trigger] self@.contains_key(k) <==> self.spec_names().contains(k),
            forall|i: int|
                0 <= i < res.len() ==> root_param_view(*res[i]) == self@[#[trigger] self.spec_names()[i]],
            res.len() == self@.dom().len(),
            self@.contains_key(default_root_name()),
    {
        proof {
            use_type_invariant(self);
        }
        let res = self.map.values();
        proof {
            let names = self.spec_names();
            assert forall|i: int, j: int|
                0 <= i < names.len() && 0 <= j < names.len() && i != j implies names[i]
                != names[j] by {
                if i < j {
                    crate::name_map::lemma_text_lt_total(names[i], names[j]);
                } else {
                    crate::name_map::lemma_text_lt_total(names[j], names[i]);
                }
            }
            names.unique_seq_to_set();
            assert forall|k: Seq<char>| #[trigger] self@.contains_key(k) <==> self.spec_names().contains(k) by {
                assert(self.map.spec_map().contains_key(k) <==> self.map.spec_keys().contains(k));
            }
            assert forall|i: int| 0 <= i < res.len() implies root_param_view(*res[i]) == self@[#[trigger] self.spec_names()[i]] by {
                assert(self.map.spec_map().contains_key(self.map.spec_keys()[i]));
            }
            assert(names.to_set() =~= self@.dom());
        }
        res
    }
}

/// The default root is always among the roots.
pub proof fn lemma_default_root_present(
    configs: Seq<RootConfigView>,
    config_path: PrettyPathView,
    dirs: AppDirsView,
)
    ensures
        all_roots_of(configs, config_path, dirs).contains_key(default_root_name()),
{
}

/// Each declared root is present, from the configuration file, as the last entry with its name
/// declares it.
pub proof fn lemma_declared_root(
    configs: Seq<RootConfigView>,
    config_path: PrettyPathView,
    dirs: AppDirsView,
    i: int,
)
    requires
        0 <= i < configs.len(),
        forall|j: int| i < j < configs.len() ==> configs[j].name != configs[i].name,
    ensures
        all_roots_of(configs, config_path, dirs).contains_key(configs[i].name),
        all_roots_of(configs, config_path, dirs)[configs[i].name] == (
            AppParamSourceView::ConfigurationFile { path: config_path },
            root_context_of(configs[i], config_path, dirs),
        ),
    decreases configs.len(),
{
    if i < configs.len() - 1 {
        lemma_declared_root(configs.drop_last(), config_path, dirs, i);
        assert(configured_roots(configs.drop_last(), config_path, dirs).contains_key(
            configs[i].name,
        ));
    }
}

/// A root built from a configuration entry keeps the entry's name and each of its three
/// flags: hidden directories are searched, the insides of repositories are searched, and bare
/// repositories are listed exactly where the entry says so.
pub proof fn lemma_root_context_keeps_config(
    cfg: RootConfigView,
    config_path: PrettyPathView,
    dirs: AppDirsView,
)
    ensures
        root_context_of(cfg, config_path, dirs).root.name == cfg.name,
        root_context_of(cfg, config_path, dirs).visit_hidden_dirs == cfg.visit_hidden_dirs,
        root_context_of(cfg, config_path, dirs).visit_repo_subdirs == cfg.visit_repo_subdirs,
        root_context_of(cfg, config_path, dirs).include_bare_repo == cfg.include_bare_repo,
{
}

/// The root a name declares comes from the configuration file and keeps the flags of the
/// last entry with that name.
pub proof fn lemma_declared_root_flags(
    configs: Seq<RootConfigView>,
    config_path: PrettyPathView,
    dirs: AppDirsView,
    i: int,
)
    requires
        0 <= i < configs.len(),
        forall|j: int| i < j < configs.len() ==> configs[j].name != configs[i].name,
    ensures
        all_roots_of(configs, config_path, dirs).contains_key(configs[i].name),
        all_roots_of(configs, config_path, dirs)[configs[i].name].0
            == (AppParamSourceView::ConfigurationFile { path: config_path }),
        all_roots_of(configs, config_path, dirs)[configs[i].name].1.root.name == configs[i].name,
        all_roots_of(configs, config_path, dirs)[configs[i].name].1.visit_hidden_dirs
            == configs[i].visit_hidden_dirs,
        all_roots_of(configs, config_path, dirs)[configs[i].name].1.visit_repo_subdirs
            == configs[i].visit_repo_subdirs,
        all_roots_of(configs, config_path, dirs)[configs[i].name].1.include_bare_repo
            == configs[i].include_bare_repo,
{
    lemma_declared_root(configs, config_path, dirs, i);
    lemma_root_context_keeps_config(configs[i], config_path, dirs);
}

/// The roots are the declared ones and the default root; the default root is an implicit
/// default exactly when no entry declares it.
pub proof fn lemma_roots_domain(
    configs: Seq<RootConfigView>,
    config_path: PrettyPathView,
    dirs: AppDirsView,
    name: Seq<char>,
)
    ensures
        all_roots_of(configs, config_path, dirs).contains_key(name) <==> (name
            == default_root_name() || exists|i: int|
            0 <= i < configs.len() && configs[i].name == name),
        (all_roots_of(configs, config_path, dirs).contains_key(name) && all_roots_of(
            configs,
            config_path,
            dirs,
        )[name].0 is ImplicitDefault) <==> (name == default_root_name() && forall|i: int|
            0 <= i < configs.len() ==> configs[i].name != name),
    decreases configs.len(),
{
    lemma_configured_domain(configs, config_path, dirs, name);
}

/// The names of the declared roots are those of the entries, and all of them come from the
/// configuration file.
proof fn lemma_configured_domain(
    configs: Seq<RootConfigView>,
    config_path: PrettyPathView,
    dirs: AppDirsView,
    name: Seq<char>,
)
    ensures
        configured_roots(configs, config_path, dirs).contains_key(name) <==> exists|i: int|
            0 <= i < configs.len() && configs[i].name == name,
        configured_roots(configs, config_path, dirs).contains_key(name) ==> configured_roots(
            configs,
            config_path,
            dirs,
        )[name].0 is ConfigurationFile,
    decreases configs.len(),
{
    if configs.len() > 0 {
        lemma_configured_domain(configs.drop_last(), config_path, dirs, name);
        if configured_roots(configs, config_path, dirs).contains_key(name) {
            if configs.last().name == name {
                assert(configs[configs.len() - 1].name == name);
            } else {
                let i = choose|i: int|
                    0 <= i < configs.drop_last().len() && configs.drop_last()[i].name == name;
                assert(configs[i].name == name);
            }
        }
        if exists|i: int| 0 <= i < configs.len() && configs[i].name == name {
            let i = choose|i: int| 0 <= i < configs.len() && configs[i].name == name;
            if i < configs.len() - 1 {
                assert(configs.drop_last()[i].name == name);
            }
        }
    }
}

/// Every root's real path is absolute, where the application's directories are absolute and
/// the configuration file lies in an absolute directory.
pub proof fn lemma_root_paths_absolute(
    configs: Seq<RootConfigView>,
    config_path: PrettyPathView,
    dirs: AppDirsView,
    name: Seq<char>,
)
    requires
        app_dirs_wf(dirs),
        roots_resolvable(configs, config_path, dirs),
        all_roots_of(configs, config_path, dirs).contains_key(name),
    ensures
        is_abs(all_roots_of(configs, config_path, dirs)[name].1.root.path.real_path),
    decreases configs.len(),
{
    let m = configured_roots(configs, config_path, dirs);
    if m.contains_key(name) {
        lemma_configured_paths_absolute(configs, config_path, dirs, name);
    } else {
        lemma_default_root_path_absolute(dirs);
    }
}

/// The default root's real path is absolute, where the application's directories are.
proof fn lemma_default_root_path_absolute(dirs: AppDirsView)
    requires
        app_dirs_wf(dirs),
    ensures
        is_abs(default_root_path(dirs).real_path),
{
    let p = join_path(dirs.data_local_dir, default_root_dir_name());
    crate::path::lemma_join_abs(dirs.data_local_dir, default_root_dir_name());
    lemma_expand_tilde_abs(p, dirs.home_dir);
    crate::pretty_path::lemma_normalized_real_path_is_absolute(
        p,
        AppParamSourceView::ImplicitDefault,
        dirs,
    );
}

/// Every declared root's real path is absolute.
proof fn lemma_configured_paths_absolute(
    configs: Seq<RootConfigView>,
    config_path: PrettyPathView,
    dirs: AppDirsView,
    name: Seq<char>,
)
    requires
        app_dirs_wf(dirs),
        roots_resolvable(configs, config_path, dirs),
        configured_roots(configs, config_path, dirs).contains_key(name),
    ensures
        is_abs(configured_roots(configs, config_path, dirs)[name].1.root.path.real_path),
    decreases configs.len(),
{
    if configs.last().name == name {
        assert(root_resolvable(configs[configs.len() - 1], config_path, dirs));
        match configs.last().path {
            Some(p) => {
                crate::pretty_path::lemma_normalized_real_path_is_absolute(
                    p,
                    AppParamSourceView::ConfigurationFile { path: config_path },
                    dirs,
                );
            },
            None => {
                lemma_default_root_path_absolute(dirs);
            },
        }
    } else {
        assert forall|i: int| 0 <= i < configs.drop_last().len() implies root_resolvable(
            #[trigger] configs.drop_last()[i],
            config_path,
            dirs,
        ) by {
            assert(configs.drop_last()[i] == configs[i]);
        }
        lemma_configured_paths_absolute(configs.drop_last(), config_path, dirs, name);
    }
}

/// Where the configuration file lies in an absolute directory, every entry's path can be
/// resolved.
pub proof fn lemma_config_dir_known_resolvable(
    configs: Seq<RootConfigView>,
    config_path: PrettyPathView,
    dirs: AppDirsView,
)
    requires
        config_dir_known(config_path),
    ensures
        roots_resolvable(configs, config_path, dirs),
{
}

/// Where no entry declares the default root, it is an implicit default named `default` at
/// the default root path, visiting neither hidden directories nor the insides of
/// repositories and leaving bare repositories out.
pub proof fn lemma_default_root_when_undeclared(
    configs: Seq<RootConfigView>,
    config_path: PrettyPathView,
    dirs: AppDirsView,
)
    requires
        forall|i: int| 0 <= i < configs.len() ==> (#[trigger] configs[i]).name != default_root_name(),
    ensures
        all_roots_of(configs, config_path, dirs)[default_root_name()] == (
            AppParamSourceView::ImplicitDefault,
            root_context_of(default_root_config(), config_path, dirs),
        ),
        all_roots_of(configs, config_path, dirs)[default_root_name()].1 == (RootContextView {
            root: RootView { name: default_root_name(), path: default_root_path(dirs) },
            visit_hidden_dirs: false,
            visit_repo_subdirs: false,
            include_bare_repo: false,
        }),
{
    lemma_configured_domain(configs, config_path, dirs, default_root_name());
}

} // verus!
