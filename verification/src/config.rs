//! The configuration file's contents, and what stands in for a missing file.

use vstd::prelude::*;

use crate::param::{AppParam, AppParamSource, AppParamSourceView};
use crate::path::{is_abs, join_path, path_join};
use crate::pretty_path::{normalized, AppDirs, AppDirsView, PrettyPath, PrettyPathView, UnresolvedPath};
use crate::query::{default_query_config, QueryConfig, QueryConfigView};
use crate::roots::{
    all_roots_of, config_views, roots_resolvable, RootConfig, RootConfigView, RootContextMap,
    RootParamView,
};

verus! {

/// The configuration: the roots, and the settings for reading queries.
#[derive(Debug)]
pub struct Config {
    pub roots: Vec<RootConfig>,
    pub query: QueryConfig,
}

/// The configuration, as a mathematical value.
pub struct ConfigView {
    pub roots: Seq<RootConfigView>,
    pub query: QueryConfigView,
}

impl View for Config {
    type V = ConfigView;

    open spec fn view(&self) -> ConfigView {
        ConfigView { roots: config_views(self.roots@), query: self.query@ }
    }
}

/// The configuration used where there is no file: no roots, and the predefined query settings.
pub open spec fn default_config() -> ConfigView {
    ConfigView { roots: Seq::empty(), query: default_query_config() }
}

impl Config {
    /// The settings for reading queries.
    pub fn query_parse_option(&self) -> (res: &QueryConfig)
        ensures
            res@ == self@.query,
    {
        &self.query
    }

    /// The configuration used where there is no file (see `default_config`).
    pub fn default() -> (res: Self)
        ensures
            res@ == default_config(),
    {
        let res = Config { roots: Vec::new(), query: QueryConfig::default() };
        assert(res@.roots =~= Seq::<RootConfigView>::empty());
        res
    }
}

/// A configuration file that was named but is not there.
#[derive(Debug)]
pub struct ConfigNotFound {
    pub path: String,
}

impl ConfigNotFound {
    /// The message shown to the user: `config file not found: PATH`.
    pub fn message(&self) -> (res: String)
        ensures
            res@ == "config file not found: "@ + self.path@,
    {
        let mut res = String::from_str("config file not found: ");
        res.append(self.path.as_str());
        res
    }
}

/// The configuration to use, given what was read from the file at `path` (`None` where there
/// was no file): what was read; else, where the path is the default one, the default
/// configuration; else an error naming the path as shown.
pub fn choose_config(loaded: Option<Config>, source: &AppParamSource, path: &PrettyPath) -> (res: Result<Config, ConfigNotFound>)
    ensures
        match loaded {
            Some(c) => res matches Ok(r) && r@ == c@,
            None => match res {
                Ok(r) => source@ is ImplicitDefault && r@ == default_config(),
                Err(e) => !(source@ is ImplicitDefault) && e.path@ == path@.display_path,
            },
        },
{
    match loaded {
        Some(config) => Ok(config),
        None => if source.is_implicit_default() {
            Ok(Config::default())
        } else {
            Err(ConfigNotFound { path: path.as_display_path().to_owned() })
        },
    }
}

/// The path parameter a command-line option gives: the path given, resolved against the
/// working directory; or else the file `file_name` in `dir`, as an implicit default.
pub open spec fn path_param_of(
    given: Option<Seq<char>>,
    dir: Seq<char>,
    file_name: Seq<char>,
    dirs: AppDirsView,
) -> (AppParamSourceView, PrettyPathView) {
    match given {
        Some(p) => (
            AppParamSourceView::CommandLineArgument,
            normalized(p, AppParamSourceView::CommandLineArgument, dirs),
        ),
        None => (
            AppParamSourceView::ImplicitDefault,
            normalized(join_path(dir, file_name), AppParamSourceView::ImplicitDefault, dirs),
        ),
    }
}

/// The path of a file named on the command line, or else of the file `file_name` in `dir`
/// (see `path_param_of`); the default must be an absolute path.
pub fn path_param(given: Option<String>, dir: &str, file_name: &str, dirs: &AppDirs) -> (res: AppParam<PrettyPath>)
    requires
        given is None ==> is_abs(join_path(dir@, file_name@)),
    ensures
        (res.spec_source()@, res.spec_value()@) == path_param_of(
            match given {
                Some(p) => Some(p@),
                None => None,
            },
            dir@,
            file_name@,
            dirs@,
        ),
{
    dirs.lemma_wf();
    match given {
        Some(p) => {
            let source = AppParamSource::CommandLineArgument;
            let path = UnresolvedPath::new(p).normalize(&source, dirs);
            AppParam::new(source, path)
        },
        None => {
            let p = path_join(dir, file_name);
            proof {
                crate::roots::lemma_expand_tilde_abs(p@, dirs@.home_dir);
            }
            let source = AppParamSource::ImplicitDefault;
            let path = UnresolvedPath::new(p).normalize(&source, dirs);
            AppParam::new(source, path)
        },
    }
}

/// What every command works with: the roots, the settings for reading queries, and where the
/// repository cache is kept.
#[derive(Debug)]
pub struct GlobalContext {
    root_map: RootContextMap,
    query: QueryConfig,
    repo_cache_path: PrettyPath,
}

impl GlobalContext {
    /// The roots and query settings of the configuration read from `config_path` (see
    /// `choose_config`; an error where a named file is missing), and the repository cache at
    /// `repo_cache_path`.
    pub fn new(
        config_path: &AppParam<PrettyPath>,
        loaded: Option<Config>,
        repo_cache_path: PrettyPath,
        dirs: &AppDirs,
    ) -> (res: Result<GlobalContext, ConfigNotFound>)
        requires
            loaded matches Some(c) ==> roots_resolvable(c@.roots, config_path.spec_value()@, dirs@),
        ensures
            match loaded {
                Some(c) => res matches Ok(g) && g.spec_roots() == all_roots_of(
                    c@.roots,
                    config_path.spec_value()@,
                    dirs@,
                ) && g.spec_query() == c@.query,
                None => match res {
                    Ok(g) => config_path.spec_source()@ is ImplicitDefault && g.spec_roots()
                        == all_roots_of(Seq::empty(), config_path.spec_value()@, dirs@)
                        && g.spec_query() == default_query_config(),
                    Err(e) => !(config_path.spec_source()@ is ImplicitDefault) && e.path@
                        == config_path.spec_value()@.display_path,
                },
            },
            res matches Ok(g) ==> g.spec_repo_cache_path() == repo_cache_path@,
    {
        let config = match choose_config(loaded, config_path.source(), config_path.value()) {
            Ok(c) => c,
            Err(e) => return Err(e),
        };
        let root_map = RootContextMap::new(config_path.value(), &config.roots, dirs);
        Ok(GlobalContext { root_map, query: config.query, repo_cache_path })
    }

    /// The roots, by name.
    pub closed spec fn spec_roots(&self) -> Map<Seq<char>, RootParamView> {
        self.root_map@
    }

    /// The settings for reading queries.
    pub closed spec fn spec_query(&self) -> QueryConfigView {
        self.query@
    }

    /// Where the repository cache is kept.
    pub closed spec fn spec_repo_cache_path(&self) -> PrettyPathView {
        self.repo_cache_path@
    }

    /// The names of the roots, in ascending order.
    pub closed spec fn spec_root_names(&self) -> Seq<Seq<char>> {
        self.root_map.spec_names()
    }

    /// The roots.
    pub fn root_map(&self) -> (res: &RootContextMap)
        ensures
            res@ == self.spec_roots(),
            res.spec_names() == self.spec_root_names(),
    {
        &self.root_map
    }

    /// The settings for reading queries.
    pub fn query(&self) -> (res: &QueryConfig)
        ensures
            res@ == self.spec_query(),
    {
        &self.query
    }

    /// Where the repository cache is kept.
    pub fn repo_cache_path(&self) -> (res: &PrettyPath)
        ensures
            res@ == self.spec_repo_cache_path(),
    {
        &self.repo_cache_path
    }
}

} // verus!
