//! Paths kept in two forms: the real path used to reach the file system, and the path shown
//! to the user (which may start with `~`).

use vstd::prelude::*;

use crate::param::{AppParamSource, AppParamSourceView};
use crate::path::{
    components, is_abs, join_path, keeps, lemma_abs_first_seg, lemma_comps_prefix,
    normalize_trailing_separator, parent, path_is_relative, path_join, path_parent,
    path_strip_prefix, path_trim_trailing_separator, split_segs, strip_prefix, comps_upto,
};

verus! {

/// A path as the file system reads it and as the user is shown it.
#[derive(Debug)]
pub struct PrettyPath {
    real_path: String,
    display_path: String,
}

/// A pair of paths, as a mathematical value.
pub struct PrettyPathView {
    pub real_path: Seq<char>,
    pub display_path: Seq<char>,
}

impl View for PrettyPath {
    type V = PrettyPathView;

    closed spec fn view(&self) -> PrettyPathView {
        PrettyPathView { real_path: self.real_path@, display_path: self.display_path@ }
    }
}

impl Clone for PrettyPath {
    fn clone(&self) -> (res: Self)
        ensures
            res@ == self@,
    {
        PrettyPath { real_path: self.real_path.clone(), display_path: self.display_path.clone() }
    }
}

impl PrettyPath {
    /// Pairs a real path with the path shown for it.
    pub fn from_pair(real_path: String, display_path: String) -> (res: Self)
        ensures
            res@ == (PrettyPathView { real_path: real_path@, display_path: display_path@ }),
    {
        PrettyPath { real_path, display_path }
    }

    /// A path shown to the user as it is.
    pub fn from_real_path(path: String) -> (res: Self)
        ensures
            res@ == (PrettyPathView { real_path: path@, display_path: path@ }),
    {
        let display_path = path.clone();
        PrettyPath { real_path: path, display_path }
    }

    /// `other` joined to this path, in both forms.
    pub fn join(&self, other: &PrettyPath) -> (res: PrettyPath)
        ensures
            res@ == (PrettyPathView {
                real_path: join_path(self@.real_path, other@.real_path),
                display_path: join_path(self@.display_path, other@.display_path),
            }),
    {
        PrettyPath {
            real_path: path_join(self.real_path.as_str(), other.real_path.as_str()),
            display_path: path_join(self.display_path.as_str(), other.display_path.as_str()),
        }
    }

    /// The path as the file system reads it.
    pub fn as_real_path(&self) -> (res: &str)
        ensures
            res@ == self@.real_path,
    {
        self.real_path.as_str()
    }

    /// The path as the user is shown it.
    pub fn as_display_path(&self) -> (res: &str)
        ensures
            res@ == self@.display_path,
    {
        self.display_path.as_str()
    }
}

/// The directories the application works with, as a mathematical value.
pub struct AppDirsView {
    pub home_dir: Seq<char>,
    pub working_dir: Seq<char>,
    pub config_dir: Seq<char>,
    pub data_local_dir: Seq<char>,
    pub cache_dir: Seq<char>,
}

/// The directories the application works with: the user's home, the working directory, and
/// where configuration, data and caches are kept.
#[derive(Debug)]
pub struct AppDirs {
    home_dir: String,
    working_dir: String,
    config_dir: String,
    data_local_dir: String,
    cache_dir: String,
}

impl View for AppDirs {
    type V = AppDirsView;

    closed spec fn view(&self) -> AppDirsView {
        AppDirsView {
            home_dir: self.home_dir@,
            working_dir: self.working_dir@,
            config_dir: self.config_dir@,
            data_local_dir: self.data_local_dir@,
            cache_dir: self.cache_dir@,
        }
    }
}

/// Whether all the directories are absolute paths.
pub open spec fn app_dirs_wf(d: AppDirsView) -> bool {
    &&& is_abs(d.home_dir)
    &&& is_abs(d.working_dir)
    &&& is_abs(d.config_dir)
    &&& is_abs(d.data_local_dir)
    &&& is_abs(d.cache_dir)
}

impl AppDirs {
    /// The directories are absolute paths.
    #[verifier::type_invariant]
    spec fn inv(self) -> bool {
        app_dirs_wf(self@)
    }

    /// The directories are absolute paths.
    pub fn lemma_wf(&self)
        ensures
            app_dirs_wf(self@),
    {
        proof {
            use_type_invariant(self);
        }
    }

    /// Gathers the directories, which must be absolute paths.
    pub fn new(
        home_dir: String,
        working_dir: String,
        config_dir: String,
        data_local_dir: String,
        cache_dir: String,
    ) -> (res: Self)
        requires
            app_dirs_wf(AppDirsView {
                home_dir: home_dir@,
                working_dir: working_dir@,
                config_dir: config_dir@,
                data_local_dir: data_local_dir@,
                cache_dir: cache_dir@,
            }),
        ensures
            res@ == (AppDirsView {
                home_dir: home_dir@,
                working_dir: working_dir@,
                config_dir: config_dir@,
                data_local_dir: data_local_dir@,
                cache_dir: cache_dir@,
            }),
    {
        AppDirs { home_dir, working_dir, config_dir, data_local_dir, cache_dir }
    }

    /// The user's home directory.
    pub fn home_dir(&self) -> (res: &str)
        ensures
            res@ == self@.home_dir,
    {
        self.home_dir.as_str()
    }

    /// The working directory.
    pub fn working_dir(&self) -> (res: &str)
        ensures
            res@ == self@.working_dir,
    {
        self.working_dir.as_str()
    }

    /// Where the configuration file is kept.
    pub fn config_dir(&self) -> (res: &str)
        ensures
            res@ == self@.config_dir,
    {
        self.config_dir.as_str()
    }

    /// Where local data (the default root) is kept.
    pub fn data_local_dir(&self) -> (res: &str)
        ensures
            res@ == self@.data_local_dir,
    {
        self.data_local_dir.as_str()
    }

    /// Where caches are kept.
    pub fn cache_dir(&self) -> (res: &str)
        ensures
            res@ == self@.cache_dir,
    {
        self.cache_dir.as_str()
    }
}

/// The path `~`.
pub open spec fn tilde() -> Seq<char> {
    seq!['~']
}

/// A path with its leading `~` component replaced by the home directory.
pub open spec fn expand_tilde(p: Seq<char>, home: Seq<char>) -> Seq<char> {
    match strip_prefix(p, tilde()) {
        Some(rest) => join_path(home, rest),
        None => p,
    }
}

/// A path as the user is shown it: with the home directory written `~`.
pub open spec fn contract_home(p: Seq<char>, home: Seq<char>) -> Seq<char> {
    match strip_prefix(p, home) {
        Some(rest) => join_path(tilde(), rest),
        None => p,
    }
}

/// The path a relative path is resolved against, for each source.
pub open spec fn base_dir(source: AppParamSourceView, dirs: AppDirsView) -> Seq<char> {
    match source {
        AppParamSourceView::CommandLineArgument => dirs.working_dir,
        AppParamSourceView::ConfigurationFile { path } => parent(path.real_path)->0,
        AppParamSourceView::ImplicitDefault => dirs.working_dir,
    }
}

/// A path with `~` expanded and, where it is still relative, resolved against the directory
/// its source gives.
pub open spec fn resolve_path(p: Seq<char>, source: AppParamSourceView, dirs: AppDirsView) -> Seq<char> {
    let expanded = expand_tilde(p, dirs.home_dir);
    if is_abs(expanded) {
        expanded
    } else {
        join_path(base_dir(source, dirs), expanded)
    }
}

/// What `UnresolvedPath::normalize` needs: a relative path from the configuration file needs the
/// file to lie in an absolute directory; a default value is never relative.
pub open spec fn normalize_requires(p: Seq<char>, source: AppParamSourceView, dirs: AppDirsView) -> bool {
    !is_abs(expand_tilde(p, dirs.home_dir)) ==> match source {
        AppParamSourceView::CommandLineArgument => true,
        AppParamSourceView::ConfigurationFile { path } => parent(path.real_path) is Some
            && is_abs(parent(path.real_path)->0),
        AppParamSourceView::ImplicitDefault => false,
    }
}

/// The real and display paths that a user-given path normalizes to.
pub open spec fn normalized(p: Seq<char>, source: AppParamSourceView, dirs: AppDirsView) -> PrettyPathView {
    let resolved = resolve_path(p, source, dirs);
    PrettyPathView {
        real_path: normalize_trailing_separator(resolved),
        display_path: normalize_trailing_separator(contract_home(resolved, dirs.home_dir)),
    }
}

/// `~` has one component.
proof fn lemma_tilde_components()
    ensures
        components(tilde()).len() == 1,
{
    let t = tilde();
    assert(t.drop_last() =~= seq![]);
    assert(split_segs(t.drop_last()) =~= seq![seq![]]);
    assert(split_segs(t) =~= seq![seq!['~']]);
    assert(comps_upto(split_segs(t), false, 0) =~= seq![]);
}

/// An absolute path has at least one component, its root.
proof fn lemma_abs_components(p: Seq<char>)
    requires
        is_abs(p),
    ensures
        components(p).len() >= 1,
{
    lemma_abs_first_seg(p);
    let segs = split_segs(p);
    assert(keeps(segs, true, 0));
    assert(comps_upto(segs, true, 0).len() == 0);
    assert(comps_upto(segs, true, 1).len() == 1);
    lemma_comps_prefix(segs, true, 1, segs.len() as int);
}

/// A path as the user wrote it, not yet resolved.
#[derive(Debug)]
pub struct UnresolvedPath(String);

impl View for UnresolvedPath {
    type V = Seq<char>;

    closed spec fn view(&self) -> Seq<char> {
        self.0@
    }
}

impl Clone for UnresolvedPath {
    fn clone(&self) -> (res: Self)
        ensures
            res@ == self@,
    {
        UnresolvedPath(self.0.clone())
    }
}

/// `~` as a string.
fn tilde_str() -> (res: &'static str)
    ensures
        res@ == tilde(),
{
    proof {
        reveal_strlit("~");
    }
    "~"
}

impl UnresolvedPath {
    /// A path as the user wrote it.
    pub fn new(path: String) -> (res: Self)
        ensures
            res@ == path@,
    {
        UnresolvedPath(path)
    }

    /// Expands a leading `~` to the home directory, resolves a relative path against the
    /// working directory (command line) or the configuration file's directory (configuration
    /// file), and gives the result with the path shown to the user, in which the home directory
    /// is written `~`. Both drop trailing separators.
    pub fn normalize(&self, source: &AppParamSource, dirs: &AppDirs) -> (res: PrettyPath)
        requires
            normalize_requires(self@, source@, dirs@),
        ensures
            res@ == normalized(self@, source@, dirs@),
    {
        dirs.lemma_wf();
        proof {
            lemma_tilde_components();
            lemma_abs_components(dirs@.home_dir);
        }
        let home = dirs.home_dir();
        let mut resolved = match path_strip_prefix(self.0.as_str(), tilde_str()) {
            Some(rest) => path_join(home, rest.as_str()),
            None => self.0.clone(),
        };
        if path_is_relative(resolved.as_str()) {
            match source {
                AppParamSource::CommandLineArgument => {
                    resolved = path_join(dirs.working_dir(), resolved.as_str());
                },
                AppParamSource::ConfigurationFile { path } => {
                    match path_parent(path.as_real_path()) {
                        Some(config_dir) => {
                            resolved = path_join(config_dir.as_str(), resolved.as_str());
                        },
                        None => {},
                    }
                },
                AppParamSource::ImplicitDefault => {},
            }
        }
        let display = match path_strip_prefix(resolved.as_str(), home) {
            Some(rest) => path_join(tilde_str(), rest.as_str()),
            None => resolved.clone(),
        };
        PrettyPath::from_pair(
            path_trim_trailing_separator(resolved.as_str()),
            path_trim_trailing_separator(display.as_str()),
        )
    }
}

/// A normalized path is absolute: its real path starts with `/`.
pub proof fn lemma_normalized_real_path_is_absolute(
    p: Seq<char>,
    source: AppParamSourceView,
    dirs: AppDirsView,
)
    requires
        app_dirs_wf(dirs),
        normalize_requires(p, source, dirs),
    ensures
        is_abs(normalized(p, source, dirs).real_path),
{
    let expanded = expand_tilde(p, dirs.home_dir);
    if !is_abs(expanded) {
        crate::path::lemma_join_abs(base_dir(source, dirs), expanded);
    }
    crate::path::lemma_normalize_trailing_abs(resolve_path(p, source, dirs));
}

/// A path read from the user that may start with `~`, kept with its expansion.
#[derive(Debug)]
pub struct TildePath(PrettyPath);

impl View for TildePath {
    type V = PrettyPathView;

    closed spec fn view(&self) -> PrettyPathView {
        self.0@
    }
}

impl Clone for TildePath {
    fn clone(&self) -> (res: Self)
        ensures
            res@ == self@,
    {
        TildePath(self.0.clone())
    }
}

/// The real path for a path shown to the user: its leading `~` expanded where the home
/// directory is known.
pub open spec fn real_of_display(display: Seq<char>, home: Option<Seq<char>>) -> Seq<char> {
    match home {
        Some(h) => expand_tilde(display, h),
        None => display,
    }
}

/// The path shown to the user for a real path: the home directory written `~` where it is
/// known.
pub open spec fn display_of_real(real_path: Seq<char>, home: Option<Seq<char>>) -> Seq<char> {
    match home {
        Some(h) => contract_home(real_path, h),
        None => real_path,
    }
}

/// The view of an optional home directory.
pub open spec fn opt_str_view(home: Option<&str>) -> Option<Seq<char>> {
    match home {
        Some(h) => Some(h@),
        None => None,
    }
}

impl TildePath {
    /// A path as the user is shown it; its leading `~` is expanded to `home` where that is
    /// known. Only a leading component `~` is expanded, not `~user` nor a later `~`.
    pub fn from_display_path(display_path: String, home: Option<&str>) -> (res: Self)
        ensures
            res@ == (PrettyPathView {
                real_path: real_of_display(display_path@, opt_str_view(home)),
                display_path: display_path@,
            }),
    {
        proof {
            lemma_tilde_components();
        }
        let real_path = match home {
            Some(h) => match path_strip_prefix(display_path.as_str(), tilde_str()) {
                Some(rest) => path_join(h, rest.as_str()),
                None => display_path.clone(),
            },
            None => display_path.clone(),
        };
        TildePath(PrettyPath::from_pair(real_path, display_path))
    }

    /// A real path; it is shown with the home directory written `~` where that is known.
    pub fn from_real_path(real_path: String, home: Option<&str>) -> (res: Self)
        requires
            home matches Some(h) ==> h@.len() > 0,
        ensures
            res@ == (PrettyPathView {
                real_path: real_path@,
                display_path: display_of_real(real_path@, opt_str_view(home)),
            }),
    {
        let display_path = match home {
            Some(h) => {
                proof {
                    crate::path::lemma_nonempty_components(h@);
                }
                match path_strip_prefix(real_path.as_str(), h) {
                    Some(rest) => path_join(tilde_str(), rest.as_str()),
                    None => real_path.clone(),
                }
            },
            None => real_path.clone(),
        };
        TildePath(PrettyPath::from_pair(real_path, display_path))
    }

    /// Reads a real path given on the command line (see `from_real_path`).
    pub fn parse_real_path(real_path: &str, home: Option<&str>) -> (res: Self)
        requires
            home matches Some(h) ==> h@.len() > 0,
        ensures
            res@ == (PrettyPathView {
                real_path: real_path@,
                display_path: display_of_real(real_path@, opt_str_view(home)),
            }),
    {
        Self::from_real_path(real_path.to_owned(), home)
    }

    /// A path used as it is, shown as it is.
    pub fn new_verbatim(path: String) -> (res: Self)
        ensures
            res@ == (PrettyPathView { real_path: path@, display_path: path@ }),
    {
        let display = path.clone();
        TildePath(PrettyPath::from_pair(path, display))
    }

    /// The path as the file system reads it.
    pub fn as_real_path(&self) -> (res: &str)
        ensures
            res@ == self@.real_path,
    {
        self.0.as_real_path()
    }

    /// The path as the user is shown it.
    pub fn as_display_path(&self) -> (res: &str)
        ensures
            res@ == self@.display_path,
    {
        self.0.as_display_path()
    }

    /// The path to reach the file system with: the real path.
    pub fn as_path(&self) -> (res: &str)
        ensures
            res@ == self@.real_path,
    {
        self.0.as_real_path()
    }

    /// The pair of paths.
    pub fn into_pretty_path(self) -> (res: PrettyPath)
        ensures
            res@ == self@,
    {
        self.0
    }
}

} // verus!
