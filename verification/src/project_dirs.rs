//! Where the application keeps its configuration, data and caches.

use vstd::prelude::*;

use crate::path::{is_abs, join_path, lemma_join_abs, path_join};
use crate::pretty_path::opt_str_view;

verus! {

/// The operating system the application runs on.
#[derive(Debug, Clone, Copy, PartialEq, Eq, Structural)]
pub enum TargetOs {
    Windows,
    Linux,
    MacOs,
    Other,
}

/// The directories, relative to a home directory, in which an application keeps its
/// configuration, data and caches on `os`: for Windows `AppData\Roaming\APP\config`,
/// `AppData\Local\APP\data` and `AppData\Local\APP\cache`; for Linux `.config/APP`,
/// `.local/share/APP` and `.cache/APP`; for macOS `Library/Application Support/APP` (twice) and
/// `Library/Caches/APP`; none elsewhere.
pub open spec fn home_relative_dirs(app_name: Seq<char>, os: TargetOs) -> Option<
    (Seq<char>, Seq<char>, Seq<char>),
> {
    match os {
        TargetOs::Windows => Some(
            (
                "AppData\\Roaming\\"@ + app_name + "\\config"@,
                "AppData\\Local\\"@ + app_name + "\\data"@,
                "AppData\\Local\\"@ + app_name + "\\cache"@,
            ),
        ),
        TargetOs::Linux => Some(
            (".config/"@ + app_name, ".local/share/"@ + app_name, ".cache/"@ + app_name),
        ),
        TargetOs::MacOs => Some(
            (
                "Library/Application Support/"@ + app_name,
                "Library/Application Support/"@ + app_name,
                "Library/Caches/"@ + app_name,
            ),
        ),
        TargetOs::Other => None,
    }
}

/// `prefix` followed by `name`.
fn concat2(prefix: &str, name: &str) -> (res: String)
    ensures
        res@ == prefix@ + name@,
{
    let mut res = prefix.to_owned();
    res.append(name);
    res
}

/// `prefix` followed by `name` and `suffix`.
fn concat3(prefix: &str, name: &str, suffix: &str) -> (res: String)
    ensures
        res@ == prefix@ + name@ + suffix@,
{
    let mut res = prefix.to_owned();
    res.append(name);
    res.append(suffix);
    res
}

/// The directories, relative to a home directory, in which an application keeps its
/// configuration, data and caches on `os` (see `home_relative_dirs`).
pub fn home_relative_dirs_for(app_name: &str, os: TargetOs) -> (res: Option<
    (String, String, String),
>)
    ensures
        match res {
            Some((c, d, k)) => home_relative_dirs(app_name@, os) == Some((c@, d@, k@)),
            None => home_relative_dirs(app_name@, os) is None,
        },
{
    match os {
        TargetOs::Windows => Some(
            (
                concat3("AppData\\Roaming\\", app_name, "\\config"),
                concat3("AppData\\Local\\", app_name, "\\data"),
                concat3("AppData\\Local\\", app_name, "\\cache"),
            ),
        ),
        TargetOs::Linux => Some(
            (
                concat2(".config/", app_name),
                concat2(".local/share/", app_name),
                concat2(".cache/", app_name),
            ),
        ),
        TargetOs::MacOs => Some(
            (
                concat2("Library/Application Support/", app_name),
                concat2("Library/Application Support/", app_name),
                concat2("Library/Caches/", app_name),
            ),
        ),
        TargetOs::Other => None,
    }
}

/// The application's directories, as a mathematical value.
pub struct ProjectDirsView {
    pub config_dir: Seq<char>,
    pub data_local_dir: Seq<char>,
    pub cache_dir: Seq<char>,
}

/// The application's directories: those the platform gives, each unless overridden.
#[derive(Debug)]
pub struct ProjectDirs {
    config_dir: Option<String>,
    data_local_dir: Option<String>,
    cache_dir: Option<String>,
    platform_config_dir: String,
    platform_data_local_dir: String,
    platform_cache_dir: String,
}

/// An override, or the platform's directory where there is none.
pub open spec fn or_platform(overridden: Option<Seq<char>>, platform: Seq<char>) -> Seq<char> {
    match overridden {
        Some(d) => d,
        None => platform,
    }
}

/// The view of an optional string.
pub open spec fn opt_view(s: Option<String>) -> Option<Seq<char>> {
    match s {
        Some(d) => Some(d@),
        None => None,
    }
}

impl View for ProjectDirs {
    type V = ProjectDirsView;

    closed spec fn view(&self) -> ProjectDirsView {
        ProjectDirsView {
            config_dir: or_platform(opt_view(self.config_dir), self.platform_config_dir@),
            data_local_dir: or_platform(opt_view(self.data_local_dir), self.platform_data_local_dir@),
            cache_dir: or_platform(opt_view(self.cache_dir), self.platform_cache_dir@),
        }
    }
}

/// The directories in effect: under `test_home` where one is given (for integration tests) and
/// the platform has a layout for it, else the platform's directories.
pub open spec fn effective_dirs(
    test_home: Option<Seq<char>>,
    app_name: Seq<char>,
    os: TargetOs,
    platform: ProjectDirsView,
) -> ProjectDirsView {
    match test_home {
        Some(home) => match home_relative_dirs(app_name, os) {
            Some((c, d, k)) => ProjectDirsView {
                config_dir: join_path(home, c),
                data_local_dir: join_path(home, d),
                cache_dir: join_path(home, k),
            },
            None => platform,
        },
        None => platform,
    }
}

/// A test home resolved against the working directory: kept where it is absolute, else joined
/// to the working directory (as `Path::join` does on Unix).
pub open spec fn absolute_test_home(test_home: Option<Seq<char>>, working_dir: Seq<char>) -> Option<Seq<char>> {
    match test_home {
        Some(h) => Some(join_path(working_dir, h)),
        None => None,
    }
}

/// A test home resolved against the working directory (see `absolute_test_home`); absolute
/// where the working directory is.
pub fn resolve_test_home(test_home: Option<&str>, working_dir: &str) -> (res: Option<String>)
    requires
        is_abs(working_dir@),
    ensures
        opt_view(res) == absolute_test_home(opt_str_view(test_home), working_dir@),
        res matches Some(h) ==> is_abs(h@),
{
    match test_home {
        Some(h) => {
            proof {
                lemma_join_abs(working_dir@, h@);
            }
            Some(path_join(working_dir, h))
        },
        None => None,
    }
}

impl ProjectDirs {
    /// The directories of `app_name` on `os`, given the platform's directories. Where
    /// `test_home` is given (integration tests set it) and the platform has a layout for it,
    /// the directories lie under `test_home`, resolved against the working directory, instead
    /// (see `effective_dirs`, `absolute_test_home`); they are then absolute. Paths are joined
    /// as `Path::join` does on Unix.
    pub fn new(
        test_home: Option<&str>,
        working_dir: &str,
        app_name: &str,
        os: TargetOs,
        platform_config_dir: String,
        platform_data_local_dir: String,
        platform_cache_dir: String,
    ) -> (res: Self)
        requires
            is_abs(working_dir@),
        ensures
            res@ == effective_dirs(
                absolute_test_home(opt_str_view(test_home), working_dir@),
                app_name@,
                os,
                ProjectDirsView {
                    config_dir: platform_config_dir@,
                    data_local_dir: platform_data_local_dir@,
                    cache_dir: platform_cache_dir@,
                },
            ),
            test_home is Some && home_relative_dirs(app_name@, os) is Some ==> {
                &&& is_abs(res@.config_dir)
                &&& is_abs(res@.data_local_dir)
                &&& is_abs(res@.cache_dir)
            },
    {
        let home = resolve_test_home(test_home, working_dir);
        let overridden = match &home {
            Some(home) => match home_relative_dirs_for(app_name, os) {
                Some((c, d, k)) => {
                    proof {
                        lemma_join_abs(home@, c@);
                        lemma_join_abs(home@, d@);
                        lemma_join_abs(home@, k@);
                    }
                    Some(
                        (
                            path_join(home.as_str(), c.as_str()),
                            path_join(home.as_str(), d.as_str()),
                            path_join(home.as_str(), k.as_str()),
                        ),
                    )
                },
                None => None,
            },
            None => None,
        };
        match overridden {
            Some((c, d, k)) => ProjectDirs {
                config_dir: Some(c),
                data_local_dir: Some(d),
                cache_dir: Some(k),
                platform_config_dir,
                platform_data_local_dir,
                platform_cache_dir,
            },
            None => ProjectDirs {
                config_dir: None,
                data_local_dir: None,
                cache_dir: None,
                platform_config_dir,
                platform_data_local_dir,
                platform_cache_dir,
            },
        }
    }

    /// Directories set explicitly, in place of the platform's.
    pub fn new_for_test(
        config_dir: String,
        data_local_dir: String,
        cache_dir: String,
        platform_config_dir: String,
        platform_data_local_dir: String,
        platform_cache_dir: String,
    ) -> (res: Self)
        ensures
            res@ == (ProjectDirsView {
                config_dir: config_dir@,
                data_local_dir: data_local_dir@,
                cache_dir: cache_dir@,
            }),
    {
        ProjectDirs {
            config_dir: Some(config_dir),
            data_local_dir: Some(data_local_dir),
            cache_dir: Some(cache_dir),
            platform_config_dir,
            platform_data_local_dir,
            platform_cache_dir,
        }
    }

    /// Where the configuration is kept.
    pub fn config_dir(&self) -> (res: &str)
        ensures
            res@ == self@.config_dir,
    {
        match &self.config_dir {
            Some(d) => d.as_str(),
            None => self.platform_config_dir.as_str(),
        }
    }

    /// Where data is kept.
    pub fn data_local_dir(&self) -> (res: &str)
        ensures
            res@ == self@.data_local_dir,
    {
        match &self.data_local_dir {
            Some(d) => d.as_str(),
            None => self.platform_data_local_dir.as_str(),
        }
    }

    /// Where caches are kept.
    pub fn cache_dir(&self) -> (res: &str)
        ensures
            res@ == self@.cache_dir,
    {
        match &self.cache_dir {
            Some(d) => d.as_str(),
            None => self.platform_cache_dir.as_str(),
        }
    }
}

} // verus!
