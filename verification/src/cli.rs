//! The command line: how chatty the program is, where its files are, which shell a completion
//! script is for, and what the program does on start.

use vstd::prelude::*;

use crate::param::OptionalParam;
use crate::path::{join_path, path_join};
use crate::pretty_path::{display_of_real, opt_str_view, PrettyPathView, TildePath};
use crate::list::{format_chosen, Format, FormatArgs};
use crate::project_dirs::ProjectDirs;
use crate::template::TemplateError;

verus! {

/// How much the program logs.
#[derive(Debug, Clone, Copy, PartialEq, Eq, Structural)]
pub enum Level {
    Error,
    Warn,
    Info,
    Debug,
    Trace,
}

/// The `-v` and `-q` counts given on the command line.
#[derive(Debug, Clone, Copy)]
pub struct Verbosity {
    pub verbose: u8,
    pub quiet: u8,
}

/// A count, capped at the largest `i8`.
pub open spec fn capped(n: u8) -> int {
    if n <= 127 {
        n as int
    } else {
        127
    }
}

/// The level for `verbose` uses of `-v` and `quiet` uses of `-q` (each counted up to 127): at
/// their difference 0 `Info`, each `-v` one level more and each `-q` one level less, down to
/// no logging at all at -3 and below, and up to `Trace` at 2 and above.
pub open spec fn level_of(verbose: u8, quiet: u8) -> Option<Level> {
    let d = capped(verbose) - capped(quiet);
    if d <= -3 {
        None
    } else if d == -2 {
        Some(Level::Error)
    } else if d == -1 {
        Some(Level::Warn)
    } else if d == 0 {
        Some(Level::Info)
    } else if d == 1 {
        Some(Level::Debug)
    } else {
        Some(Level::Trace)
    }
}

/// A count as an `i8`, capped at its largest value.
fn cap_i8(n: u8) -> (res: i8)
    ensures
        res == capped(n),
{
    if n <= 127 {
        n as i8
    } else {
        127
    }
}

impl Verbosity {
    /// The level to log at; `None` for no logging (see `level_of`).
    pub fn verbosity(&self) -> (res: Option<Level>)
        ensures
            res == level_of(self.verbose, self.quiet),
    {
        let level: i8 = cap_i8(self.verbose) - cap_i8(self.quiet);
        if level <= -3 {
            None
        } else if level == -2 {
            Some(Level::Error)
        } else if level == -1 {
            Some(Level::Warn)
        } else if level == 0 {
            Some(Level::Info)
        } else if level == 1 {
            Some(Level::Debug)
        } else {
            Some(Level::Trace)
        }
    }
}

/// The options every command takes.
#[derive(Debug)]
pub struct GlobalArgs {
    pub verbosity: Verbosity,
    pub config_path: Option<TildePath>,
    pub repo_cache_path: Option<TildePath>,
}

/// The path of a file `name` in `dir`, shown with the home directory written `~`.
pub open spec fn default_file_path(dir: Seq<char>, name: Seq<char>, home: Option<Seq<char>>) -> PrettyPathView {
    PrettyPathView {
        real_path: join_path(dir, name),
        display_path: display_of_real(join_path(dir, name), home),
    }
}

/// What an optional path parameter holds: the path given, or else the default.
pub open spec fn path_param_ok(
    p: OptionalParam<TildePath>,
    name: Seq<char>,
    given: Option<TildePath>,
    default: PrettyPathView,
) -> bool {
    &&& p.spec_name() == name
    &&& match given {
        Some(v) => p.spec_param_value() is Explicit && p.spec_param_value().spec_inner()@ == v@,
        None => p.spec_param_value() is Default && p.spec_param_value().spec_inner()@ == default,
    }
}

/// The path of the file `name` in `dir`.
fn file_in(dir: &str, name: &str, home: Option<&str>) -> (res: TildePath)
    requires
        home matches Some(h) ==> h@.len() > 0,
    ensures
        res@ == default_file_path(dir@, name@, opt_str_view(home)),
{
    TildePath::from_real_path(path_join(dir, name), home)
}

impl GlobalArgs {
    /// The level to log at.
    pub fn verbosity(&self) -> (res: Option<Level>)
        ensures
            res == level_of(self.verbosity.verbose, self.verbosity.quiet),
    {
        self.verbosity.verbosity()
    }

    /// The configuration file: the one given, else `config.toml` in the configuration
    /// directory.
    pub fn config_path(&self, dirs: &ProjectDirs, home: Option<&str>) -> (res: OptionalParam<TildePath>)
        requires
            home matches Some(h) ==> h@.len() > 0,
        ensures
            path_param_ok(
                res,
                "config"@,
                self.config_path,
                default_file_path(dirs@.config_dir, "config.toml"@, opt_str_view(home)),
            ),
    {
        let given = match &self.config_path {
            Some(p) => Some(p.clone()),
            None => None,
        };
        let default = || -> (t: TildePath)
            requires
                home matches Some(h) ==> h@.len() > 0,
            ensures
                t@ == default_file_path(dirs@.config_dir, "config.toml"@, opt_str_view(home)),
            { file_in(dirs.config_dir(), "config.toml", home) };
        OptionalParam::new("config", given, default)
    }

    /// The repository cache: the one given, else `repos.json` in the cache directory.
    pub fn repo_cache_path(&self, dirs: &ProjectDirs, home: Option<&str>) -> (res: OptionalParam<TildePath>)
        requires
            home matches Some(h) ==> h@.len() > 0,
        ensures
            path_param_ok(
                res,
                "repo-cache"@,
                self.repo_cache_path,
                default_file_path(dirs@.cache_dir, "repos.json"@, opt_str_view(home)),
            ),
    {
        let given = match &self.repo_cache_path {
            Some(p) => Some(p.clone()),
            None => None,
        };
        let default = || -> (t: TildePath)
            requires
                home matches Some(h) ==> h@.len() > 0,
            ensures
                t@ == default_file_path(dirs@.cache_dir, "repos.json"@, opt_str_view(home)),
            { file_in(dirs.cache_dir(), "repos.json", home) };
        OptionalParam::new("repo-cache", given, default)
    }
}

/// How much a level logs: nothing, then errors, warnings, information, debugging, tracing.
pub open spec fn level_rank(l: Option<Level>) -> int {
    match l {
        None => 0,
        Some(Level::Error) => 1,
        Some(Level::Warn) => 2,
        Some(Level::Info) => 3,
        Some(Level::Debug) => 4,
        Some(Level::Trace) => 5,
    }
}

/// More `-v` never logs less, and more `-q` never logs more.
pub proof fn lemma_verbosity_monotone(v1: u8, v2: u8, q1: u8, q2: u8)
    requires
        v1 <= v2,
        q1 >= q2,
    ensures
        level_rank(level_of(v1, q1)) <= level_rank(level_of(v2, q2)),
{
}

/// The options of the `clone` command.
#[derive(Debug)]
pub struct CloneArgs {
    pub root_name: Option<String>,
    pub query: String,
}

impl CloneArgs {
    /// The root named on the command line, if any.
    pub fn root_name(&self) -> (res: Option<&str>)
        ensures
            match res {
                Some(n) => self.root_name is Some && n@ == self.root_name->0@,
                None => self.root_name is None,
            },
    {
        match &self.root_name {
            Some(n) => Some(n.as_str()),
            None => None,
        }
    }

    /// The repository to clone, as the user wrote it.
    pub fn query(&self) -> (res: &str)
        ensures
            res@ == self.query@,
    {
        self.query.as_str()
    }
}

/// The options of the `list` command.
#[derive(Debug)]
pub struct ListArgs {
    pub root_name: Option<Vec<String>>,
    pub format: FormatArgs,
}

impl ListArgs {
    /// The roots named on the command line, if any.
    pub fn root_name(&self) -> (res: Option<&Vec<String>>)
        ensures
            match res {
                Some(v) => self.root_name is Some && v@ == self.root_name->0@,
                None => self.root_name is None,
            },
    {
        match &self.root_name {
            Some(v) => Some(v),
            None => None,
        }
    }

    /// The output format asked for (see `FormatArgs::validate`).
    pub fn format(&self) -> (res: Result<Format, TemplateError>)
        ensures
            format_chosen(self.format, res),
    {
        self.format.validate()
    }
}

/// A command.
#[derive(Debug)]
pub enum Subcommand {
    Clone(CloneArgs),
    List(ListArgs),
}

/// The command line.
#[derive(Debug)]
pub struct Args {
    pub global_args: GlobalArgs,
    pub subcommand: Option<Subcommand>,
}

impl Args {
    /// The options every command takes.
    pub fn global_args(&self) -> (res: &GlobalArgs)
        ensures
            res == &self.global_args,
    {
        &self.global_args
    }

    /// The command, if one is given.
    pub fn subcommand(&self) -> (res: Option<&Subcommand>)
        ensures
            match res {
                Some(c) => self.subcommand is Some && c == &self.subcommand->0,
                None => self.subcommand is None,
            },
    {
        match &self.subcommand {
            Some(c) => Some(c),
            None => None,
        }
    }
}

} // verus!
