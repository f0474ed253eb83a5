use souko::cli::{GlobalArgs, Level, Verbosity};
use souko::pretty_path::TildePath;
use souko::project_dirs::{home_relative_dirs_for, resolve_test_home, ProjectDirs, TargetOs};
use souko::souko::{CompletionShell, LogFilter, Souko, StartupAction};

fn level(verbose: u8, quiet: u8) -> Option<Level> {
    Verbosity { verbose, quiet }.verbosity()
}

#[test]
fn verbosity_levels() {
    assert_eq!(level(0, 0), Some(Level::Info));
    assert_eq!(level(1, 0), Some(Level::Debug));
    assert_eq!(level(2, 0), Some(Level::Trace));
    assert_eq!(level(200, 0), Some(Level::Trace));
    assert_eq!(level(0, 1), Some(Level::Warn));
    assert_eq!(level(0, 2), Some(Level::Error));
    assert_eq!(level(0, 3), None);
    assert_eq!(level(0, 255), None);
    assert_eq!(level(255, 255), Some(Level::Info));
    assert_eq!(level(130, 127), Some(Level::Info));
}

#[test]
fn env_prefix_and_variables() {
    let prefix = Souko::env_prefix("souko-dev");
    assert_eq!(prefix, "SOUKO_DEV");
    assert_eq!(Souko::completion_env_var(&prefix), "SOUKO_DEV_COMPLETE");
    assert_eq!(Souko::man_env_var(&prefix), "SOUKO_DEV_GENERATE_MAN_TO");
    assert_eq!(Souko::env_prefix_of_upper("A-B-"), "A_B_");
}

#[test]
fn startup_prefers_completion_then_man() {
    assert!(matches!(
        Souko::startup_action(Some("bash".into()), Some("/m".into())),
        StartupAction::PrintCompletion { shell } if shell == "bash"
    ));
    assert!(matches!(
        Souko::startup_action(None, Some("/m".into())),
        StartupAction::GenerateMan { output_dir } if output_dir == "/m"
    ));
    assert!(matches!(Souko::startup_action(None, None), StartupAction::Run));
    assert_eq!(Souko::log_filter(true, Some(Level::Info)), LogFilter::FromEnv);
    assert_eq!(
        Souko::log_filter(false, None),
        LogFilter::Default { level: None }
    );
}

#[test]
fn completion_shells() {
    assert_eq!(CompletionShell::parse("bash").unwrap(), CompletionShell::Bash);
    assert_eq!(CompletionShell::parse("nushell").unwrap(), CompletionShell::Nushell);
    assert_eq!(CompletionShell::parse("powershell").unwrap(), CompletionShell::PowerShell);
    let err = CompletionShell::parse("tcsh").unwrap_err();
    assert_eq!(
        err.message(),
        "unknown shell `tcsh`, expected one of `bash`, `elvish`, `fish`, `powershell`, `zsh`, `nushell`"
    );
}

#[test]
fn project_dirs_under_test_home() {
    let dirs = ProjectDirs::new(
        Some("/home/t"),
        "/work",
        "souko",
        TargetOs::Linux,
        "/p/c".into(),
        "/p/d".into(),
        "/p/k".into(),
    );
    assert_eq!(dirs.config_dir(), "/home/t/.config/souko");
    assert_eq!(dirs.data_local_dir(), "/home/t/.local/share/souko");
    assert_eq!(dirs.cache_dir(), "/home/t/.cache/souko");

    let dirs = ProjectDirs::new(None, "/work", "souko", TargetOs::Linux, "/p/c".into(), "/p/d".into(), "/p/k".into());
    assert_eq!(dirs.config_dir(), "/p/c");
    assert_eq!(dirs.data_local_dir(), "/p/d");
    assert_eq!(dirs.cache_dir(), "/p/k");

    let dirs = ProjectDirs::new(Some("/h"), "/work", "souko", TargetOs::Other, "/p/c".into(), "/p/d".into(), "/p/k".into());
    assert_eq!(dirs.config_dir(), "/p/c");

    let dirs = ProjectDirs::new(
        Some("relative-home"),
        "/work/tmp",
        "souko",
        TargetOs::Linux,
        "/p/c".into(),
        "/p/d".into(),
        "/p/k".into(),
    );
    assert_eq!(dirs.config_dir(), "/work/tmp/relative-home/.config/souko");
    assert_eq!(dirs.data_local_dir(), "/work/tmp/relative-home/.local/share/souko");
    assert_eq!(dirs.cache_dir(), "/work/tmp/relative-home/.cache/souko");
    assert_eq!(
        resolve_test_home(Some("relative-home"), "/work").as_deref(),
        Some("/work/relative-home")
    );
    assert_eq!(resolve_test_home(Some("/abs"), "/work").as_deref(), Some("/abs"));
    assert_eq!(resolve_test_home(None, "/work"), None);

    let (c, d, k) = home_relative_dirs_for("souko", TargetOs::MacOs).unwrap();
    assert_eq!(c, "Library/Application Support/souko");
    assert_eq!(d, "Library/Application Support/souko");
    assert_eq!(k, "Library/Caches/souko");
    let (c, d, k) = home_relative_dirs_for("souko", TargetOs::Windows).unwrap();
    assert_eq!(c, r"AppData\Roaming\souko\config");
    assert_eq!(d, r"AppData\Local\souko\data");
    assert_eq!(k, r"AppData\Local\souko\cache");
}

#[test]
fn global_args_default_and_given_paths() {
    let dirs = ProjectDirs::new_for_test(
        "/home/u/.config/souko".into(),
        "/home/u/.local/share/souko".into(),
        "/home/u/.cache/souko".into(),
        "/x".into(),
        "/y".into(),
        "/z".into(),
    );
    let args = GlobalArgs {
        verbosity: Verbosity { verbose: 0, quiet: 0 },
        config_path: None,
        repo_cache_path: Some(TildePath::from_real_path("/tmp/cache.json".into(), None)),
    };
    let config = args.config_path(&dirs, Some("/home/u"));
    assert_eq!(config.name(), "config");
    assert!(config.is_default());
    assert_eq!(config.value().as_real_path(), "/home/u/.config/souko/config.toml");
    assert_eq!(config.value().as_display_path(), "~/.config/souko/config.toml");
    let cache = args.repo_cache_path(&dirs, Some("/home/u"));
    assert_eq!(cache.name(), "repo-cache");
    assert!(cache.is_explicit());
    assert_eq!(cache.value().as_real_path(), "/tmp/cache.json");
    assert_eq!(args.verbosity(), Some(Level::Info));
}
