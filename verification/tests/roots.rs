use std::path::Path;

use souko::param::AppParamSource;
use souko::pretty_path::{AppDirs, PrettyPath, TildePath, UnresolvedPath};
use souko::project_dirs::ProjectDirs;
use souko::root_map::{default_root_path, RootMap};
use souko::roots::{RootConfig, RootContextMap};

fn test_dirs(home: &str) -> AppDirs {
    let home_path = Path::new(home);
    AppDirs::new(
        home.to_owned(),
        "/work".to_owned(),
        home_path.join(".config/souko").to_str().unwrap().to_owned(),
        home_path.join(".local/share/souko").to_str().unwrap().to_owned(),
        home_path.join(".cache/souko").to_str().unwrap().to_owned(),
    )
}

fn config_path(dirs: &AppDirs) -> PrettyPath {
    let real = Path::new(dirs.config_dir()).join("config.toml");
    PrettyPath::from_pair(
        real.to_str().unwrap().to_owned(),
        "~/.config/souko/config.toml".to_owned(),
    )
}

fn project_dirs(config: &str, data: &str, cache: &str) -> ProjectDirs {
    ProjectDirs::new_for_test(
        config.to_owned(),
        data.to_owned(),
        cache.to_owned(),
        "/platform/config".to_owned(),
        "/platform/data".to_owned(),
        "/platform/cache".to_owned(),
    )
}

fn root_config(name: &str, path: Option<&str>) -> RootConfig {
    RootConfig {
        name: name.to_owned(),
        path: path.map(|p| UnresolvedPath::new(p.to_owned())),
        visit_hidden_dirs: false,
        visit_repo_subdirs: false,
        include_bare_repo: false,
    }
}

#[test]
fn default_config_resolves_default_root_from_injected_project_dirs() {
    let project_dirs = project_dirs(
        "target/test-config-dir-default-root",
        "target/test-data-local-dir-default-root",
        "target/test-cache-dir-default-root",
    );
    let config = RootMap::from_pairs(vec![]);
    let default_path = default_root_path(&project_dirs, None);

    let roots = config.roots(&default_path);
    assert!(roots.contains("default"));

    let default_root = config.default_root(&default_path);
    assert_eq!(default_root.value().name(), "default");
    assert_eq!(
        Path::new(default_root.value().path().as_real_path()),
        Path::new(project_dirs.data_local_dir()).join("root")
    );
}

#[test]
fn mod_explicit_default_root_in_config_overrides_injected_default_root_path() {
    let project_dirs = project_dirs(
        "target/test-config-dir-explicit-root",
        "target/test-data-local-dir-explicit-root",
        "target/test-cache-dir-explicit-root",
    );
    // [[root]] name = "default", path = "/tmp/custom-root"
    let config = RootMap::from_pairs(vec![(
        "default".to_owned(),
        Some(TildePath::from_display_path("/tmp/custom-root".to_owned(), None)),
    )]);
    let default_path = default_root_path(&project_dirs, None);

    let default_root = config.default_root(&default_path);
    assert_eq!(default_root.value().name(), "default");
    assert_eq!(
        Path::new(default_root.value().path().as_real_path()),
        Path::new("/tmp/custom-root")
    );
    assert!(default_root.is_explicit());
}

#[test]
fn default_config_resolves_default_root_from_injected_app_dirs() {
    let app_dirs = test_dirs("/home/tester");
    let root_ctx = RootContextMap::new(&config_path(&app_dirs), &vec![], &app_dirs);

    let default_root = root_ctx.default_root();
    assert_eq!(default_root.value().name(), "default");
    assert_eq!(
        Path::new(default_root.value().path().as_real_path()),
        Path::new(app_dirs.data_local_dir()).join("root")
    );
}

#[test]
fn root_explicit_default_root_in_config_overrides_injected_default_root_path() {
    let app_dirs = test_dirs("/home/tester");
    let configs = vec![root_config("default", Some("/tmp/custom-root"))];
    let root_ctx = RootContextMap::new(&config_path(&app_dirs), &configs, &app_dirs);

    let default_root = root_ctx.default_root();
    assert_eq!(default_root.value().name(), "default");
    assert_eq!(
        Path::new(default_root.value().path().as_real_path()),
        Path::new("/tmp/custom-root")
    );
}

#[test]
fn configuration_file_root_entry_with_omitted_path_remains_configuration_file() {
    let app_dirs = test_dirs("/home/tester");
    let configs = vec![root_config("foo", None)];
    let root_ctx = RootContextMap::new(&config_path(&app_dirs), &configs, &app_dirs);

    let foo_root = root_ctx.root_by_name("foo").unwrap();
    assert_eq!(foo_root.value().name(), "foo");
    assert!(foo_root.source().is_configuration_file());
    assert_eq!(
        Path::new(foo_root.value().path().as_real_path()),
        Path::new(app_dirs.data_local_dir()).join("root")
    );

    let default_root = root_ctx.default_root();
    assert!(default_root.source().is_implicit_default());
    assert_eq!(default_root.value().name(), "default");
}

#[test]
fn all_roots_come_in_name_order_with_default_added() {
    let app_dirs = test_dirs("/home/tester");
    let configs = vec![
        root_config("zeta", Some("z")),
        root_config("alpha", Some("~/a")),
        root_config("mid", None),
    ];
    let root_ctx = RootContextMap::new(&config_path(&app_dirs), &configs, &app_dirs);
    let names: Vec<&str> = root_ctx.all_roots().iter().map(|r| r.value().name()).collect();
    assert_eq!(names, vec!["alpha", "default", "mid", "zeta"]);

    let alpha = root_ctx.root_by_name("alpha").unwrap();
    assert_eq!(alpha.value().path().as_real_path(), "/home/tester/a");
    assert_eq!(alpha.value().path().as_display_path(), "~/a");
    let zeta = root_ctx.root_by_name("zeta").unwrap();
    assert_eq!(zeta.value().path().as_real_path(), "/home/tester/.config/souko/z");
    assert_eq!(zeta.value().path().as_display_path(), "~/.config/souko/z");
}

#[test]
fn later_entry_with_same_name_wins() {
    let app_dirs = test_dirs("/home/tester");
    let configs = vec![root_config("a", Some("/one")), root_config("a", Some("/two"))];
    let root_ctx = RootContextMap::new(&config_path(&app_dirs), &configs, &app_dirs);
    assert_eq!(root_ctx.root_by_name("a").unwrap().value().path().as_real_path(), "/two");
    assert_eq!(root_ctx.all_roots().len(), 2);
}

#[test]
fn missing_root_is_an_error_with_message() {
    let app_dirs = test_dirs("/home/tester");
    let root_ctx = RootContextMap::new(&config_path(&app_dirs), &vec![], &app_dirs);
    let err = root_ctx.root_by_name_or_err("nope").unwrap_err();
    assert_eq!(err.message(), "root `nope` not found in config file");
    assert!(root_ctx.root_by_name("nope").is_none());
}

#[test]
fn root_flags_are_kept() {
    let app_dirs = test_dirs("/home/tester");
    let mut cfg = root_config("x", Some("/x/"));
    cfg.visit_hidden_dirs = true;
    cfg.include_bare_repo = true;
    let root_ctx = RootContextMap::new(&config_path(&app_dirs), &vec![cfg], &app_dirs);
    let x = root_ctx.root_by_name("x").unwrap().value();
    assert!(x.visit_hidden_dirs());
    assert!(!x.visit_repo_subdirs());
    assert!(x.include_bare_repo());
    assert_eq!(x.path().as_real_path(), "/x");
    assert!(matches!(
        root_ctx.root_by_name("x").unwrap().source(),
        AppParamSource::ConfigurationFile { .. }
    ));
}

#[test]
fn root_map_lists_default_and_entries() {
    let pd = project_dirs("/c", "/d", "/k");
    let config = RootMap::from_pairs(vec![
        ("b".to_owned(), None),
        ("a".to_owned(), Some(TildePath::from_display_path("~/a".to_owned(), Some("/home/u")))),
    ]);
    let default_path = default_root_path(&pd, Some("/home/u"));
    assert_eq!(default_path.as_real_path(), "/d/root");
    let roots = config.roots(&default_path);
    let names: Vec<&str> = roots.pairs().iter().map(|(n, _)| *n).collect();
    assert_eq!(names, vec!["a", "b", "default"]);
    let a = roots.get("a").unwrap();
    assert!(a.is_explicit());
    assert_eq!(a.value().path().as_real_path(), "/home/u/a");
    let b = roots.get("b").unwrap();
    assert!(b.is_default());
    assert_eq!(b.value().path().as_real_path(), "/d/root");
    assert_eq!(b.name(), "root");
}
