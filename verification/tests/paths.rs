use std::path::Path;

use souko::param::AppParamSource;
use souko::path::{
    path_eq, path_file_name, path_is_absolute, path_join, path_parent, path_strip_prefix,
    path_trim_trailing_separator,
};
use souko::pretty_path::{AppDirs, PrettyPath, TildePath, UnresolvedPath};

fn test_dirs(home: &str, work: &str) -> AppDirs {
    let home_path = Path::new(home);
    AppDirs::new(
        home.to_owned(),
        work.to_owned(),
        home_path.join(".config/souko").to_str().unwrap().to_owned(),
        home_path.join(".local/share/souko").to_str().unwrap().to_owned(),
        home_path.join(".cache/souko").to_str().unwrap().to_owned(),
    )
}

fn joined(a: &str, b: &str) -> String {
    Path::new(a).join(b).to_str().unwrap().to_owned()
}

#[test]
fn normalize_tilde_and_home_paths() {
    let app_dirs = test_dirs("/home/foo", "/work");
    let home_dir = app_dirs.home_dir().to_owned();
    let config_dir = UnresolvedPath::new(app_dirs.config_dir().to_owned())
        .normalize(&AppParamSource::ImplicitDefault, &app_dirs);
    let config_path = PrettyPath::from_pair(
        joined(config_dir.as_real_path(), "config.toml"),
        joined(config_dir.as_display_path(), "config.toml"),
    );
    let source = AppParamSource::ConfigurationFile { path: config_path };

    // expand first tilde component
    let path = UnresolvedPath::new("~/.config/souko".into()).normalize(&source, &app_dirs);
    assert_eq!(path.as_display_path(), "~/.config/souko");
    assert_eq!(path.as_real_path(), joined(&home_dir, ".config/souko"));

    // expand bare tilde to home
    let path = UnresolvedPath::new("~".into()).normalize(&source, &app_dirs);
    assert_eq!(path.as_display_path(), "~");
    assert_eq!(path.as_real_path(), home_dir);

    // normalize bare tilde with trailing separator to base tilde
    let path = UnresolvedPath::new("~/".into()).normalize(&source, &app_dirs);
    assert_eq!(path.as_display_path(), "~");
    assert_eq!(path.as_real_path(), home_dir);

    // don't expand tilde+username component; it is treated as a relative path
    let path = UnresolvedPath::new("~foo/.config/souko".into()).normalize(&source, &app_dirs);
    assert_eq!(
        path.as_display_path(),
        joined(config_dir.as_display_path(), "~foo/.config/souko")
    );
    assert_eq!(
        path.as_real_path(),
        joined(config_dir.as_real_path(), "~foo/.config/souko")
    );

    // don't expand non-first tilde component
    let parent = Path::new(&home_dir).parent().unwrap().to_str().unwrap().to_owned();
    let absolute_path = joined(&parent, "~/baz");
    let path = UnresolvedPath::new(absolute_path.clone()).normalize(&source, &app_dirs);
    assert_eq!(path.as_display_path(), absolute_path);
    assert_eq!(path.as_real_path(), absolute_path);

    // normalize home itself to base tilde
    let path = UnresolvedPath::new(home_dir.clone()).normalize(&source, &app_dirs);
    assert_eq!(path.as_display_path(), "~");
    assert_eq!(path.as_real_path(), home_dir);

    // normalize home itself with trailing separator to base tilde
    let path = UnresolvedPath::new(format!("{}/", home_dir)).normalize(&source, &app_dirs);
    assert_eq!(path.as_display_path(), "~");
    assert_eq!(path.as_real_path(), home_dir);

    // don't normalize paths that only share a string prefix with home
    let sibling_of_home_dir = joined(&parent, "foobar");
    let path = UnresolvedPath::new(sibling_of_home_dir.clone()).normalize(&source, &app_dirs);
    assert_eq!(path.as_display_path(), sibling_of_home_dir);
    assert_eq!(path.as_real_path(), sibling_of_home_dir);

    // normalize a path under home to a tilde-based display path
    let path = UnresolvedPath::new(joined(&home_dir, "bar")).normalize(&source, &app_dirs);
    assert_eq!(path.as_display_path(), "~/bar");
    assert_eq!(path.as_real_path(), joined(&home_dir, "bar"));
}

#[test]
fn normalize_resolves_relative_paths_from_configuration_file_directory() {
    let app_dirs = test_dirs("/home/foo", "/work");
    let config_dir = UnresolvedPath::new(joined(app_dirs.config_dir(), "nested"))
        .normalize(&AppParamSource::ImplicitDefault, &app_dirs);
    let config_path = PrettyPath::from_pair(
        joined(config_dir.as_real_path(), "config.toml"),
        joined(config_dir.as_display_path(), "config.toml"),
    );
    let source = AppParamSource::ConfigurationFile { path: config_path };

    let path = UnresolvedPath::new("repos/root".into()).normalize(&source, &app_dirs);

    assert_eq!(path.as_real_path(), joined(config_dir.as_real_path(), "repos/root"));
    assert_eq!(
        path.as_display_path(),
        joined(config_dir.as_display_path(), "repos/root")
    );
}

#[test]
fn normalize_resolves_relative_paths_from_command_line_working_directory() {
    let app_dirs = test_dirs("/home/foo", "/work");
    let source = AppParamSource::CommandLineArgument;

    let path = UnresolvedPath::new("repos/cache.json".into()).normalize(&source, &app_dirs);

    let expected_real_path = joined(app_dirs.working_dir(), "repos/cache.json");
    let expected_display_path = expected_real_path.clone();

    assert_eq!(path.as_real_path(), expected_real_path);
    assert_eq!(path.as_display_path(), expected_display_path);
}

#[test]
fn tilde_path_expand() {
    let home = "/home/foo";
    assert!(Path::new(home).is_absolute());

    // expand first tilde component
    let path = TildePath::from_display_path("~/.config/souko".into(), Some(home));
    assert_eq!(path.as_display_path(), "~/.config/souko");
    assert_eq!(path.as_real_path(), joined(home, ".config/souko"));

    // don't expand tilde+username component
    let path = TildePath::from_display_path("~foo/.config/souko".into(), Some(home));
    assert_eq!(path.as_display_path(), "~foo/.config/souko");
    assert_eq!(path.as_real_path(), "~foo/.config/souko");

    // don't expand non-first tilde component
    let path = TildePath::from_display_path("/foo/~/baz".into(), Some(home));
    assert_eq!(path.as_display_path(), "/foo/~/baz");
    assert_eq!(path.as_real_path(), "/foo/~/baz");
}

#[test]
fn tilde_path_without_home_is_verbatim() {
    let path = TildePath::from_display_path("~/x".into(), None);
    assert_eq!(path.as_real_path(), "~/x");
    let path = TildePath::from_real_path("/home/foo/x".into(), None);
    assert_eq!(path.as_display_path(), "/home/foo/x");
}

#[test]
fn tilde_path_contracts_home() {
    let path = TildePath::from_real_path("/home/foo/src/x".into(), Some("/home/foo"));
    assert_eq!(path.as_display_path(), "~/src/x");
    assert_eq!(path.as_real_path(), "/home/foo/src/x");
    let path = TildePath::from_real_path("/home/foobar".into(), Some("/home/foo"));
    assert_eq!(path.as_display_path(), "/home/foobar");
}

fn std_join(a: &str, b: &str) -> String {
    Path::new(a).join(b).to_str().unwrap().to_owned()
}

#[test]
fn join_agrees_with_std() {
    for (a, b) in [
        ("/a", "b"),
        ("/a/", "b"),
        ("", "b"),
        ("/a", "/b"),
        ("a/b", "c/d"),
        ("/", "x"),
        ("a", ""),
    ] {
        assert_eq!(path_join(a, b), std_join(a, b), "join {a:?} {b:?}");
    }
}

#[test]
fn strip_prefix_agrees_with_std() {
    for (p, base) in [
        ("/a/b/c", "/a"),
        ("/a/b/c", "/a/b/c"),
        ("/a/bc", "/a/b"),
        ("~/x/y", "~"),
        ("~foo/x", "~"),
        ("/a//b/./c", "/a/b"),
        ("a/b", "/a"),
        ("/a/b/", "/a"),
    ] {
        let expected = Path::new(p)
            .strip_prefix(base)
            .ok()
            .map(|r| r.to_str().unwrap().to_owned());
        assert_eq!(path_strip_prefix(p, base), expected, "strip {p:?} {base:?}");
    }
}

#[test]
fn parent_and_file_name_agree_with_std() {
    for p in ["/a/b", "/a/b/", "/", "a", "a/b/..", "/a/./b", "", "./a", "a/."] {
        let parent = Path::new(p).parent().map(|r| r.to_str().unwrap().to_owned());
        assert_eq!(path_parent(p), parent, "parent {p:?}");
        let name = Path::new(p)
            .file_name()
            .map(|r| r.to_str().unwrap().to_owned());
        assert_eq!(path_file_name(p), name, "file name {p:?}");
        assert_eq!(path_is_absolute(p), Path::new(p).is_absolute());
    }
}

#[test]
fn trailing_separators_are_trimmed_except_root() {
    assert_eq!(path_trim_trailing_separator("/a/b//"), "/a/b");
    assert_eq!(path_trim_trailing_separator("/"), "/");
    assert_eq!(path_trim_trailing_separator("//"), "//");
    assert_eq!(path_trim_trailing_separator("a/"), "a");
    assert_eq!(path_trim_trailing_separator("a"), "a");
}

#[test]
fn trimming_twice_is_trimming_once() {
    for p in ["/a/b//", "/", "a//", "", "///", "a/b"] {
        let once = path_trim_trailing_separator(p);
        assert_eq!(path_trim_trailing_separator(&once), once);
    }
}

#[test]
fn tilde_path_with_empty_home() {
    let path = TildePath::from_display_path("~/x".into(), Some(""));
    assert_eq!(path.as_display_path(), "~/x");
    assert_eq!(path.as_real_path(), Path::new("").join("x").to_str().unwrap());
}

#[test]
fn path_equality_agrees_with_std() {
    let ps = ["a/b", "a//b", "a/b/", "a/./b", "./a/b", "/a/b", "//a/b", "a/b/..", "a/b/c", "", ".", "/"];
    for a in ps {
        for b in ps {
            assert_eq!(path_eq(a, b), Path::new(a) == Path::new(b), "{a:?} {b:?}");
        }
    }
}
