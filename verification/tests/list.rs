use souko::clone::{clone_relative_path, clone_relative_path_of_url, CloneContext, CloneContextError};
use souko::config::{choose_config, path_param, Config, GlobalContext};
use souko::list::{render_repo_line, repo_list_variable_names, select_roots, Format, FormatArgs, RepoListTemplateContext};
use souko::param::AppParamSource;
use souko::pretty_path::{AppDirs, PrettyPath};
use souko::query::QueryConfig;
use souko::repo::{CanonicalRepo, CanonicalRoot, Repo};
use souko::roots::{Root, RootConfig, RootContextMap};
use souko::template::{Template, TemplateError};
use souko::walk::DirEntry;

fn dirs() -> AppDirs {
    AppDirs::new(
        "/home/u".into(),
        "/work".into(),
        "/home/u/.config/souko".into(),
        "/home/u/.local/share/souko".into(),
        "/home/u/.cache/souko".into(),
    )
}

fn config_path() -> PrettyPath {
    PrettyPath::from_pair(
        "/home/u/.config/souko/config.toml".into(),
        "~/.config/souko/config.toml".into(),
    )
}

fn named(name: &str) -> RootConfig {
    RootConfig {
        name: name.into(),
        path: None,
        visit_hidden_dirs: false,
        visit_repo_subdirs: false,
        include_bare_repo: false,
    }
}

fn sample() -> (CanonicalRoot, CanonicalRepo) {
    let root = CanonicalRoot::new(
        Root::new(
            "default".into(),
            PrettyPath::from_pair("/home/u/.local/share/souko/root".into(), "~/.local/share/souko/root".into()),
        ),
        "/data/root".into(),
    );
    let repo = Repo::from_relative_path(
        root.as_root(),
        PrettyPath::from_real_path("github.com/gifnksm/souko".into()),
        false,
    );
    (root, CanonicalRepo::new(repo, "/data/root/github.com/gifnksm/souko".into()))
}

#[test]
fn template_line_for_a_repository() {
    let (root, repo) = sample();
    let t = Template::parse("{root_name}\t{repo_relative_path}\t{repo_canonical_path}").unwrap();
    assert_eq!(
        render_repo_line(&t, &root, &repo),
        "default\tgithub.com/gifnksm/souko\t/data/root/github.com/gifnksm/souko"
    );
    let t = Template::parse("{repo_display_path}|{root_real_path}").unwrap();
    assert_eq!(
        render_repo_line(&t, &root, &repo),
        "~/.local/share/souko/root/github.com/gifnksm/souko|/home/u/.local/share/souko/root"
    );
    let ctx = RepoListTemplateContext::new(&root, &repo);
    assert_eq!(ctx.repo_real_path, "/home/u/.local/share/souko/root/github.com/gifnksm/souko");
    assert_eq!(ctx.root_canonical_path, "/data/root");
}

#[test]
fn format_choice() {
    let f = FormatArgs { json: true, template: Some(Template::parse("{x}").unwrap()) };
    assert!(matches!(f.validate(), Ok(Format::Json)));
    let f = FormatArgs { json: false, template: None };
    assert!(matches!(f.validate(), Ok(Format::Default)));
    let f = FormatArgs { json: false, template: Some(Template::parse("{root_name}").unwrap()) };
    assert!(matches!(f.validate(), Ok(Format::Template(_))));
    let f = FormatArgs { json: false, template: Some(Template::parse("{root_name}{nope}{bad}").unwrap()) };
    match f.validate() {
        Err(e @ TemplateError::UnknownVariable { .. }) => {
            assert_eq!(e.message(), "unknown template variable `nope`")
        }
        _ => panic!("expected an unknown variable"),
    }
    assert_eq!(repo_list_variable_names().len(), 8);
}

#[test]
fn selecting_roots() {
    let d = dirs();
    let configs = vec![named("b"), named("a")];
    let map = RootContextMap::new(&config_path(), &configs, &d);
    let all = select_roots(&map, None).unwrap();
    let names: Vec<&str> = all.iter().map(|r| r.value().name()).collect();
    assert_eq!(names, vec!["a", "b", "default"]);
    let wanted = vec!["b".to_owned(), "default".to_owned()];
    let some = select_roots(&map, Some(&wanted)).unwrap();
    let names: Vec<&str> = some.iter().map(|r| r.value().name()).collect();
    assert_eq!(names, vec!["b", "default"]);
    let wanted = vec!["a".to_owned(), "x".to_owned(), "y".to_owned()];
    let err = select_roots(&map, Some(&wanted)).unwrap_err();
    assert_eq!(err.message(), "root `x` not found in config file");
}

#[test]
fn clone_context_picks_root_and_query() {
    let d = dirs();
    let map = RootContextMap::new(&config_path(), &vec![named("work")], &d);
    let q = QueryConfig::default();
    let ctx = CloneContext::new(&map, None, "gifnksm/souko", &q).unwrap();
    assert_eq!(ctx.root().value().name(), "default");
    assert_eq!(ctx.query().url(), "https://github.com/gifnksm/souko.git");
    let ctx = CloneContext::new(&map, Some("work"), "gl:a/b", &q).unwrap();
    assert_eq!(ctx.root().value().name(), "work");
    assert_eq!(ctx.query().url(), "https://gitlab.com/a/b.git");
    match CloneContext::new(&map, Some("nope"), "gifnksm/souko", &q) {
        Err(e @ CloneContextError::RootNotFound(_)) => {
            assert_eq!(e.message(), "root `nope` not found in config file")
        }
        _ => panic!("expected a missing root"),
    }
    let empty = QueryConfig::new(None);
    match CloneContext::new(&map, None, "a/b", &empty) {
        Err(e @ CloneContextError::InvalidQuery { .. }) => {
            assert_eq!(e.message(), "invalid query: a/b")
        }
        _ => panic!("expected an invalid query"),
    }
}

#[test]
fn missing_config_file() {
    let path = config_path();
    let c = choose_config(None, &AppParamSource::ImplicitDefault, &path).unwrap();
    assert!(c.roots.is_empty());
    assert_eq!(c.query.default_scheme().map(|s| s.as_str()), Some("gh"));
    let err = choose_config(None, &AppParamSource::CommandLineArgument, &path).unwrap_err();
    assert_eq!(err.message(), "config file not found: ~/.config/souko/config.toml");
    let given = Config { roots: vec![named("r")], query: QueryConfig::new(None) };
    let c = choose_config(Some(given), &AppParamSource::CommandLineArgument, &path).unwrap();
    assert_eq!(c.roots.len(), 1);
}

#[test]
fn dir_entries_under_a_root() {
    let (root, _) = sample();
    let e = DirEntry::new(&root, "/home/u/.local/share/souko/root/github.com/.cache");
    assert_eq!(e.relative_path(), "github.com/.cache");
    assert_eq!(e.path().as_display_path(), "~/.local/share/souko/root/github.com/.cache");
    assert!(e.is_hidden());
    assert_eq!(e.root().name(), "default");
}

#[test]
fn clone_destination_paths() {
    assert_eq!(clone_relative_path("github.com", "/gifnksm/souko.git"), "github.com/gifnksm/souko");
    assert_eq!(clone_relative_path("h", "//a/b"), "h/a/b");
    assert_eq!(clone_relative_path("h", ".git"), "h/");
    assert_eq!(
        clone_relative_path_of_url("https://github.com/gifnksm/souko.git").as_deref(),
        Some("github.com/gifnksm/souko")
    );
    assert_eq!(
        clone_relative_path_of_url("ssh://git@github.com/gifnksm/souko.git").as_deref(),
        Some("github.com/gifnksm/souko")
    );
    assert_eq!(clone_relative_path_of_url("file:///tmp/x"), None);
    assert_eq!(clone_relative_path_of_url("not a url"), None);
}

#[test]
fn global_context_from_paths() {
    let d = dirs();
    let cfg = path_param(None, d.config_dir(), "config.toml", &d);
    assert!(cfg.source().is_implicit_default());
    assert_eq!(cfg.value().as_real_path(), "/home/u/.config/souko/config.toml");
    assert_eq!(cfg.value().as_display_path(), "~/.config/souko/config.toml");
    let cache = path_param(Some("repos.json".into()), d.cache_dir(), "repos.json", &d);
    assert!(cache.source().is_command_line_argument());
    assert_eq!(cache.value().as_real_path(), "/work/repos.json");

    let g = GlobalContext::new(&cfg, None, cache.value().clone(), &d).unwrap();
    assert_eq!(g.repo_cache_path().as_real_path(), "/work/repos.json");
    assert!(g.root_map().default_root().source().is_implicit_default());
    assert_eq!(g.query().default_scheme().map(|s| s.as_str()), Some("gh"));

    let given = path_param(Some("/etc/souko.toml".into()), d.config_dir(), "config.toml", &d);
    let err = GlobalContext::new(&given, None, cache.value().clone(), &d).unwrap_err();
    assert_eq!(err.message(), "config file not found: /etc/souko.toml");
}

#[test]
fn list_context_from_options() {
    let d = dirs();
    let cfg = path_param(None, d.config_dir(), "config.toml", &d);
    let cache = path_param(None, d.cache_dir(), "repos.json", &d);
    let g = GlobalContext::new(&cfg, None, cache.value().clone(), &d).unwrap();

    let args = souko::cli::ListArgs {
        root_name: None,
        format: FormatArgs { json: true, template: None },
    };
    let ctx = souko::list::ListContext::new(&g, &args).unwrap();
    assert_eq!(ctx.roots().len(), 1);
    assert!(matches!(ctx.format(), Format::Json));
    assert!(args.root_name().is_none());

    let args = souko::cli::ListArgs {
        root_name: Some(vec!["nope".into()]),
        format: FormatArgs { json: false, template: Some(Template::parse("{bad}").unwrap()) },
    };
    let err = souko::list::ListContext::new(&g, &args).unwrap_err();
    assert_eq!(err.message(), "root `nope` not found in config file");

    let args = souko::cli::ListArgs {
        root_name: Some(vec!["default".into()]),
        format: FormatArgs { json: false, template: Some(Template::parse("{bad}").unwrap()) },
    };
    let err = souko::list::ListContext::new(&g, &args).unwrap_err();
    assert_eq!(err.message(), "unknown template variable `bad`");

    let clone_args = souko::cli::CloneArgs { root_name: Some("default".into()), query: "gh:a/b".into() };
    assert_eq!(clone_args.root_name(), Some("default"));
    assert_eq!(clone_args.query(), "gh:a/b");
}
