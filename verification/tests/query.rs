use souko::query::{Query, QueryConfig};
use souko::scheme::Scheme;
use souko::template::Template;

fn scheme(s: &str) -> Scheme {
    Scheme::from_str(s).unwrap()
}

fn template(s: &str) -> Template {
    Template::parse(s).unwrap()
}

#[test]
fn test_parse_with_empty_config() {
    let config = QueryConfig::new(None);

    let query = Query::parse("ssh://github.com/gifnksm/souko.git", &config).unwrap();
    assert_eq!(query.url(), "ssh://github.com/gifnksm/souko.git");

    let query = Query::parse("https://github.com/gifnksm/souko.git", &config).unwrap();
    assert_eq!(query.url(), "https://github.com/gifnksm/souko.git");

    let query = Query::parse("git@github.com:gifnksm/souko.git", &config).unwrap();
    assert_eq!(query.url(), "ssh://git@github.com/gifnksm/souko.git");

    let err = Query::parse("gifnksm/souko", &config).unwrap_err();
    assert_eq!(err.message(), "no scheme specified `gifnksm/souko`");
}

#[test]
fn test_parse_with_default_config() {
    let mut config = QueryConfig::new(Some(scheme("gh")));
    config.insert_scheme_alias(scheme("gh"), scheme("github"));
    config.insert_scheme_alias(scheme("gl"), scheme("gitlab"));
    config.insert_custom_scheme(scheme("github"), template("https://github.com/{path}.git"));
    config.insert_custom_scheme(scheme("gitlab"), template("https://gitlab.com/{path}.git"));

    let query = Query::parse("ssh://github.com/gifnksm/souko.git", &config).unwrap();
    assert_eq!(query.url(), "ssh://github.com/gifnksm/souko.git");

    let query = Query::parse("https://github.com/gifnksm/souko.git", &config).unwrap();
    assert_eq!(query.url(), "https://github.com/gifnksm/souko.git");

    let query = Query::parse("git@github.com:gifnksm/souko.git", &config).unwrap();
    assert_eq!(query.url(), "ssh://git@github.com/gifnksm/souko.git");

    let query = Query::parse("gh:gifnksm/souko", &config).unwrap();
    assert_eq!(query.url(), "https://github.com/gifnksm/souko.git");

    let query = Query::parse("gl:gifnksm/souko", &config).unwrap();
    assert_eq!(query.url(), "https://gitlab.com/gifnksm/souko.git");

    let query = Query::parse("gifnksm/souko", &config).unwrap();
    assert_eq!(query.url(), "https://github.com/gifnksm/souko.git");
}

#[test]
fn test_parse_with_cyclic_config() {
    let mut config = QueryConfig::new(Some(scheme("gh")));
    config.insert_scheme_alias(scheme("c1"), scheme("c2"));
    config.insert_scheme_alias(scheme("c2"), scheme("c3"));
    config.insert_scheme_alias(scheme("c3"), scheme("c1"));
    config.insert_scheme_alias(scheme("d1"), scheme("d2"));
    config.insert_scheme_alias(scheme("d3"), scheme("d4"));
    config.insert_custom_scheme(scheme("d2"), template("d3:x{path}"));
    config.insert_custom_scheme(scheme("d4"), template("d1:y{path}"));

    let err = Query::parse("c1:test", &config).unwrap_err();
    assert_eq!(err.message(), "invalid config: circular alias `c1:test`");

    let err = Query::parse("d4:test", &config).unwrap_err();
    assert_eq!(
        err.message(),
        "invalid config: circular alias `d4:test` (expanded to `d4:xytest`)"
    );
}

#[test]
fn deserialize_query_without_scheme_alias_applies_overrides_and_merges_defaults() {
    // [query] default_scheme = "gl", with custom schemes `github` and `sourcehut`.
    let config = QueryConfig::from_overrides(
        Some(scheme("gl")),
        vec![],
        vec![
            (scheme("github"), template("https://example.com/{path}")),
            (scheme("sourcehut"), template("https://git.sr.ht/~{path}")),
        ],
    );

    assert_eq!(config.default_scheme().map(|s| s.as_str()), Some("gl"));
    assert_eq!(
        config.scheme_alias(&"gh".to_owned()).map(|s| s.as_str()),
        Some("github")
    );
    assert_eq!(
        config.scheme_alias(&"gl".to_owned()).map(|s| s.as_str()),
        Some("gitlab")
    );

    let query = Query::parse("github:gifnksm/souko", &config).unwrap();
    assert_eq!(query.url(), "https://example.com/gifnksm/souko");

    let query = Query::parse("sourcehut:gifnksm/souko", &config).unwrap();
    assert_eq!(query.url(), "https://git.sr.ht/~gifnksm/souko");

    let query = Query::parse("gl:gifnksm/souko", &config).unwrap();
    assert_eq!(query.url(), "https://gitlab.com/gifnksm/souko.git");
}

#[test]
fn deserialize_query_without_custom_scheme_keeps_default_schemes() {
    // [query] default_scheme = "gh"
    let config = QueryConfig::from_overrides(Some(scheme("gh")), vec![], vec![]);

    assert_eq!(config.default_scheme().map(|s| s.as_str()), Some("gh"));

    let query = Query::parse("gh:gifnksm/souko", &config).unwrap();
    assert_eq!(query.url(), "https://github.com/gifnksm/souko.git");

    let query = Query::parse("gl:gifnksm/souko", &config).unwrap();
    assert_eq!(query.url(), "https://gitlab.com/gifnksm/souko.git");
}

#[test]
fn default_settings_read_short_queries() {
    let config = QueryConfig::default();
    let query = Query::parse("gifnksm/souko", &config).unwrap();
    assert_eq!(query.original_query(), "gifnksm/souko");
    assert_eq!(query.url(), "https://github.com/gifnksm/souko.git");
}

#[test]
fn invalid_url_error_names_the_query() {
    let config = QueryConfig::new(None);
    let err = Query::parse("https://[::1", &config).unwrap_err();
    assert!(err.message().starts_with("invalid URL `https://[::1`: "));
}

#[test]
fn later_override_replaces_earlier_alias() {
    let config = QueryConfig::from_overrides(
        None,
        vec![(scheme("gh"), scheme("gitlab")), (scheme("gh"), scheme("github"))],
        vec![],
    );
    assert_eq!(
        config.scheme_alias(&"gh".to_owned()).map(|s| s.as_str()),
        Some("github")
    );
    assert_eq!(config.default_scheme().map(|s| s.as_str()), Some("gh"));
}

#[test]
fn urls_come_back_in_their_serialized_form() {
    let config = QueryConfig::new(None);
    let query = Query::parse("https://GitHub.com/a/b", &config).unwrap();
    assert_eq!(query.url(), "https://github.com/a/b");
    assert_eq!(query.original_query(), "https://GitHub.com/a/b");
    let query = Query::parse("https://github.com", &config).unwrap();
    assert_eq!(query.url(), "https://github.com/");
}
