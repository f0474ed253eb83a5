use souko::template::{Template, TemplateError};

#[test]
fn expands_known_variables_and_drops_unknown() {
    let t = Template::parse("https://x/{path}.git{none}").unwrap();
    let vars = vec![("path".to_owned(), "a/b".to_owned())];
    assert_eq!(t.expand(&vars), "https://x/a/b.git");
}

#[test]
fn later_value_wins() {
    let t = Template::parse("{v}").unwrap();
    let vars = vec![("v".to_owned(), "1".to_owned()), ("v".to_owned(), "2".to_owned())];
    assert_eq!(t.expand(&vars), "2");
}

#[test]
fn malformed_templates_are_refused() {
    for s in ["a{b", "a}b", "{}", "{a{b}}"] {
        match Template::parse(s) {
            Err(e @ TemplateError::InvalidTemplate { .. }) => {
                assert_eq!(e.message(), format!("invalid template `{s}`"))
            }
            _ => panic!("{s:?} should be refused"),
        }
    }
}

#[test]
fn validation_names_first_unknown() {
    let t = Template::parse("{a}-{b}-{c}").unwrap();
    assert!(t.validate(&vec!["a".into(), "b".into(), "c".into()]).is_ok());
    match t.validate(&vec!["a".into()]) {
        Err(TemplateError::UnknownVariable { name }) => assert_eq!(name, "b"),
        _ => panic!("expected unknown variable"),
    }
}
