use souko::fs_outcome::{
    allow_missing, ensure_dir_exist_outcome, ensure_dir_removed_outcome, format_error_chain,
    EnsureDirExistError, IoErrorKind,
};
use souko::name_map::NameMap;
use souko::pretty_path::PrettyPath;
use souko::repo_index::{Repo as IndexedRepo, RepoIndex};
use souko::walk::{
    next_entry_step, next_found_repo_step, next_search_step, path_is_hidden, FoundRepoStep,
    Repo as WalkedRepo, WalkOptions, WalkStep,
};

#[test]
fn dir_exist_outcomes() {
    assert_eq!(ensure_dir_exist_outcome(Ok(()), true), Ok(true));
    assert_eq!(ensure_dir_exist_outcome(Err(IoErrorKind::AlreadyExists), true), Ok(false));
    assert_eq!(
        ensure_dir_exist_outcome(Err(IoErrorKind::AlreadyExists), false),
        Err(EnsureDirExistError::Other)
    );
    assert_eq!(
        ensure_dir_exist_outcome(Err(IoErrorKind::NotFound), false),
        Err(EnsureDirExistError::ParentNotExist)
    );
    assert_eq!(
        ensure_dir_exist_outcome(Err(IoErrorKind::Other), true),
        Err(EnsureDirExistError::Other)
    );
}

#[test]
fn dir_removed_outcomes() {
    assert_eq!(ensure_dir_removed_outcome(Ok(()), None), Ok(true));
    assert_eq!(ensure_dir_removed_outcome(Err(IoErrorKind::NotFound), Some(true)), Ok(false));
    assert_eq!(
        ensure_dir_removed_outcome(Err(IoErrorKind::NotFound), Some(false)),
        Err(IoErrorKind::NotFound)
    );
    assert_eq!(
        ensure_dir_removed_outcome(Err(IoErrorKind::NotFound), None),
        Err(IoErrorKind::NotFound)
    );
    assert_eq!(
        ensure_dir_removed_outcome(Err(IoErrorKind::Other), Some(true)),
        Err(IoErrorKind::Other)
    );
}

#[test]
fn missing_files_may_be_allowed() {
    assert_eq!(allow_missing(Ok(3), false), Ok(Some(3)));
    assert_eq!(allow_missing::<i32>(Err(IoErrorKind::NotFound), true), Ok(None));
    assert_eq!(
        allow_missing::<i32>(Err(IoErrorKind::NotFound), false),
        Err(IoErrorKind::NotFound)
    );
    assert_eq!(
        allow_missing::<i32>(Err(IoErrorKind::Other), true),
        Err(IoErrorKind::Other)
    );
}

#[test]
fn error_chains() {
    assert_eq!(format_error_chain(&vec![]), "");
    assert_eq!(format_error_chain(&vec!["a".into()]), "a");
    assert_eq!(
        format_error_chain(&vec!["a".into(), "b".into(), "c".into()]),
        "a\n  caused by: b\n  caused by: c"
    );
}

#[test]
fn repo_index_keeps_paths_once() {
    let mut index = RepoIndex::new();
    assert!(index.push(IndexedRepo::new("/a".into())));
    assert!(index.push(IndexedRepo::new("/b".into())));
    assert!(!index.push(IndexedRepo::new("/a".into())));
    let paths: Vec<&str> = index.repos().iter().map(|r| r.path()).collect();
    assert_eq!(paths, vec!["/a", "/b"]);
}

#[test]
fn name_map_operations() {
    let mut m: NameMap<i32> = NameMap::new();
    m.insert("b".into(), 2);
    m.insert("a".into(), 1);
    m.insert("c".into(), 3);
    m.insert("b".into(), 20);
    assert_eq!(m.get("b"), Some(&20));
    assert_eq!(m.values(), vec![&1, &20, &3]);
    assert_eq!(m.remove("a"), Some(1));
    assert_eq!(m.remove("a"), None);
    assert!(!m.contains("a"));
    let keys: Vec<&str> = m.pairs().iter().map(|(k, _)| *k).collect();
    assert_eq!(keys, vec!["b", "c"]);
}

#[test]
fn walk_steps() {
    assert_eq!(next_entry_step(false, true), WalkStep::Skip);
    assert_eq!(next_entry_step(true, false), WalkStep::SkipSubtree);
    assert_eq!(next_entry_step(true, true), WalkStep::Yield);
    let default = WalkOptions { visit_hidden_dirs: false, visit_repo_subdirs: false, include_bare_repo: false };
    let all = WalkOptions { visit_hidden_dirs: true, visit_repo_subdirs: true, include_bare_repo: true };
    assert_eq!(next_search_step(false, false, default), WalkStep::Skip);
    assert_eq!(next_search_step(true, true, default), WalkStep::SkipSubtree);
    assert_eq!(next_search_step(true, true, all), WalkStep::Yield);
    assert_eq!(next_search_step(true, false, default), WalkStep::Yield);
    assert_eq!(
        next_found_repo_step(true, default),
        FoundRepoStep { listed: false, skip_subtree: true }
    );
    assert_eq!(
        next_found_repo_step(false, default),
        FoundRepoStep { listed: true, skip_subtree: true }
    );
    assert_eq!(
        next_found_repo_step(true, all),
        FoundRepoStep { listed: true, skip_subtree: false }
    );
}

#[test]
fn hidden_entries() {
    assert!(path_is_hidden("/root/.hidden"));
    assert!(path_is_hidden("/root/.git/"));
    assert!(!path_is_hidden("/root/visible"));
    assert!(!path_is_hidden("/"));
    assert!(!path_is_hidden("/root/.."));
}

#[test]
fn walked_repo_paths() {
    let root = PrettyPath::from_pair("/home/u/repos".into(), "~/repos".into());
    let r = WalkedRepo::new(&root, "/home/u/repos/github.com/a/b", "/real/b".into());
    assert_eq!(r.name(), "github.com/a/b");
    assert_eq!(r.display_path(), "~/repos/github.com/a/b");
    assert_eq!(r.absolute_path(), "/real/b");
}

#[test]
fn repo_index_after_many_pushes() {
    let mut index = RepoIndex::new();
    for p in ["/c", "/a", "/c", "/b", "/a"] {
        index.push(IndexedRepo::new(p.into()));
    }
    let paths: Vec<&str> = index.repos().iter().map(|r| r.path()).collect();
    assert_eq!(paths, vec!["/c", "/a", "/b"]);
}

#[test]
fn repo_index_compares_paths_by_components() {
    let mut index = RepoIndex::new();
    assert!(index.push(IndexedRepo::new("a/b".into())));
    assert!(!index.push(IndexedRepo::new("a//b".into())));
    assert!(!index.push(IndexedRepo::new("a/b/".into())));
    assert!(!index.push(IndexedRepo::new("a/./b".into())));
    assert!(index.push(IndexedRepo::new("./a/b".into())));
    assert!(index.push(IndexedRepo::new("/a/b".into())));
    let paths: Vec<&str> = index.repos().iter().map(|r| r.path()).collect();
    assert_eq!(paths, vec!["a/b", "./a/b", "/a/b"]);
}
