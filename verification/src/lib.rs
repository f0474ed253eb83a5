//! Organizes clones of remote git repositories under configurable roots.

mod text;
pub mod assoc;
pub mod scheme;
pub mod template;
pub mod query;
pub mod path;
pub mod pretty_path;
pub mod param;
pub mod name_map;
pub mod roots;
pub mod project_dirs;
pub mod repo;
pub mod repo_cache;
pub mod walk;
pub mod list;
pub mod cli;
pub mod souko;
pub mod root_map;
pub mod fs_outcome;
pub mod repo_index;
pub mod clone;
pub mod config;

pub use query::{Query, QueryConfig, QueryError};
pub use scheme::{Scheme, SchemeParseError};
pub use souko::Souko;
