# souko

Souko organizes clones of remote git repositories under named root directories:
`souko clone gifnksm/souko` clones into `ROOT/github.com/gifnksm/souko`, and `souko list`
lists the repositories found under the roots.

The library in `src/` holds the program's rules, each function with a contract proved by
Verus:

- `scheme`, `template`, `query`: URL schemes, `{name}` templates, and how a query such as
  `gh:gifnksm/souko` is expanded through aliases and custom schemes to a URL.
- `path`, `pretty_path`: Unix path operations (`join`, `strip_prefix`, `parent`,
  `file_name`, trailing separators) and paths kept both as real paths and as shown to the
  user with `~`.
- `roots`, `root_map`, `config`, `param`, `project_dirs`, `cli`, `souko`: the configuration,
  the roots it declares (the `default` root is always present), the application's
  directories, and the command line.
- `name_map`: maps keyed by names, kept in ascending name order.
- `repo`, `repo_cache`, `repo_index`, `walk`, `list`, `clone`, `fs_outcome`: repositories under
  roots, the repository cache, what the directory walk does with each entry, the `list` and
  `clone` commands' decisions, and what file-system failures mean.

`app/` is the executable around it: argument parsing with `clap`, reading and writing files,
walking directories with `walkdir`, and cloning with `git2`.

`tests/` runs the library on concrete values.
