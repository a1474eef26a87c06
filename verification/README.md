# hyrax

A git-based dependency manager: `hyrax add` records a dependency (a git
repository, or one folder or file of it) in `hyrax.toml`, `hyrax sync`
installs every dependency into the project and locks the commit it installed,
and `hyrax check` tells whether the installed commits are still current.

- `src/` is the verified library: the configuration model (`config`), the
  command line model (`cli`), the rules of adding, checking and syncing
  dependencies (`installer`), and the decisions of the front end (`command`,
  `file_helper`, `global`).
- `app/` is the program around it: argument parsing, the terminal, git
  operations on disk and over the network, and reading and writing
  `hyrax.toml`.
