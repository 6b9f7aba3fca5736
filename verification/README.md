# config

The configuration of the interactive rebase tool, read from Git's configuration
system with the logic proved correct against its contracts.

- `src/settings.rs`: the two whitespace settings of the diff view and the words
  that name them.
- `src/git_source.rs`: asking a `git2::Config` for a value (the only calls into
  `git2`); Git's error becomes a plain `GitFailure`, and `lookup_of` decides
  from it whether the name is not set or could not be read.
- `src/text.rs`: lowercase forms and decimal numbers.
- `src/error.rs`: `ConfigError`, why a value is not valid, and its message.
- `src/resolve.rs`: the value of each kind of setting from Git's answer, and
  the laws about defaults, integer ranges and letter case.
- `src/configuration.rs`: `Config`, built from all the answers; the first
  setting that is not valid is the error.
- `app/lib.rs`: opening a repository and loading its Git configuration.
