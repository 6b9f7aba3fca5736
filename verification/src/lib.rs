//! Configuration of the interactive rebase tool, read from the Git configuration
//! system.
//!
//! The settings that the tool reads live under the `interactive-rebase-tool`
//! section of the Git configuration. A setting that Git reports as not set
//! takes its default; a setting whose value Git cannot read, or whose value is
//! not valid, yields a [`ConfigError`] that names the setting and says what is
//! wrong with it (for Git's own errors, Git's message).
//!
//! [`Config`] holds the seven settings of the diff view and of the list:
//! `autoSelectNext`, `diffIgnoreWhitespace`, `diffShowWhitespace`,
//! `diffSpaceSymbol`, `diffTabSymbol`, `diffTabWidth` and `undoLimit`. It holds
//! no key bindings, no theme colours and no options of Git itself: those are
//! not read here, and a value under their names is never checked, so it never
//! makes reading the configuration fail.

pub mod configuration;
pub mod error;
pub mod git_source;
pub mod resolve;
pub mod settings;
pub mod text;

pub use configuration::{Config, ConfigView, GitSettings, GitSettingsView};
pub use error::{ConfigError, ConfigErrorView, InvalidValue, InvalidValueView};
pub use git_source::{Answer, AnswerView, GitFailure, GitFailureView, Lookup, LookupView};
pub use settings::{DiffIgnoreWhitespaceSetting, DiffShowWhitespaceSetting};
