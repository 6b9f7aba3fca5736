//! What a Git configuration holds under a name, as plain values.
//!
//! Git is asked for a value through the `git2` crate. What it answers depends
//! on the configuration files that were loaded, so nothing is claimed of the
//! answer beyond its shape: a value, the fact that the name is not set, or the
//! message of the error that Git reported.
use git2::Config as GitConfig;
use vstd::prelude::*;
use vstd::string::*;

verus! {

/// A Git configuration, as loaded by `git2`.
#[verifier::external_type_specification]
#[verifier::external_body]
pub struct ExGitConfig(GitConfig);

/// An error reported by `git2`.
#[verifier::external_type_specification]
#[verifier::external_body]
pub struct ExGitError(git2::Error);

/// Calls `git2::Config::get_bool`: the boolean that Git reads under `name`, or
/// Git's error. What comes back depends on the loaded configuration files, so
/// no clause states it.
#[verifier::external_body]
fn config_get_bool(config: &GitConfig, name: &str) -> Result<bool, git2::Error> {
    config.get_bool(name)
}

/// Calls `git2::Config::get_i32`: the 32-bit integer that Git reads under
/// `name`, or Git's error. What comes back depends on the loaded configuration
/// files, so no clause states it.
#[verifier::external_body]
fn config_get_i32(config: &GitConfig, name: &str) -> Result<i32, git2::Error> {
    config.get_i32(name)
}

/// Calls `git2::Config::get_string`: the text that Git holds under `name`, or
/// Git's error (among them one for a value that is not valid UTF-8). What comes
/// back depends on the loaded configuration files, so no clause states it.
#[verifier::external_body]
fn config_get_string(config: &GitConfig, name: &str) -> Result<String, git2::Error> {
    config.get_string(name)
}

/// Calls `git2::Error::code` and tells whether it is `ErrorCode::NotFound`,
/// the code with which Git answers for a name that is not set. The error is
/// opaque here, so no clause states the answer.
#[verifier::external_body]
fn error_code_is_not_found(error: &git2::Error) -> bool {
    match error.code() {
        git2::ErrorCode::NotFound => true,
        _ => false,
    }
}

/// Calls `git2::Error::message`: the text of Git's error. The error is opaque
/// here, so no clause states the text.
#[verifier::external_body]
fn error_message(error: &git2::Error) -> String {
    error.message().to_string()
}

/// A value together with the name under which Git was asked for it.
#[derive(Clone, Debug, PartialEq, Eq)]
pub struct Answer<T> {
    /// The full name of the setting, such as `interactive-rebase-tool.undoLimit`.
    pub name: String,
    /// What was read under that name.
    pub value: T,
}

/// The model of an [`Answer`].
pub struct AnswerView<T> {
    pub name: Seq<char>,
    pub value: T,
}

impl<T: View> View for Answer<T> {
    type V = AnswerView<T::V>;

    open spec fn view(&self) -> AnswerView<T::V> {
        AnswerView { name: self.name@, value: self.value@ }
    }
}

/// What Git answered when asked for the value of one name.
#[derive(Clone, Debug, PartialEq, Eq)]
pub enum Lookup<T> {
    /// The name is not set.
    Missing,
    /// The name is set to this value.
    Found(T),
    /// Git could not give a value; this is its message.
    Failed(String),
}

/// The model of a [`Lookup`], with text as sequences of characters.
pub enum LookupView<T> {
    Missing,
    Found(T),
    Failed(Seq<char>),
}

impl<T: View> View for Lookup<T> {
    type V = LookupView<T::V>;

    open spec fn view(&self) -> LookupView<T::V> {
        match self {
            Lookup::Missing => LookupView::Missing,
            Lookup::Found(v) => LookupView::Found(v@),
            Lookup::Failed(m) => LookupView::Failed(m@),
        }
    }
}

/// An error that Git reported, as plain values.
#[derive(Clone, Debug, PartialEq, Eq)]
pub struct GitFailure {
    /// Git's error code says that the name is not set.
    pub not_found: bool,
    /// Git's message.
    pub message: String,
}

/// The model of a [`GitFailure`].
pub struct GitFailureView {
    pub not_found: bool,
    pub message: Seq<char>,
}

impl View for GitFailure {
    type V = GitFailureView;

    open spec fn view(&self) -> GitFailureView {
        GitFailureView { not_found: self.not_found, message: self.message@ }
    }
}

/// The model of Git's answer: its value, or the error it reported.
pub open spec fn reply_view<T: View>(reply: Result<T, GitFailure>) -> Result<T::V, GitFailureView> {
    match reply {
        Ok(v) => Ok(v@),
        Err(f) => Err(f@),
    }
}

/// What Git's answer says of a name: a value is found; an error whose code
/// says that the name is not set means that it is missing; any other error is
/// a failure that carries Git's message.
pub open spec fn lookup_from_reply<T>(reply: Result<T, GitFailureView>) -> LookupView<T> {
    match reply {
        Ok(v) => LookupView::Found(v),
        Err(f) => if f.not_found {
            LookupView::Missing
        } else {
            LookupView::Failed(f.message)
        },
    }
}

/// Git's error as plain values: whether its code is `NotFound`, and its
/// message.
fn failure_of(error: &git2::Error) -> GitFailure {
    GitFailure { not_found: error_code_is_not_found(error), message: error_message(error) }
}

/// Git's answer with its error as plain values: a value that Git gives is
/// kept unchanged, and an error stays an error.
fn reply_of<T>(raw: Result<T, git2::Error>) -> (r: Result<T, GitFailure>)
    ensures
        raw is Ok <==> r is Ok,
        raw is Ok ==> r->Ok_0 == raw->Ok_0,
{
    match raw {
        Ok(v) => Ok(v),
        Err(error) => Err(failure_of(&error)),
    }
}

/// Git's answer for a name, turned into a [`Lookup`]: a value is found, an
/// error whose code says that the name is not set makes it missing, and any
/// other error is a failure with Git's message.
pub fn lookup_of<T: View>(reply: Result<T, GitFailure>) -> (r: Lookup<T>)
    ensures
        r@ == lookup_from_reply(reply_view(reply)),
{
    match reply {
        Ok(v) => Lookup::Found(v),
        Err(failure) => {
            if failure.not_found {
                Lookup::Missing
            } else {
                Lookup::Failed(failure.message)
            }
        },
    }
}

/// Asks Git for the boolean under `name`, and answers with that name; with no
/// configuration the name is missing.
pub fn read_bool(git_config: Option<&GitConfig>, name: &str) -> (r: Answer<Lookup<bool>>)
    ensures
        r.name@ == name@,
        git_config is None ==> r.value is Missing,
{
    match git_config {
        Some(config) => {
            let reply = reply_of(config_get_bool(config, name));
            Answer { name: String::from_str(name), value: lookup_of(reply) }
        },
        None => Answer { name: String::from_str(name), value: Lookup::Missing },
    }
}

/// Asks Git for the 32-bit integer under `name`, and answers with that name;
/// with no configuration the name is missing.
pub fn read_i32(git_config: Option<&GitConfig>, name: &str) -> (r: Answer<Lookup<i32>>)
    ensures
        r.name@ == name@,
        git_config is None ==> r.value is Missing,
{
    match git_config {
        Some(config) => {
            let reply = reply_of(config_get_i32(config, name));
            Answer { name: String::from_str(name), value: lookup_of(reply) }
        },
        None => Answer { name: String::from_str(name), value: Lookup::Missing },
    }
}

/// Asks Git for the text under `name`, and answers with that name; with no
/// configuration the name is missing.
pub fn read_string(git_config: Option<&GitConfig>, name: &str) -> (r: Answer<Lookup<String>>)
    ensures
        r.name@ == name@,
        git_config is None ==> r.value is Missing,
{
    match git_config {
        Some(config) => {
            let reply = reply_of(config_get_string(config, name));
            Answer { name: String::from_str(name), value: lookup_of(reply) }
        },
        None => Answer { name: String::from_str(name), value: Lookup::Missing },
    }
}

} // verus!
