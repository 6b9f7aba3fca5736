//! The value of each kind of setting, from what Git answered for its name.
//!
//! A name that is not set gives the setting's default; an answer that Git could
//! not give is an error that names the setting and carries Git's message.
use vstd::prelude::*;

use crate::error::{outcome, ConfigError, ConfigErrorView, InvalidValue, InvalidValueView};
use crate::git_source::{lookup_from_reply, GitFailureView, Lookup, LookupView};
use crate::settings::{
    ignore_whitespace_named, show_whitespace_named, DiffIgnoreWhitespaceSetting,
    DiffShowWhitespaceSetting,
};
use crate::text::{lowercase, to_lowercase};

verus! {

/// The name of the setting that says whether the next line is selected after an action.
pub const AUTO_SELECT_NEXT_KEY: &'static str = "interactive-rebase-tool.autoSelectNext";

/// The name of the setting that says how whitespace is handled in diffs.
pub const DIFF_IGNORE_WHITESPACE_KEY: &'static str = "interactive-rebase-tool.diffIgnoreWhitespace";

/// The name of the setting that says which whitespace is shown in diffs.
pub const DIFF_SHOW_WHITESPACE_KEY: &'static str = "interactive-rebase-tool.diffShowWhitespace";

/// The name of the setting that gives the symbol shown for a space.
pub const DIFF_SPACE_SYMBOL_KEY: &'static str = "interactive-rebase-tool.diffSpaceSymbol";

/// The name of the setting that gives the symbol shown for a tab.
pub const DIFF_TAB_SYMBOL_KEY: &'static str = "interactive-rebase-tool.diffTabSymbol";

/// The name of the setting that gives the display width of a tab.
pub const DIFF_TAB_WIDTH_KEY: &'static str = "interactive-rebase-tool.diffTabWidth";

/// The name of the setting that gives the largest number of undo steps.
pub const UNDO_LIMIT_KEY: &'static str = "interactive-rebase-tool.undoLimit";

/// The error for a setting that Git could not read.
pub open spec fn git_failure(name: Seq<char>, message: Seq<char>) -> ConfigErrorView {
    ConfigErrorView { name, reason: InvalidValueView::Git(message) }
}

/// A boolean setting: Git's value, or `default` when the name is not set.
pub open spec fn bool_setting(name: Seq<char>, lookup: LookupView<bool>, default: bool) -> Result<
    bool,
    ConfigErrorView,
> {
    match lookup {
        LookupView::Missing => Ok(default),
        LookupView::Found(v) => Ok(v),
        LookupView::Failed(message) => Err(git_failure(name, message)),
    }
}

/// A text setting: Git's text, or `default` when the name is not set.
pub open spec fn string_setting(
    name: Seq<char>,
    lookup: LookupView<Seq<char>>,
    default: Seq<char>,
) -> Result<Seq<char>, ConfigErrorView> {
    match lookup {
        LookupView::Missing => Ok(default),
        LookupView::Found(v) => Ok(v),
        LookupView::Failed(message) => Err(git_failure(name, message)),
    }
}

/// An unsigned 32-bit setting: Git's 32-bit integer when it is not negative,
/// or `default` when the name is not set; a negative integer is out of range.
pub open spec fn unsigned_setting(name: Seq<char>, lookup: LookupView<i32>, default: u32) -> Result<
    u32,
    ConfigErrorView,
> {
    match lookup {
        LookupView::Missing => Ok(default),
        LookupView::Found(v) => if v >= 0 {
            Ok(v as u32)
        } else {
            Err(ConfigErrorView { name, reason: InvalidValueView::OutOfRange(v) })
        },
        LookupView::Failed(message) => Err(git_failure(name, message)),
    }
}

/// The ignore-whitespace setting: the one named by the lowercase form of Git's
/// text, [`Off`](DiffIgnoreWhitespaceSetting::Off) when the name is not set, and
/// an error carrying the lowercase form when it names none.
pub open spec fn ignore_whitespace_setting(lookup: LookupView<Seq<char>>) -> Result<
    DiffIgnoreWhitespaceSetting,
    ConfigErrorView,
> {
    match lookup {
        LookupView::Missing => Ok(DiffIgnoreWhitespaceSetting::Off),
        LookupView::Found(v) => match ignore_whitespace_named(lowercase(v)) {
            Some(setting) => Ok(setting),
            None => Err(
                ConfigErrorView {
                    name: DIFF_IGNORE_WHITESPACE_KEY@,
                    reason: InvalidValueView::NotIgnoreWhitespace(lowercase(v)),
                },
            ),
        },
        LookupView::Failed(message) => Err(git_failure(DIFF_IGNORE_WHITESPACE_KEY@, message)),
    }
}

/// The show-whitespace setting: the one named by the lowercase form of Git's
/// text, [`Both`](DiffShowWhitespaceSetting::Both) when the name is not set,
/// and an error carrying the lowercase form when it names none.
pub open spec fn show_whitespace_setting(lookup: LookupView<Seq<char>>) -> Result<
    DiffShowWhitespaceSetting,
    ConfigErrorView,
> {
    match lookup {
        LookupView::Missing => Ok(DiffShowWhitespaceSetting::Both),
        LookupView::Found(v) => match show_whitespace_named(lowercase(v)) {
            Some(setting) => Ok(setting),
            None => Err(
                ConfigErrorView {
                    name: DIFF_SHOW_WHITESPACE_KEY@,
                    reason: InvalidValueView::NotShowWhitespace(lowercase(v)),
                },
            ),
        },
        LookupView::Failed(message) => Err(git_failure(DIFF_SHOW_WHITESPACE_KEY@, message)),
    }
}

/// The error for the setting `name` that Git could not read.
fn git_error(name: &str, message: String) -> (r: ConfigError)
    ensures
        r@ == git_failure(name@, message@),
{
    ConfigError { name: String::from_str(name), reason: InvalidValue::Git(message) }
}

/// The boolean setting `name`, from Git's answer.
pub fn resolve_bool(name: &str, lookup: Lookup<bool>, default: bool) -> (r: Result<bool, ConfigError>)
    ensures
        outcome(r) == bool_setting(name@, lookup@, default),
{
    match lookup {
        Lookup::Missing => Ok(default),
        Lookup::Found(v) => Ok(v),
        Lookup::Failed(message) => Err(git_error(name, message)),
    }
}

/// The text setting `name`, from Git's answer.
pub fn resolve_string(name: &str, lookup: Lookup<String>, default: &str) -> (r: Result<
    String,
    ConfigError,
>)
    ensures
        outcome(r) == string_setting(name@, lookup@, default@),
{
    match lookup {
        Lookup::Missing => Ok(String::from_str(default)),
        Lookup::Found(v) => Ok(v),
        Lookup::Failed(message) => Err(git_error(name, message)),
    }
}

/// The unsigned 32-bit setting `name`, from Git's answer.
pub fn resolve_unsigned_integer(name: &str, lookup: Lookup<i32>, default: u32) -> (r: Result<
    u32,
    ConfigError,
>)
    ensures
        outcome(r) == unsigned_setting(name@, lookup@, default),
{
    match lookup {
        Lookup::Missing => Ok(default),
        Lookup::Found(v) => {
            if v >= 0 {
                Ok(v as u32)
            } else {
                Err(ConfigError { name: String::from_str(name), reason: InvalidValue::OutOfRange(v) })
            }
        },
        Lookup::Failed(message) => Err(git_error(name, message)),
    }
}

/// The ignore-whitespace setting, from Git's answer for its name.
pub fn resolve_diff_ignore_whitespace(lookup: Lookup<String>) -> (r: Result<
    DiffIgnoreWhitespaceSetting,
    ConfigError,
>)
    ensures
        outcome(r) == ignore_whitespace_setting(lookup@),
{
    match lookup {
        Lookup::Missing => Ok(DiffIgnoreWhitespaceSetting::Off),
        Lookup::Found(v) => {
            let word = to_lowercase(v.as_str());
            match DiffIgnoreWhitespaceSetting::from_word(&word) {
                Some(setting) => Ok(setting),
                None => Err(
                    ConfigError {
                        name: String::from_str(DIFF_IGNORE_WHITESPACE_KEY),
                        reason: InvalidValue::NotIgnoreWhitespace(word),
                    },
                ),
            }
        },
        Lookup::Failed(message) => Err(git_error(DIFF_IGNORE_WHITESPACE_KEY, message)),
    }
}

/// The show-whitespace setting, from Git's answer for its name.
pub fn resolve_diff_show_whitespace(lookup: Lookup<String>) -> (r: Result<
    DiffShowWhitespaceSetting,
    ConfigError,
>)
    ensures
        outcome(r) == show_whitespace_setting(lookup@),
{
    match lookup {
        Lookup::Missing => Ok(DiffShowWhitespaceSetting::Both),
        Lookup::Found(v) => {
            let word = to_lowercase(v.as_str());
            match DiffShowWhitespaceSetting::from_word(&word) {
                Some(setting) => Ok(setting),
                None => Err(
                    ConfigError {
                        name: String::from_str(DIFF_SHOW_WHITESPACE_KEY),
                        reason: InvalidValue::NotShowWhitespace(word),
                    },
                ),
            }
        },
        Lookup::Failed(message) => Err(git_error(DIFF_SHOW_WHITESPACE_KEY, message)),
    }
}

/// A setting that is not set takes its default, whatever its kind; one that
/// Git could not read is refused with an error that names it and carries
/// Git's message.
pub proof fn lemma_unset_takes_default_and_failure_is_reported(
    name: Seq<char>,
    message: Seq<char>,
    flag: bool,
    text: Seq<char>,
    number: u32,
)
    ensures
        bool_setting(name, LookupView::Missing, flag) == Ok::<bool, ConfigErrorView>(flag),
        string_setting(name, LookupView::Missing, text) == Ok::<Seq<char>, ConfigErrorView>(text),
        unsigned_setting(name, LookupView::Missing, number) == Ok::<u32, ConfigErrorView>(number),
        ignore_whitespace_setting(LookupView::Missing) == Ok::<
            DiffIgnoreWhitespaceSetting,
            ConfigErrorView,
        >(DiffIgnoreWhitespaceSetting::Off),
        show_whitespace_setting(LookupView::Missing) == Ok::<
            DiffShowWhitespaceSetting,
            ConfigErrorView,
        >(DiffShowWhitespaceSetting::Both),
        bool_setting(name, LookupView::Failed(message), flag) == Err::<bool, ConfigErrorView>(
            git_failure(name, message),
        ),
        string_setting(name, LookupView::Failed(message), text) == Err::<
            Seq<char>,
            ConfigErrorView,
        >(git_failure(name, message)),
        unsigned_setting(name, LookupView::Failed(message), number) == Err::<u32, ConfigErrorView>(
            git_failure(name, message),
        ),
        ignore_whitespace_setting(LookupView::Failed(message)) == Err::<
            DiffIgnoreWhitespaceSetting,
            ConfigErrorView,
        >(git_failure(DIFF_IGNORE_WHITESPACE_KEY@, message)),
        show_whitespace_setting(LookupView::Failed(message)) == Err::<
            DiffShowWhitespaceSetting,
            ConfigErrorView,
        >(git_failure(DIFF_SHOW_WHITESPACE_KEY@, message)),
{
}

/// An unsigned setting takes exactly the 32-bit integers that are not
/// negative, unchanged; a negative one is refused as out of range.
pub proof fn lemma_unsigned_takes_exactly_non_negative(name: Seq<char>, v: i32, default: u32)
    ensures
        unsigned_setting(name, LookupView::Found(v), default) is Ok <==> v >= 0,
        v >= 0 ==> unsigned_setting(name, LookupView::Found(v), default)->Ok_0 == v,
        v < 0 ==> unsigned_setting(name, LookupView::Found(v), default) == Err::<
            u32,
            ConfigErrorView,
        >(ConfigErrorView { name, reason: InvalidValueView::OutOfRange(v) }),
{
}

/// The whitespace settings ignore letter case: two values with the same
/// lowercase form give the same setting, or the same error.
pub proof fn lemma_whitespace_values_ignore_case(a: Seq<char>, b: Seq<char>)
    requires
        lowercase(a) == lowercase(b),
    ensures
        ignore_whitespace_setting(LookupView::Found(a)) == ignore_whitespace_setting(
            LookupView::Found(b),
        ),
        show_whitespace_setting(LookupView::Found(a)) == show_whitespace_setting(
            LookupView::Found(b),
        ),
{
}

/// Git's answer decides each kind of setting: a value that Git gives is
/// taken (whitespace words by their lowercase form), an error whose code says
/// that the name is not set gives the default, and any other error of Git's is
/// reported under the setting's name with Git's message.
pub proof fn lemma_git_reply_decides_setting(
    name: Seq<char>,
    failure: GitFailureView,
    flag: bool,
    text: Seq<char>,
    number: u32,
    given_flag: bool,
    given_text: Seq<char>,
)
    ensures
        bool_setting(name, lookup_from_reply(Ok::<bool, GitFailureView>(given_flag)), flag) == Ok::<
            bool,
            ConfigErrorView,
        >(given_flag),
        string_setting(name, lookup_from_reply(Ok::<Seq<char>, GitFailureView>(given_text)), text)
            == Ok::<Seq<char>, ConfigErrorView>(given_text),
        bool_setting(name, lookup_from_reply(Err::<bool, GitFailureView>(failure)), flag) == if failure.not_found {
            Ok::<bool, ConfigErrorView>(flag)
        } else {
            Err(git_failure(name, failure.message))
        },
        string_setting(name, lookup_from_reply(Err::<Seq<char>, GitFailureView>(failure)), text)
            == if failure.not_found {
            Ok::<Seq<char>, ConfigErrorView>(text)
        } else {
            Err(git_failure(name, failure.message))
        },
        unsigned_setting(name, lookup_from_reply(Err::<i32, GitFailureView>(failure)), number)
            == if failure.not_found {
            Ok::<u32, ConfigErrorView>(number)
        } else {
            Err(git_failure(name, failure.message))
        },
        ignore_whitespace_setting(lookup_from_reply(Err::<Seq<char>, GitFailureView>(failure)))
            == if failure.not_found {
            Ok::<DiffIgnoreWhitespaceSetting, ConfigErrorView>(DiffIgnoreWhitespaceSetting::Off)
        } else {
            Err(git_failure(DIFF_IGNORE_WHITESPACE_KEY@, failure.message))
        },
        show_whitespace_setting(lookup_from_reply(Err::<Seq<char>, GitFailureView>(failure)))
            == if failure.not_found {
            Ok::<DiffShowWhitespaceSetting, ConfigErrorView>(DiffShowWhitespaceSetting::Both)
        } else {
            Err(git_failure(DIFF_SHOW_WHITESPACE_KEY@, failure.message))
        },
{
}

} // verus!
