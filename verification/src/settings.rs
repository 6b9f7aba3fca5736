//! The two whitespace settings of the diff view, and the words that name them.
use vstd::prelude::*;

verus! {

/// How whitespace is treated when diffs are calculated.
#[derive(Clone, Copy, Debug, PartialEq, Eq, Structural)]
pub enum DiffIgnoreWhitespaceSetting {
    /// Whitespace is not ignored.
    Off,
    /// All whitespace is ignored.
    All,
    /// Changes in the amount of whitespace are ignored.
    Change,
}

/// Which whitespace is made visible in diffs.
#[derive(Clone, Copy, Debug, PartialEq, Eq, Structural)]
pub enum DiffShowWhitespaceSetting {
    /// No whitespace is shown.
    Off,
    /// Trailing whitespace is shown.
    Trailing,
    /// Leading whitespace is shown.
    Leading,
    /// Both leading and trailing whitespace are shown.
    Both,
}

impl View for DiffIgnoreWhitespaceSetting {
    type V = DiffIgnoreWhitespaceSetting;

    open spec fn view(&self) -> DiffIgnoreWhitespaceSetting {
        *self
    }
}

impl View for DiffShowWhitespaceSetting {
    type V = DiffShowWhitespaceSetting;

    open spec fn view(&self) -> DiffShowWhitespaceSetting {
        *self
    }
}

/// The ignore-whitespace setting that a lowercase word names, if it names one.
pub open spec fn ignore_whitespace_named(word: Seq<char>) -> Option<DiffIgnoreWhitespaceSetting> {
    if word == "true"@ || word == "on"@ || word == "all"@ {
        Some(DiffIgnoreWhitespaceSetting::All)
    } else if word == "change"@ {
        Some(DiffIgnoreWhitespaceSetting::Change)
    } else if word == "false"@ || word == "off"@ || word == "none"@ {
        Some(DiffIgnoreWhitespaceSetting::Off)
    } else {
        None
    }
}

/// The show-whitespace setting that a lowercase word names, if it names one.
pub open spec fn show_whitespace_named(word: Seq<char>) -> Option<DiffShowWhitespaceSetting> {
    if word == "true"@ || word == "on"@ || word == "both"@ {
        Some(DiffShowWhitespaceSetting::Both)
    } else if word == "trailing"@ {
        Some(DiffShowWhitespaceSetting::Trailing)
    } else if word == "leading"@ {
        Some(DiffShowWhitespaceSetting::Leading)
    } else if word == "false"@ || word == "off"@ || word == "none"@ {
        Some(DiffShowWhitespaceSetting::Off)
    } else {
        None
    }
}

/// Whether `text` is exactly `word`.
fn is_word(text: &String, word: &str) -> (r: bool)
    ensures
        r == (text@ == word@),
{
    let word = String::from_str(word);
    *text == word
}

impl DiffIgnoreWhitespaceSetting {
    /// The setting named by a lowercase word: `true`, `on` or `all` for
    /// [`All`](Self::All), `change` for [`Change`](Self::Change), `false`, `off`
    /// or `none` for [`Off`](Self::Off); any other word names no setting.
    pub fn from_word(word: &String) -> (r: Option<DiffIgnoreWhitespaceSetting>)
        ensures
            r == ignore_whitespace_named(word@),
    {
        if is_word(word, "true") || is_word(word, "on") || is_word(word, "all") {
            Some(DiffIgnoreWhitespaceSetting::All)
        } else if is_word(word, "change") {
            Some(DiffIgnoreWhitespaceSetting::Change)
        } else if is_word(word, "false") || is_word(word, "off") || is_word(word, "none") {
            Some(DiffIgnoreWhitespaceSetting::Off)
        } else {
            None
        }
    }
}

impl DiffShowWhitespaceSetting {
    /// The setting named by a lowercase word: `true`, `on` or `both` for
    /// [`Both`](Self::Both), `trailing` for [`Trailing`](Self::Trailing),
    /// `leading` for [`Leading`](Self::Leading), `false`, `off` or `none` for
    /// [`Off`](Self::Off); any other word names no setting.
    pub fn from_word(word: &String) -> (r: Option<DiffShowWhitespaceSetting>)
        ensures
            r == show_whitespace_named(word@),
    {
        if is_word(word, "true") || is_word(word, "on") || is_word(word, "both") {
            Some(DiffShowWhitespaceSetting::Both)
        } else if is_word(word, "trailing") {
            Some(DiffShowWhitespaceSetting::Trailing)
        } else if is_word(word, "leading") {
            Some(DiffShowWhitespaceSetting::Leading)
        } else if is_word(word, "false") || is_word(word, "off") || is_word(word, "none") {
            Some(DiffShowWhitespaceSetting::Off)
        } else {
            None
        }
    }
}

} // verus!
