//! The error for a setting whose value is not valid, and its message.
use vstd::prelude::*;
use vstd::string::*;

use crate::text::{decimal, i32_to_decimal};

verus! {

/// Why the value of a setting is not valid.
#[derive(Clone, Debug, PartialEq, Eq)]
pub enum InvalidValue {
    /// Git could not read the value; this is its message.
    Git(String),
    /// A setting that takes an unsigned 32-bit integer was given this
    /// negative integer.
    OutOfRange(i32),
    /// This lowercase value names no [`DiffIgnoreWhitespaceSetting`](crate::DiffIgnoreWhitespaceSetting).
    NotIgnoreWhitespace(String),
    /// This lowercase value names no [`DiffShowWhitespaceSetting`](crate::DiffShowWhitespaceSetting).
    NotShowWhitespace(String),
}

/// The model of an [`InvalidValue`], with text as sequences of characters.
pub enum InvalidValueView {
    Git(Seq<char>),
    OutOfRange(i32),
    NotIgnoreWhitespace(Seq<char>),
    NotShowWhitespace(Seq<char>),
}

impl View for InvalidValue {
    type V = InvalidValueView;

    open spec fn view(&self) -> InvalidValueView {
        match self {
            InvalidValue::Git(m) => InvalidValueView::Git(m@),
            InvalidValue::OutOfRange(v) => InvalidValueView::OutOfRange(*v),
            InvalidValue::NotIgnoreWhitespace(v) => InvalidValueView::NotIgnoreWhitespace(v@),
            InvalidValue::NotShowWhitespace(v) => InvalidValueView::NotShowWhitespace(v@),
        }
    }
}

/// A setting of the Git configuration whose value is not valid.
#[derive(Clone, Debug, PartialEq, Eq)]
pub struct ConfigError {
    /// The full name of the setting, such as `interactive-rebase-tool.undoLimit`.
    pub name: String,
    /// What is wrong with its value.
    pub reason: InvalidValue,
}

/// The model of a [`ConfigError`].
pub struct ConfigErrorView {
    pub name: Seq<char>,
    pub reason: InvalidValueView,
}

impl View for ConfigError {
    type V = ConfigErrorView;

    open spec fn view(&self) -> ConfigErrorView {
        ConfigErrorView { name: self.name@, reason: self.reason@ }
    }
}

/// The model of a result whose error is a [`ConfigError`].
pub open spec fn outcome<T: View>(r: Result<T, ConfigError>) -> Result<T::V, ConfigErrorView> {
    match r {
        Ok(v) => Ok(v@),
        Err(e) => Err(e@),
    }
}

/// What is said of a value that is not valid.
pub open spec fn reason_text(reason: InvalidValueView) -> Seq<char> {
    match reason {
        InvalidValueView::Git(message) => message,
        InvalidValueView::OutOfRange(v) => "\""@ + decimal(v as int)
            + "\" is outside of valid range for an unsigned 32-bit integer"@,
        InvalidValueView::NotIgnoreWhitespace(v) => "\""@ + v
            + "\" does not match one of \"true\", \"on\", \"all\", \"change\", \"false\", \"off\" or \"none\""@,
        InvalidValueView::NotShowWhitespace(v) => "\""@ + v
            + "\" does not match one of \"true\", \"on\", \"both\", \"trailing\", \"leading\", \"false\", \"off\" or \"none\""@,
    }
}

/// The message of an error: the setting's name in double quotes, then
/// ` is not valid: ` and what is wrong with the value.
pub open spec fn error_text(error: ConfigErrorView) -> Seq<char> {
    "\""@ + error.name + "\" is not valid: "@ + reason_text(error.reason)
}

impl InvalidValue {
    /// What is said of the value.
    pub fn text(&self) -> (r: String)
        ensures
            r@ == reason_text(self@),
    {
        match self {
            InvalidValue::Git(message) => message.clone(),
            InvalidValue::OutOfRange(v) => {
                let mut r = String::from_str("\"");
                let number = i32_to_decimal(*v);
                r.append(number.as_str());
                r.append("\" is outside of valid range for an unsigned 32-bit integer");
                r
            },
            InvalidValue::NotIgnoreWhitespace(v) => {
                let mut r = String::from_str("\"");
                r.append(v.as_str());
                r.append(
                    "\" does not match one of \"true\", \"on\", \"all\", \"change\", \"false\", \"off\" or \"none\"",
                );
                r
            },
            InvalidValue::NotShowWhitespace(v) => {
                let mut r = String::from_str("\"");
                r.append(v.as_str());
                r.append(
                    "\" does not match one of \"true\", \"on\", \"both\", \"trailing\", \"leading\", \"false\", \"off\" or \"none\"",
                );
                r
            },
        }
    }
}

impl ConfigError {
    /// The error's message, such as
    /// `"interactive-rebase-tool.undoLimit" is not valid: "-100" is outside of valid range for an unsigned 32-bit integer`.
    pub fn message(&self) -> (r: String)
        ensures
            r@ == error_text(self@),
    {
        let mut r = String::from_str("\"");
        r.append(self.name.as_str());
        r.append("\" is not valid: ");
        let reason = self.reason.text();
        r.append(reason.as_str());
        r
    }
}

} // verus!
