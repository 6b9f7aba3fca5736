//! The configuration of the tool: every setting, read from Git or defaulted.
use vstd::prelude::*;

use crate::error::{outcome, ConfigError, ConfigErrorView};
use crate::git_source::{read_bool, read_i32, read_string, Answer, AnswerView, Lookup, LookupView};
use crate::resolve::{
    bool_setting, ignore_whitespace_setting, resolve_bool, resolve_diff_ignore_whitespace,
    resolve_diff_show_whitespace, resolve_string, resolve_unsigned_integer, show_whitespace_setting,
    string_setting, unsigned_setting, AUTO_SELECT_NEXT_KEY, DIFF_IGNORE_WHITESPACE_KEY,
    DIFF_SHOW_WHITESPACE_KEY, DIFF_SPACE_SYMBOL_KEY, DIFF_TAB_SYMBOL_KEY, DIFF_TAB_WIDTH_KEY,
    UNDO_LIMIT_KEY,
};
use crate::settings::{DiffIgnoreWhitespaceSetting, DiffShowWhitespaceSetting};
use crate::text::lowercase;

verus! {

/// The symbol shown for a space when none is configured: a middle dot.
pub const DEFAULT_SPACE_SYMBOL: &'static str = "\u{b7}";

/// The symbol shown for a tab when none is configured: a rightwards arrow.
pub const DEFAULT_TAB_SYMBOL: &'static str = "\u{2192}";

/// The display width of a tab when none is configured.
pub const DEFAULT_DIFF_TAB_WIDTH: u32 = 4;

/// The largest number of undo steps when none is configured.
pub const DEFAULT_UNDO_LIMIT: u32 = 5000;

/// What Git answered for each setting of the tool, each with the name it was
/// asked under.
#[derive(Clone, Debug)]
pub struct GitSettings {
    pub auto_select_next: Answer<Lookup<bool>>,
    pub diff_ignore_whitespace: Answer<Lookup<String>>,
    pub diff_show_whitespace: Answer<Lookup<String>>,
    pub diff_space_symbol: Answer<Lookup<String>>,
    pub diff_tab_symbol: Answer<Lookup<String>>,
    pub diff_tab_width: Answer<Lookup<i32>>,
    pub undo_limit: Answer<Lookup<i32>>,
}

/// The model of [`GitSettings`].
pub struct GitSettingsView {
    pub auto_select_next: AnswerView<LookupView<bool>>,
    pub diff_ignore_whitespace: AnswerView<LookupView<Seq<char>>>,
    pub diff_show_whitespace: AnswerView<LookupView<Seq<char>>>,
    pub diff_space_symbol: AnswerView<LookupView<Seq<char>>>,
    pub diff_tab_symbol: AnswerView<LookupView<Seq<char>>>,
    pub diff_tab_width: AnswerView<LookupView<i32>>,
    pub undo_limit: AnswerView<LookupView<i32>>,
}

impl View for GitSettings {
    type V = GitSettingsView;

    open spec fn view(&self) -> GitSettingsView {
        GitSettingsView {
            auto_select_next: self.auto_select_next@,
            diff_ignore_whitespace: self.diff_ignore_whitespace@,
            diff_show_whitespace: self.diff_show_whitespace@,
            diff_space_symbol: self.diff_space_symbol@,
            diff_tab_symbol: self.diff_tab_symbol@,
            diff_tab_width: self.diff_tab_width@,
            undo_limit: self.undo_limit@,
        }
    }
}

impl GitSettingsView {
    /// Each setting was asked under its own name in the tool's section.
    pub open spec fn asked_under_own_names(self) -> bool {
        &&& self.auto_select_next.name == AUTO_SELECT_NEXT_KEY@
        &&& self.diff_ignore_whitespace.name == DIFF_IGNORE_WHITESPACE_KEY@
        &&& self.diff_show_whitespace.name == DIFF_SHOW_WHITESPACE_KEY@
        &&& self.diff_space_symbol.name == DIFF_SPACE_SYMBOL_KEY@
        &&& self.diff_tab_symbol.name == DIFF_TAB_SYMBOL_KEY@
        &&& self.diff_tab_width.name == DIFF_TAB_WIDTH_KEY@
        &&& self.undo_limit.name == UNDO_LIMIT_KEY@
    }

    /// No setting is set.
    pub open spec fn none_set(self) -> bool {
        &&& self.auto_select_next.value is Missing
        &&& self.diff_ignore_whitespace.value is Missing
        &&& self.diff_show_whitespace.value is Missing
        &&& self.diff_space_symbol.value is Missing
        &&& self.diff_tab_symbol.value is Missing
        &&& self.diff_tab_width.value is Missing
        &&& self.undo_limit.value is Missing
    }
}

impl GitSettings {
    /// Asks Git for every setting of the tool, each under its own name; with
    /// no configuration, no setting is set.
    pub fn read(git_config: Option<&git2::Config>) -> (r: GitSettings)
        ensures
            r@.asked_under_own_names(),
            git_config is None ==> r@.none_set(),
    {
        GitSettings {
            auto_select_next: read_bool(git_config, AUTO_SELECT_NEXT_KEY),
            diff_ignore_whitespace: read_string(git_config, DIFF_IGNORE_WHITESPACE_KEY),
            diff_show_whitespace: read_string(git_config, DIFF_SHOW_WHITESPACE_KEY),
            diff_space_symbol: read_string(git_config, DIFF_SPACE_SYMBOL_KEY),
            diff_tab_symbol: read_string(git_config, DIFF_TAB_SYMBOL_KEY),
            diff_tab_width: read_i32(git_config, DIFF_TAB_WIDTH_KEY),
            undo_limit: read_i32(git_config, UNDO_LIMIT_KEY),
        }
    }
}

/// Represents the configuration options.
#[derive(Clone, Debug)]
#[non_exhaustive]
pub struct Config {
    /// If to select the next line in the list after performing an action.
    pub auto_select_next: bool,
    /// How to handle whitespace when calculating diffs.
    pub diff_ignore_whitespace: DiffIgnoreWhitespaceSetting,
    /// How to show whitespace in diffs.
    pub diff_show_whitespace: DiffShowWhitespaceSetting,
    /// The symbol used to replace space characters.
    pub diff_space_symbol: String,
    /// The symbol used to replace tab characters.
    pub diff_tab_symbol: String,
    /// The display width of the tab character.
    pub diff_tab_width: u32,
    /// The maximum number of undo steps.
    pub undo_limit: u32,
}

/// The model of a [`Config`], with text as sequences of characters.
pub struct ConfigView {
    pub auto_select_next: bool,
    pub diff_ignore_whitespace: DiffIgnoreWhitespaceSetting,
    pub diff_show_whitespace: DiffShowWhitespaceSetting,
    pub diff_space_symbol: Seq<char>,
    pub diff_tab_symbol: Seq<char>,
    pub diff_tab_width: u32,
    pub undo_limit: u32,
}

impl View for Config {
    type V = ConfigView;

    open spec fn view(&self) -> ConfigView {
        ConfigView {
            auto_select_next: self.auto_select_next,
            diff_ignore_whitespace: self.diff_ignore_whitespace,
            diff_show_whitespace: self.diff_show_whitespace,
            diff_space_symbol: self.diff_space_symbol@,
            diff_tab_symbol: self.diff_tab_symbol@,
            diff_tab_width: self.diff_tab_width,
            undo_limit: self.undo_limit,
        }
    }
}

/// The configuration with every setting at its default.
pub open spec fn default_config() -> ConfigView {
    ConfigView {
        auto_select_next: false,
        diff_ignore_whitespace: DiffIgnoreWhitespaceSetting::Off,
        diff_show_whitespace: DiffShowWhitespaceSetting::Both,
        diff_space_symbol: DEFAULT_SPACE_SYMBOL@,
        diff_tab_symbol: DEFAULT_TAB_SYMBOL@,
        diff_tab_width: DEFAULT_DIFF_TAB_WIDTH,
        undo_limit: DEFAULT_UNDO_LIMIT,
    }
}

/// Each setting from Git's answers, in the order of the fields.
pub open spec fn auto_select_next_of(s: GitSettingsView) -> Result<bool, ConfigErrorView> {
    bool_setting(AUTO_SELECT_NEXT_KEY@, s.auto_select_next.value, false)
}

pub open spec fn diff_ignore_whitespace_of(s: GitSettingsView) -> Result<
    DiffIgnoreWhitespaceSetting,
    ConfigErrorView,
> {
    ignore_whitespace_setting(s.diff_ignore_whitespace.value)
}

pub open spec fn diff_show_whitespace_of(s: GitSettingsView) -> Result<
    DiffShowWhitespaceSetting,
    ConfigErrorView,
> {
    show_whitespace_setting(s.diff_show_whitespace.value)
}

pub open spec fn diff_space_symbol_of(s: GitSettingsView) -> Result<Seq<char>, ConfigErrorView> {
    string_setting(DIFF_SPACE_SYMBOL_KEY@, s.diff_space_symbol.value, DEFAULT_SPACE_SYMBOL@)
}

pub open spec fn diff_tab_symbol_of(s: GitSettingsView) -> Result<Seq<char>, ConfigErrorView> {
    string_setting(DIFF_TAB_SYMBOL_KEY@, s.diff_tab_symbol.value, DEFAULT_TAB_SYMBOL@)
}

pub open spec fn diff_tab_width_of(s: GitSettingsView) -> Result<u32, ConfigErrorView> {
    unsigned_setting(DIFF_TAB_WIDTH_KEY@, s.diff_tab_width.value, DEFAULT_DIFF_TAB_WIDTH)
}

pub open spec fn undo_limit_of(s: GitSettingsView) -> Result<u32, ConfigErrorView> {
    unsigned_setting(UNDO_LIMIT_KEY@, s.undo_limit.value, DEFAULT_UNDO_LIMIT)
}

/// The configuration that Git's answers give: the error of the first setting,
/// in the order of the fields, that is not valid, or else every setting.
pub open spec fn config_from_settings(s: GitSettingsView) -> Result<ConfigView, ConfigErrorView> {
    if auto_select_next_of(s) is Err {
        Err(auto_select_next_of(s)->Err_0)
    } else if diff_ignore_whitespace_of(s) is Err {
        Err(diff_ignore_whitespace_of(s)->Err_0)
    } else if diff_show_whitespace_of(s) is Err {
        Err(diff_show_whitespace_of(s)->Err_0)
    } else if diff_space_symbol_of(s) is Err {
        Err(diff_space_symbol_of(s)->Err_0)
    } else if diff_tab_symbol_of(s) is Err {
        Err(diff_tab_symbol_of(s)->Err_0)
    } else if diff_tab_width_of(s) is Err {
        Err(diff_tab_width_of(s)->Err_0)
    } else if undo_limit_of(s) is Err {
        Err(undo_limit_of(s)->Err_0)
    } else {
        Ok(
            ConfigView {
                auto_select_next: auto_select_next_of(s)->Ok_0,
                diff_ignore_whitespace: diff_ignore_whitespace_of(s)->Ok_0,
                diff_show_whitespace: diff_show_whitespace_of(s)->Ok_0,
                diff_space_symbol: diff_space_symbol_of(s)->Ok_0,
                diff_tab_symbol: diff_tab_symbol_of(s)->Ok_0,
                diff_tab_width: diff_tab_width_of(s)->Ok_0,
                undo_limit: undo_limit_of(s)->Ok_0,
            },
        )
    }
}

impl Config {
    /// The configuration that Git's answers give; the first setting, in the
    /// order of the fields, whose value is not valid is the error.
    pub fn from_settings(settings: GitSettings) -> (r: Result<Config, ConfigError>)
        ensures
            outcome(r) == config_from_settings(settings@),
    {
        let auto_select_next = resolve_bool(AUTO_SELECT_NEXT_KEY, settings.auto_select_next.value, false)?;
        let diff_ignore_whitespace = resolve_diff_ignore_whitespace(settings.diff_ignore_whitespace.value)?;
        let diff_show_whitespace = resolve_diff_show_whitespace(settings.diff_show_whitespace.value)?;
        let diff_space_symbol = resolve_string(
            DIFF_SPACE_SYMBOL_KEY,
            settings.diff_space_symbol.value,
            DEFAULT_SPACE_SYMBOL,
        )?;
        let diff_tab_symbol = resolve_string(
            DIFF_TAB_SYMBOL_KEY,
            settings.diff_tab_symbol.value,
            DEFAULT_TAB_SYMBOL,
        )?;
        let diff_tab_width = resolve_unsigned_integer(
            DIFF_TAB_WIDTH_KEY,
            settings.diff_tab_width.value,
            DEFAULT_DIFF_TAB_WIDTH,
        )?;
        let undo_limit = resolve_unsigned_integer(
            UNDO_LIMIT_KEY,
            settings.undo_limit.value,
            DEFAULT_UNDO_LIMIT,
        )?;
        Ok(
            Config {
                auto_select_next,
                diff_ignore_whitespace,
                diff_show_whitespace,
                diff_space_symbol,
                diff_tab_symbol,
                diff_tab_width,
                undo_limit,
            },
        )
    }

    /// The configuration read from `git_config`, or every default when there
    /// is none. Git's answers depend on the configuration files that were
    /// loaded: whatever they are, the result is the configuration that they
    /// give.
    fn new_with_config(git_config: Option<&git2::Config>) -> (r: Result<Config, ConfigError>)
        ensures
            exists|s: GitSettingsView|
                s.asked_under_own_names() && outcome(r) == #[trigger] config_from_settings(s),
            git_config is None ==> outcome(r) == Ok::<ConfigView, ConfigErrorView>(
                default_config(),
            ),
    {
        let settings = GitSettings::read(git_config);
        let ghost answers = settings@;
        let r = Self::from_settings(settings);
        proof {
            if git_config is None {
                lemma_no_setting_gives_defaults(answers);
            }
            assert(outcome(r) == config_from_settings(answers));
        }
        r
    }

    /// Create a new configuration with default values.
    #[must_use]
    pub fn new() -> (c: Config)
        ensures
            c@ == default_config(),
    {
        match Self::new_with_config(None) {
            Ok(c) => c,
            Err(_) => vstd::pervasive::unreached(),
        }
    }

    /// The configuration read from a Git configuration.
    ///
    /// # Errors
    ///
    /// The first setting, in the order of the fields, whose value Git cannot
    /// read or that is not valid.
    pub fn try_from(config: &git2::Config) -> (r: Result<Config, ConfigError>)
        ensures
            exists|s: GitSettingsView|
                s.asked_under_own_names() && outcome(r) == #[trigger] config_from_settings(s),
    {
        Self::new_with_config(Some(config))
    }
}

impl Default for Config {
    fn default() -> (c: Config)
        ensures
            c@ == default_config(),
    {
        Self::new()
    }
}

/// When no setting is set, the configuration is accepted and every setting
/// takes its default.
pub proof fn lemma_no_setting_gives_defaults(s: GitSettingsView)
    requires
        s.none_set(),
    ensures
        config_from_settings(s) == Ok::<ConfigView, ConfigErrorView>(default_config()),
{
}

} // verus!

verus! {

/// A configuration is accepted exactly when every one of its settings is
/// valid, and then each field holds that setting's own value: no setting
/// depends on another.
pub proof fn lemma_accepted_exactly_when_every_setting_is_valid(s: GitSettingsView)
    ensures
        config_from_settings(s) is Ok <==> {
            &&& auto_select_next_of(s) is Ok
            &&& diff_ignore_whitespace_of(s) is Ok
            &&& diff_show_whitespace_of(s) is Ok
            &&& diff_space_symbol_of(s) is Ok
            &&& diff_tab_symbol_of(s) is Ok
            &&& diff_tab_width_of(s) is Ok
            &&& undo_limit_of(s) is Ok
        },
        config_from_settings(s) is Ok ==> {
            let c = config_from_settings(s)->Ok_0;
            &&& c.auto_select_next == auto_select_next_of(s)->Ok_0
            &&& c.diff_ignore_whitespace == diff_ignore_whitespace_of(s)->Ok_0
            &&& c.diff_show_whitespace == diff_show_whitespace_of(s)->Ok_0
            &&& c.diff_space_symbol == diff_space_symbol_of(s)->Ok_0
            &&& c.diff_tab_symbol == diff_tab_symbol_of(s)->Ok_0
            &&& c.diff_tab_width == diff_tab_width_of(s)->Ok_0
            &&& c.undo_limit == undo_limit_of(s)->Ok_0
        },
{
}

/// A refused configuration reports the first setting, in the order of the
/// fields, that is not valid: the error is that setting's own error, it names
/// that setting, and every setting before it is valid.
pub proof fn lemma_refusal_reports_first_invalid_setting(s: GitSettingsView)
    ensures
        config_from_settings(s) is Err ==> {
            let e = config_from_settings(s)->Err_0;
            ||| e.name == AUTO_SELECT_NEXT_KEY@ && auto_select_next_of(s) is Err
                && auto_select_next_of(s)->Err_0 == e
            ||| e.name == DIFF_IGNORE_WHITESPACE_KEY@ && auto_select_next_of(s) is Ok
                && diff_ignore_whitespace_of(s) is Err && diff_ignore_whitespace_of(s)->Err_0 == e
            ||| e.name == DIFF_SHOW_WHITESPACE_KEY@ && auto_select_next_of(s) is Ok
                && diff_ignore_whitespace_of(s) is Ok && diff_show_whitespace_of(s) is Err
                && diff_show_whitespace_of(s)->Err_0 == e
            ||| e.name == DIFF_SPACE_SYMBOL_KEY@ && auto_select_next_of(s) is Ok
                && diff_ignore_whitespace_of(s) is Ok && diff_show_whitespace_of(s) is Ok
                && diff_space_symbol_of(s) is Err && diff_space_symbol_of(s)->Err_0 == e
            ||| e.name == DIFF_TAB_SYMBOL_KEY@ && auto_select_next_of(s) is Ok
                && diff_ignore_whitespace_of(s) is Ok && diff_show_whitespace_of(s) is Ok
                && diff_space_symbol_of(s) is Ok && diff_tab_symbol_of(s) is Err
                && diff_tab_symbol_of(s)->Err_0 == e
            ||| e.name == DIFF_TAB_WIDTH_KEY@ && auto_select_next_of(s) is Ok
                && diff_ignore_whitespace_of(s) is Ok && diff_show_whitespace_of(s) is Ok
                && diff_space_symbol_of(s) is Ok && diff_tab_symbol_of(s) is Ok
                && diff_tab_width_of(s) is Err && diff_tab_width_of(s)->Err_0 == e
            ||| e.name == UNDO_LIMIT_KEY@ && auto_select_next_of(s) is Ok
                && diff_ignore_whitespace_of(s) is Ok && diff_show_whitespace_of(s) is Ok
                && diff_space_symbol_of(s) is Ok && diff_tab_symbol_of(s) is Ok
                && diff_tab_width_of(s) is Ok && undo_limit_of(s) is Err
                && undo_limit_of(s)->Err_0 == e
        },
{
}

/// Each field of an accepted configuration comes from Git's answer for that
/// field's own name, and from nothing else: an unset name gives the field's
/// default, a boolean, text or integer that Git gives is taken unchanged, and
/// a whitespace word is read by its lowercase form.
pub proof fn lemma_each_field_from_its_own_answer(s: GitSettingsView)
    ensures
        config_from_settings(s) is Ok ==> {
            let c = config_from_settings(s)->Ok_0;
            &&& s.auto_select_next.value is Missing ==> !c.auto_select_next
            &&& s.auto_select_next.value matches LookupView::Found(b) ==> c.auto_select_next == b
            &&& s.diff_ignore_whitespace.value is Missing ==> c.diff_ignore_whitespace
                == DiffIgnoreWhitespaceSetting::Off
            &&& s.diff_ignore_whitespace.value matches LookupView::Found(v) ==> {
                let w = lowercase(v);
                &&& (w == "true"@ || w == "on"@ || w == "all"@) ==> c.diff_ignore_whitespace
                    == DiffIgnoreWhitespaceSetting::All
                &&& w == "change"@ ==> c.diff_ignore_whitespace
                    == DiffIgnoreWhitespaceSetting::Change
                &&& (w == "false"@ || w == "off"@ || w == "none"@) ==> c.diff_ignore_whitespace
                    == DiffIgnoreWhitespaceSetting::Off
            }
            &&& s.diff_show_whitespace.value is Missing ==> c.diff_show_whitespace
                == DiffShowWhitespaceSetting::Both
            &&& s.diff_show_whitespace.value matches LookupView::Found(v) ==> {
                let w = lowercase(v);
                &&& (w == "true"@ || w == "on"@ || w == "both"@) ==> c.diff_show_whitespace
                    == DiffShowWhitespaceSetting::Both
                &&& w == "trailing"@ ==> c.diff_show_whitespace
                    == DiffShowWhitespaceSetting::Trailing
                &&& w == "leading"@ ==> c.diff_show_whitespace
                    == DiffShowWhitespaceSetting::Leading
                &&& (w == "false"@ || w == "off"@ || w == "none"@) ==> c.diff_show_whitespace
                    == DiffShowWhitespaceSetting::Off
            }
            &&& s.diff_space_symbol.value is Missing ==> c.diff_space_symbol == "\u{b7}"@
            &&& s.diff_space_symbol.value matches LookupView::Found(t) ==> c.diff_space_symbol == t
            &&& s.diff_tab_symbol.value is Missing ==> c.diff_tab_symbol == "\u{2192}"@
            &&& s.diff_tab_symbol.value matches LookupView::Found(t) ==> c.diff_tab_symbol == t
            &&& s.diff_tab_width.value is Missing ==> c.diff_tab_width == 4
            &&& s.diff_tab_width.value matches LookupView::Found(v) ==> c.diff_tab_width == v
            &&& s.undo_limit.value is Missing ==> c.undo_limit == 5000
            &&& s.undo_limit.value matches LookupView::Found(v) ==> c.undo_limit == v
        },
{
    reveal_strlit("true");
    reveal_strlit("on");
    reveal_strlit("all");
    reveal_strlit("both");
    reveal_strlit("change");
    reveal_strlit("trailing");
    reveal_strlit("leading");
    reveal_strlit("false");
    reveal_strlit("off");
    reveal_strlit("none");
    assert("change"@.len() == 6 && "true"@.len() == 4 && "on"@.len() == 2 && "all"@.len() == 3);
    assert("change"@ != "true"@ && "change"@ != "on"@ && "change"@ != "all"@);
    assert("trailing"@.len() == 8 && "leading"@.len() == 7 && "both"@.len() == 4);
    assert("trailing"@ != "true"@ && "trailing"@ != "on"@ && "trailing"@ != "both"@);
    assert("leading"@ != "true"@ && "leading"@ != "on"@ && "leading"@ != "both"@
        && "leading"@ != "trailing"@);
    assert("false"@.len() == 5 && "off"@.len() == 3 && "none"@.len() == 4);
    assert("false"@ != "true"@ && "false"@ != "on"@ && "false"@ != "all"@ && "false"@ != "both"@
        && "false"@ != "change"@ && "false"@ != "trailing"@ && "false"@ != "leading"@);
    assert("off"@ != "true"@ && "off"@ != "on"@ && "off"@ != "all"@ && "off"@ != "both"@
        && "off"@ != "change"@ && "off"@ != "trailing"@ && "off"@ != "leading"@) by {
        assert("off"@[1] != "on"@[1]);
        assert("off"@[0] != "all"@[0]);
    }
    assert("none"@ != "true"@ && "none"@ != "on"@ && "none"@ != "all"@ && "none"@ != "both"@
        && "none"@ != "change"@ && "none"@ != "trailing"@ && "none"@ != "leading"@) by {
        assert("none"@[0] != "true"@[0]);
        assert("none"@[0] != "both"@[0]);
    }
}

/// A configuration is refused when Git could not read a setting, when an
/// integer setting is negative, or when a whitespace setting names no word of
/// its own, whatever the other settings are.
pub proof fn lemma_refused_on_any_invalid_answer(s: GitSettingsView)
    ensures
        s.auto_select_next.value is Failed ==> config_from_settings(s) is Err,
        s.diff_ignore_whitespace.value is Failed ==> config_from_settings(s) is Err,
        s.diff_show_whitespace.value is Failed ==> config_from_settings(s) is Err,
        s.diff_space_symbol.value is Failed ==> config_from_settings(s) is Err,
        s.diff_tab_symbol.value is Failed ==> config_from_settings(s) is Err,
        s.diff_tab_width.value is Failed ==> config_from_settings(s) is Err,
        s.undo_limit.value is Failed ==> config_from_settings(s) is Err,
        s.diff_tab_width.value matches LookupView::Found(v) && v < 0 ==> config_from_settings(
            s,
        ) is Err,
        s.undo_limit.value matches LookupView::Found(v) && v < 0 ==> config_from_settings(s) is Err,
        s.diff_ignore_whitespace.value matches LookupView::Found(v) && !{
            let w = lowercase(v);
            ||| w == "true"@ || w == "on"@ || w == "all"@ || w == "change"@
            ||| w == "false"@ || w == "off"@ || w == "none"@
        } ==> config_from_settings(s) is Err,
        s.diff_show_whitespace.value matches LookupView::Found(v) && !{
            let w = lowercase(v);
            ||| w == "true"@ || w == "on"@ || w == "both"@ || w == "trailing"@ || w == "leading"@
            ||| w == "false"@ || w == "off"@ || w == "none"@
        } ==> config_from_settings(s) is Err,
{
}

/// Settings do not reach one another: two accepted configurations whose
/// answers agree for one name agree on that name's field, however the other
/// answers differ.
pub proof fn lemma_fields_depend_only_on_own_answer(s1: GitSettingsView, s2: GitSettingsView)
    requires
        config_from_settings(s1) is Ok,
        config_from_settings(s2) is Ok,
    ensures
        ({
            let c1 = config_from_settings(s1)->Ok_0;
            let c2 = config_from_settings(s2)->Ok_0;
            &&& s1.auto_select_next.value == s2.auto_select_next.value ==> c1.auto_select_next
                == c2.auto_select_next
            &&& s1.diff_ignore_whitespace.value == s2.diff_ignore_whitespace.value
                ==> c1.diff_ignore_whitespace == c2.diff_ignore_whitespace
            &&& s1.diff_show_whitespace.value == s2.diff_show_whitespace.value
                ==> c1.diff_show_whitespace == c2.diff_show_whitespace
            &&& s1.diff_space_symbol.value == s2.diff_space_symbol.value ==> c1.diff_space_symbol
                == c2.diff_space_symbol
            &&& s1.diff_tab_symbol.value == s2.diff_tab_symbol.value ==> c1.diff_tab_symbol
                == c2.diff_tab_symbol
            &&& s1.diff_tab_width.value == s2.diff_tab_width.value ==> c1.diff_tab_width
                == c2.diff_tab_width
            &&& s1.undo_limit.value == s2.undo_limit.value ==> c1.undo_limit == c2.undo_limit
        }),
{
}

} // verus!
