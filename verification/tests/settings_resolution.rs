use config::git_source::lookup_of;
use config::resolve::{
    resolve_bool, resolve_diff_ignore_whitespace, resolve_diff_show_whitespace, resolve_string,
    resolve_unsigned_integer, AUTO_SELECT_NEXT_KEY, DIFF_IGNORE_WHITESPACE_KEY,
    DIFF_SHOW_WHITESPACE_KEY, DIFF_SPACE_SYMBOL_KEY, DIFF_TAB_SYMBOL_KEY, DIFF_TAB_WIDTH_KEY,
    UNDO_LIMIT_KEY,
};
use config::{
    Answer, Config, ConfigError, GitFailure, DiffIgnoreWhitespaceSetting, DiffShowWhitespaceSetting,
    GitSettings, InvalidValue, Lookup,
};

fn answer<T>(name: &str, value: Lookup<T>) -> Answer<Lookup<T>> {
    Answer { name: String::from(name), value }
}

fn missing() -> GitSettings {
    GitSettings {
        auto_select_next: answer(AUTO_SELECT_NEXT_KEY, Lookup::Missing),
        diff_ignore_whitespace: answer(DIFF_IGNORE_WHITESPACE_KEY, Lookup::Missing),
        diff_show_whitespace: answer(DIFF_SHOW_WHITESPACE_KEY, Lookup::Missing),
        diff_space_symbol: answer(DIFF_SPACE_SYMBOL_KEY, Lookup::Missing),
        diff_tab_symbol: answer(DIFF_TAB_SYMBOL_KEY, Lookup::Missing),
        diff_tab_width: answer(DIFF_TAB_WIDTH_KEY, Lookup::Missing),
        undo_limit: answer(UNDO_LIMIT_KEY, Lookup::Missing),
    }
}

#[test]
fn no_setting_gives_defaults() {
    let config = Config::from_settings(missing()).unwrap();
    assert_eq!(config.auto_select_next, false);
    assert_eq!(config.diff_ignore_whitespace, DiffIgnoreWhitespaceSetting::Off);
    assert_eq!(config.diff_show_whitespace, DiffShowWhitespaceSetting::Both);
    assert_eq!(config.diff_space_symbol, "\u{b7}");
    assert_eq!(config.diff_tab_symbol, "\u{2192}");
    assert_eq!(config.diff_tab_width, 4);
    assert_eq!(config.undo_limit, 5000);
}

#[test]
fn read_without_git_config_is_missing() {
    let settings = GitSettings::read(None);
    assert_eq!(settings.auto_select_next, answer(AUTO_SELECT_NEXT_KEY, Lookup::Missing));
    assert_eq!(settings.diff_tab_symbol, answer(DIFF_TAB_SYMBOL_KEY, Lookup::Missing));
    assert_eq!(settings.diff_tab_width, answer(DIFF_TAB_WIDTH_KEY, Lookup::Missing));
    assert_eq!(settings.undo_limit, answer(UNDO_LIMIT_KEY, Lookup::Missing));
}

#[test]
fn new_and_default_agree() {
    let new = Config::new();
    let default = Config::default();
    assert_eq!(new.auto_select_next, default.auto_select_next);
    assert_eq!(new.diff_ignore_whitespace, default.diff_ignore_whitespace);
    assert_eq!(new.diff_show_whitespace, default.diff_show_whitespace);
    assert_eq!(new.diff_space_symbol, default.diff_space_symbol);
    assert_eq!(new.diff_tab_symbol, default.diff_tab_symbol);
    assert_eq!(new.diff_tab_width, default.diff_tab_width);
    assert_eq!(new.undo_limit, default.undo_limit);
}

#[test]
fn every_setting_found_is_taken() {
    let settings = GitSettings {
        auto_select_next: answer(AUTO_SELECT_NEXT_KEY, Lookup::Found(true)),
        diff_ignore_whitespace: answer(DIFF_IGNORE_WHITESPACE_KEY, Lookup::Found(String::from("Change"))),
        diff_show_whitespace: answer(DIFF_SHOW_WHITESPACE_KEY, Lookup::Found(String::from("LEADING"))),
        diff_space_symbol: answer(DIFF_SPACE_SYMBOL_KEY, Lookup::Found(String::from("_"))),
        diff_tab_symbol: answer(DIFF_TAB_SYMBOL_KEY, Lookup::Found(String::from(">"))),
        diff_tab_width: answer(DIFF_TAB_WIDTH_KEY, Lookup::Found(8)),
        undo_limit: answer(UNDO_LIMIT_KEY, Lookup::Found(0)),
    };
    let config = Config::from_settings(settings).unwrap();
    assert_eq!(config.auto_select_next, true);
    assert_eq!(config.diff_ignore_whitespace, DiffIgnoreWhitespaceSetting::Change);
    assert_eq!(config.diff_show_whitespace, DiffShowWhitespaceSetting::Leading);
    assert_eq!(config.diff_space_symbol, "_");
    assert_eq!(config.diff_tab_symbol, ">");
    assert_eq!(config.diff_tab_width, 8);
    assert_eq!(config.undo_limit, 0);
}

#[test]
fn first_invalid_setting_is_reported() {
    let mut settings = missing();
    settings.diff_tab_width.value = Lookup::Failed(String::from("broken"));
    settings.undo_limit.value = Lookup::Found(-1);
    let error = Config::from_settings(settings).unwrap_err();
    assert_eq!(
        error,
        ConfigError {
            name: String::from(DIFF_TAB_WIDTH_KEY),
            reason: InvalidValue::Git(String::from("broken")),
        }
    );
    assert_eq!(
        error.message(),
        "\"interactive-rebase-tool.diffTabWidth\" is not valid: broken"
    );
}

#[test]
fn earlier_setting_wins_over_later() {
    let mut settings = missing();
    settings.auto_select_next.value = Lookup::Failed(String::from("first"));
    settings.diff_show_whitespace.value = Lookup::Found(String::from("sideways"));
    let error = Config::from_settings(settings).unwrap_err();
    assert_eq!(error.name, "interactive-rebase-tool.autoSelectNext");
    assert_eq!(error.reason, InvalidValue::Git(String::from("first")));
}

#[test]
fn bool_setting_keeps_value_and_default() {
    assert_eq!(resolve_bool("b", Lookup::Found(false), true), Ok(false));
    assert_eq!(resolve_bool("b", Lookup::Missing, true), Ok(true));
    assert_eq!(
        resolve_bool("b", Lookup::Failed(String::from("no")), true).unwrap_err().message(),
        "\"b\" is not valid: no"
    );
}

#[test]
fn string_setting_keeps_value_and_default() {
    assert_eq!(resolve_string("s", Lookup::Found(String::from("x")), "d"), Ok(String::from("x")));
    assert_eq!(resolve_string("s", Lookup::Missing, "d"), Ok(String::from("d")));
}

#[test]
fn unsigned_setting_takes_exactly_non_negative() {
    assert_eq!(resolve_unsigned_integer("n", Lookup::Found(0), 7), Ok(0));
    assert_eq!(resolve_unsigned_integer("n", Lookup::Found(i32::MAX), 7), Ok(2147483647));
    assert_eq!(resolve_unsigned_integer("n", Lookup::Missing, 7), Ok(7));
    assert_eq!(
        resolve_unsigned_integer("n", Lookup::Found(-1), 7),
        Err(ConfigError { name: String::from("n"), reason: InvalidValue::OutOfRange(-1) })
    );
}

#[test]
fn out_of_range_message_writes_the_number() {
    let error = resolve_unsigned_integer("n", Lookup::Found(i32::MIN), 7).unwrap_err();
    assert_eq!(
        error.message(),
        "\"n\" is not valid: \"-2147483648\" is outside of valid range for an unsigned 32-bit integer"
    );
}

#[test]
fn whitespace_values_ignore_case() {
    assert_eq!(
        resolve_diff_ignore_whitespace(Lookup::Found(String::from("ALL"))),
        resolve_diff_ignore_whitespace(Lookup::Found(String::from("all")))
    );
    assert_eq!(
        resolve_diff_show_whitespace(Lookup::Found(String::from("Off"))),
        Ok(DiffShowWhitespaceSetting::Off)
    );
}

#[test]
fn whitespace_error_carries_lowercase_value() {
    let error = resolve_diff_ignore_whitespace(Lookup::Found(String::from("\u{d6}N"))).unwrap_err();
    assert_eq!(error.name, DIFF_IGNORE_WHITESPACE_KEY);
    assert_eq!(error.reason, InvalidValue::NotIgnoreWhitespace(String::from("\u{f6}n")));
    let error = resolve_diff_show_whitespace(Lookup::Found(String::from("Middle"))).unwrap_err();
    assert_eq!(
        error.message(),
        "\"interactive-rebase-tool.diffShowWhitespace\" is not valid: \"middle\" does not match one of \"true\", \
         \"on\", \"both\", \"trailing\", \"leading\", \"false\", \"off\" or \"none\""
    );
}

#[test]
fn whitespace_words() {
    assert_eq!(DiffIgnoreWhitespaceSetting::from_word(&String::from("on")), Some(DiffIgnoreWhitespaceSetting::All));
    assert_eq!(DiffIgnoreWhitespaceSetting::from_word(&String::from("none")), Some(DiffIgnoreWhitespaceSetting::Off));
    assert_eq!(DiffIgnoreWhitespaceSetting::from_word(&String::from("ON")), None);
    assert_eq!(DiffShowWhitespaceSetting::from_word(&String::from("true")), Some(DiffShowWhitespaceSetting::Both));
    assert_eq!(DiffShowWhitespaceSetting::from_word(&String::from("trailing")), Some(DiffShowWhitespaceSetting::Trailing));
    assert_eq!(DiffShowWhitespaceSetting::from_word(&String::from("all")), None);
}

#[test]
fn missing_whitespace_settings_take_defaults() {
    assert_eq!(resolve_diff_ignore_whitespace(Lookup::Missing), Ok(DiffIgnoreWhitespaceSetting::Off));
    assert_eq!(resolve_diff_show_whitespace(Lookup::Missing), Ok(DiffShowWhitespaceSetting::Both));
}

#[test]
fn git_reply_decides_lookup() {
    assert_eq!(lookup_of::<bool>(Ok(true)), Lookup::Found(true));
    let not_set = GitFailure { not_found: true, message: String::from("config value not found") };
    assert_eq!(lookup_of::<bool>(Err(not_set)), Lookup::Missing);
    let broken = GitFailure { not_found: false, message: String::from("failed to parse 'x'") };
    assert_eq!(lookup_of::<bool>(Err(broken)), Lookup::Failed(String::from("failed to parse 'x'")));
}

#[test]
fn not_set_reply_takes_default_other_reply_is_reported() {
    let not_set = lookup_of::<i32>(Err(GitFailure { not_found: true, message: String::from("gone") }));
    assert_eq!(resolve_unsigned_integer("n", not_set, 9), Ok(9));
    let broken = lookup_of::<i32>(Err(GitFailure { not_found: false, message: String::from("bad") }));
    assert_eq!(
        resolve_unsigned_integer("n", broken, 9).unwrap_err().message(),
        "\"n\" is not valid: bad"
    );
}
