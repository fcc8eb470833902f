//! What the settings come to that a user, a file or the environment gives.
use crate::client::{ClientConfig, ModelInfo, OpenAIConfig};
use crate::config::{set_bool, Config};
use crate::error::ConfigError;
use crate::keybindings::Keybindings;
use crate::role::Temperature;
use crate::session::Session;
use crate::text::{is_u16_text, words_of};
use vstd::prelude::*;

verus! {

/// The names of the settings, and the texts of truth values, are all different.
proof fn lemma_keys_differ()
    ensures
        "temperature"@ != "save"@,
        "temperature"@ != "highlight"@,
        "temperature"@ != "dry_run"@,
        "save"@ != "highlight"@,
        "save"@ != "dry_run"@,
        "highlight"@ != "dry_run"@,
        "true"@ != "false"@,
        "true"@ != "1"@,
        "true"@ != "0"@,
        "false"@ != "1"@,
        "false"@ != "0"@,
        "1"@ != "0"@,
{
    reveal_strlit("temperature");
    reveal_strlit("save");
    reveal_strlit("highlight");
    reveal_strlit("dry_run");
    reveal_strlit("true");
    reveal_strlit("false");
    reveal_strlit("1");
    reveal_strlit("0");
    assert("temperature"@.len() == 11);
    assert("save"@.len() == 4);
    assert("highlight"@.len() == 9);
    assert("dry_run"@.len() == 7);
    assert("true"@.len() == 4);
    assert("false"@.len() == 5);
    assert("1"@[0] == '1');
    assert("0"@[0] == '0');
    assert("1"@.len() == 1 && "0"@.len() == 1);
}

/// A temperature that was set is the one in use, in the session too where one is under way, and
/// nothing else changes.
pub proof fn law_temperature_is_set(
    config: &mut Config,
    value: Option<Temperature>,
    result: Result<(), ConfigError>,
    read: Option<Temperature>,
)
    requires
        call_ensures(Config::set_temperature, (config, value), result),
        call_ensures(Config::get_temperature, (&*final(config),), read),
    ensures
        result is Ok,
        read == value,
        final(config).temperature == value,
        old(config).session is None ==> final(config).session is None,
        old(config).session matches Some(session) ==> final(config).session == Some(
            Session { temperature: value, ..session },
        ),
        *final(config) == (Config {
            temperature: final(config).temperature,
            session: final(config).session,
            ..*old(config)
        }),
{
}

/// Asking for a temperature other than `null` brings the number into use that the value is read
/// as, whether a session is under way, which then has it too, or not. A value that is no number
/// is refused, and changes nothing.
pub proof fn law_temperature_is_updated<N: FnOnce(&str) -> Option<Temperature>>(
    config: &mut Config,
    data: &str,
    value: Seq<char>,
    parse_temperature: N,
    result: Result<(), ConfigError>,
)
    requires
        call_ensures(Config::update::<N>, (config, data, parse_temperature), result),
        words_of(data@) == seq!["temperature"@, value],
        value != "null"@,
    ensures
        exists|text: &str, number: Option<Temperature>|
            {
                &&& text@ == value
                &&& #[trigger] parse_temperature.ensures((text,), number)
                &&& number is Some == result is Ok
                &&& number is Some ==> final(config).temperature == number
            },
        result is Ok ==> {
            &&& final(config).temperature is Some
            &&& match old(config).session {
                Some(session) => final(config).session == Some(
                    Session { temperature: final(config).temperature, ..session },
                ),
                None => final(config).session is None,
            }
            &&& *final(config) == (Config {
                temperature: final(config).temperature,
                session: final(config).session,
                ..*old(config)
            })
        },
        result matches Err(error) ==> {
            &&& error == ConfigError::InvalidValue
            &&& *final(config) == *old(config)
        },
{
    lemma_keys_differ();
}

/// Asking for the temperature `null` leaves none in use, in the session neither, and changes
/// nothing else.
pub proof fn law_temperature_is_unset<N: FnOnce(&str) -> Option<Temperature>>(
    config: &mut Config,
    data: &str,
    parse_temperature: N,
    result: Result<(), ConfigError>,
)
    requires
        call_ensures(Config::update::<N>, (config, data, parse_temperature), result),
        words_of(data@) == seq!["temperature"@, "null"@],
    ensures
        result is Ok,
        final(config).temperature is None,
        match old(config).session {
            Some(session) => final(config).session == Some(
                Session { temperature: None, ..session },
            ),
            None => final(config).session is None,
        },
        *final(config) == (Config {
            temperature: final(config).temperature,
            session: final(config).session,
            ..*old(config)
        }),
{
    lemma_keys_differ();
}

/// A switch takes `true` and `false`, and then has that value while every other field stays; any
/// other value is refused, and changes nothing.
pub proof fn law_switches_are_updated<N: FnOnce(&str) -> Option<Temperature>>(
    config: &mut Config,
    data: &str,
    key: Seq<char>,
    value: Seq<char>,
    parse_temperature: N,
    result: Result<(), ConfigError>,
)
    requires
        call_ensures(Config::update::<N>, (config, data, parse_temperature), result),
        words_of(data@) == seq![key, value],
        key == "save"@ || key == "highlight"@ || key == "dry_run"@,
    ensures
        result is Ok <==> value == "true"@ || value == "false"@,
        result is Ok && key == "save"@ ==> *final(config) == (Config {
            save: value == "true"@,
            ..*old(config)
        }),
        result is Ok && key == "highlight"@ ==> *final(config) == (Config {
            highlight: value == "true"@,
            ..*old(config)
        }),
        result is Ok && key == "dry_run"@ ==> *final(config) == (Config {
            dry_run: value == "true"@,
            ..*old(config)
        }),
        result matches Err(error) ==> {
            &&& error == ConfigError::InvalidValue
            &&& *final(config) == *old(config)
        },
{
    lemma_keys_differ();
}

/// Anything but a key and a value is answered with how it is used, a key that no setting has
/// with its name, and neither changes anything.
pub proof fn law_other_settings_are_refused<N: FnOnce(&str) -> Option<Temperature>>(
    config: &mut Config,
    data: &str,
    parse_temperature: N,
    result: Result<(), ConfigError>,
)
    requires
        call_ensures(Config::update::<N>, (config, data, parse_temperature), result),
    ensures
        result == Err::<(), _>(ConfigError::UpdateUsage) <==> words_of(data@).len() != 2,
        (result matches Err(ConfigError::UnknownKey(key)) && key@ == words_of(data@)[0]) <==> {
            let key = words_of(data@)[0];
            &&& words_of(data@).len() == 2
            &&& key != "temperature"@
            &&& key != "save"@
            &&& key != "highlight"@
            &&& key != "dry_run"@
        },
        result is Err ==> *final(config) == *old(config),
{
    lemma_keys_differ();
}

/// Setting the wrapping mode keeps `auto` and every width as they are given, forgets the mode for
/// `no`, and refuses anything else without a change. No other field changes.
pub proof fn law_wrap_is_set(config: &mut Config, value: &str, result: Result<(), ConfigError>)
    requires
        call_ensures(Config::set_wrap, (config, value), result),
    ensures
        result is Ok <==> value@ == "no"@ || value@ == "auto"@ || is_u16_text(value@),
        result is Ok && value@ == "no"@ ==> final(config).wrap is None,
        result is Ok && value@ != "no"@ ==> {
            &&& final(config).wrap is Some
            &&& final(config).wrap->0@ == value@
        },
        result matches Err(error) ==> {
            &&& error == ConfigError::InvalidWrap
            &&& final(config).wrap == old(config).wrap
        },
        *final(config) == (Config { wrap: final(config).wrap, ..*old(config) }),
{
}

/// The tokens that are left and those of the session are together those of the model, unless the
/// session has more; then none are left. Without a session all are.
pub proof fn law_tokens_that_remain(config: Config, tokens: usize)
    requires
        call_ensures(Config::get_reamind_tokens, (&config,), tokens),
    ensures
        config.session is None ==> tokens == config.model_info.max_tokens,
        config.session matches Some(session) ==> {
            &&& session.tokens <= config.model_info.max_tokens ==> tokens + session.tokens
                == config.model_info.max_tokens
            &&& session.tokens >= config.model_info.max_tokens ==> tokens == 0
        },
{
}

/// A variable turns a switch on with `1` and `true`, off with `0` and `false`, and leaves it with
/// any other text.
pub proof fn law_variables_set_switches(target: &mut bool, value: &str)
    requires
        call_ensures(set_bool, (target, value), ()),
    ensures
        value@ == "1"@ || value@ == "true"@ ==> *final(target),
        value@ == "0"@ || value@ == "false"@ ==> !*final(target),
        value@ != "1"@ && value@ != "true"@ && value@ != "0"@ && value@ != "false"@
            ==> *final(target) == *old(target),
{
    lemma_keys_differ();
}

/// The switch `highlight` is set to false where `NO_COLOR` is `1` or `true`, and left otherwise;
/// nothing else changes.
pub proof fn law_no_color_is_heeded(config: &mut Config, no_color: Option<&str>)
    requires
        call_ensures(Config::merge_env_vars, (config, no_color), ()),
    ensures
        no_color matches Some(value) && (value@ == "1"@ || value@ == "true"@)
            ==> !final(config).highlight,
        !(no_color matches Some(value) && (value@ == "1"@ || value@ == "true"@))
            ==> final(config).highlight == old(config).highlight,
        *final(config) == (Config { highlight: final(config).highlight, ..*old(config) }),
{
    lemma_keys_differ();
}

/// The light theme is used where the configuration asks for it; else where the variable
/// `light_theme` is `1` or `true`; else, where that is not set, where the colours of the terminal
/// are read as light ones. Nothing else changes.
pub proof fn law_theme_is_detected<L: FnOnce(&str) -> Option<bool>>(
    config: &mut Config,
    light_theme: Option<&str>,
    colorfgbg: Option<&str>,
    light_theme_from_colorfgbg: L,
    result: Result<(), ConfigError>,
)
    requires
        call_ensures(
            Config::detect_theme::<L>,
            (config, light_theme, colorfgbg, light_theme_from_colorfgbg),
            result,
        ),
    ensures
        result is Ok,
        old(config).light_theme ==> final(config).light_theme,
        !old(config).light_theme ==> {
            &&& light_theme matches Some(value) ==> final(config).light_theme == (value@ == "1"@
                || value@ == "true"@)
            &&& light_theme is None && colorfgbg is None ==> !final(config).light_theme
            &&& light_theme is None && colorfgbg is Some ==> exists|light: Option<bool>|
                #[trigger] light_theme_from_colorfgbg.ensures((colorfgbg->0,), light)
                    && final(config).light_theme == (light == Some(true))
        },
        *final(config) == (Config { light_theme: final(config).light_theme, ..*old(config) }),
{
    lemma_keys_differ();
}

/// The configuration to start from saves messages, is not run dry, has the switch `highlight` on
/// and every other off, one OpenAI client, and nothing chosen, selected or said.
pub proof fn law_default_configuration(openai: OpenAIConfig, model_info: ModelInfo, config: Config)
    requires
        call_ensures(Config::default, (openai, model_info), config),
    ensures
        config.save && config.highlight,
        !config.dry_run && !config.light_theme && !config.wrap_code && !config.auto_copy,
        config.model is None,
        config.wrap is None,
        config.role is None,
        config.session is None,
        config.last_message is None,
        config.default_temperature is None,
        config.temperature is None,
        config.keybindings != Keybindings::Vi,
        config.model_info == model_info,
        config.roles@.len() == 0,
        config.clients@.len() == 1,
        config.clients@[0] == ClientConfig::OpenAI(openai),
{
}

/// The key bindings are shown as `emacs` and `vi`.
pub proof fn law_key_bindings_are_shown(keys: Keybindings, text: &str, vi: bool)
    requires
        call_ensures(Keybindings::stringify, (&keys,), text),
        call_ensures(Keybindings::is_vi, (&keys,), vi),
    ensures
        keys == Keybindings::Emacs ==> text@ == "emacs"@ && !vi,
        keys == Keybindings::Vi ==> text@ == "vi"@ && vi,
{
}

} // verus!
