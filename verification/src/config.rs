//! The configuration and the settings that a user changes in it.
use crate::client::{ClientConfig, ModelInfo, OpenAIConfig};
use crate::error::ConfigError;
use crate::keybindings::Keybindings;
use crate::role::{Role, Temperature};
use crate::session::Session;
use crate::text::{is_u16_text, parses_as_u16, same_text, texts, words, words_of};
use vstd::prelude::*;

verus! {

#[derive(Clone, Debug)]
pub struct Config {
    /// The model to start with
    pub model: Option<String>,
    /// The temperature where neither a role nor a session asks for another, between 0 and 2;
    /// nothing checks the range
    pub default_temperature: Option<Temperature>,
    /// Whether to save the message
    pub save: bool,
    /// Whether to disable highlight
    pub highlight: bool,
    /// Used only for debugging
    pub dry_run: bool,
    /// Whether to use a light theme
    pub light_theme: bool,
    /// The text-wrapping mode (none, auto, <max-width>)
    pub wrap: Option<String>,
    /// Whether to wrap code blocks
    pub wrap_code: bool,
    /// Whether to copy the last output to the clipboard
    pub auto_copy: bool,
    /// The key bindings of the prompt
    pub keybindings: Keybindings,
    /// The platforms
    pub clients: Vec<ClientConfig>,
    /// Predefined roles
    pub roles: Vec<Role>,
    /// The selected role
    pub role: Option<Role>,
    /// The session under way
    pub session: Option<Session>,
    /// The model in use
    pub model_info: ModelInfo,
    /// The last question and its answer
    pub last_message: Option<(String, String)>,
    /// The temperature in use
    pub temperature: Option<Temperature>,
}

/// What a text says as a truth value: `true` and `false`, and nothing else.
pub open spec fn flag_of(text: Seq<char>) -> Option<bool> {
    if text == "true"@ {
        Some(true)
    } else if text == "false"@ {
        Some(false)
    } else {
        None
    }
}

/// What an environment variable says as a truth value; any other text says nothing.
pub open spec fn env_flag_of(text: Seq<char>) -> Option<bool> {
    if text == "1"@ || text == "true"@ {
        Some(true)
    } else if text == "0"@ || text == "false"@ {
        Some(false)
    } else {
        None
    }
}

/// `config` with `value` as the temperature in use, in its session too.
pub open spec fn with_temperature(config: Config, value: Option<Temperature>) -> Config {
    Config {
        temperature: value,
        session: match config.session {
            Some(session) => Some(Session { temperature: value, ..session }),
            None => None,
        },
        ..config
    }
}

/// Setting the wrapping mode to `value` takes `before` to `after` and gives `result`.
pub open spec fn wrap_set(
    before: Config,
    value: Seq<char>,
    after: Config,
    result: Result<(), ConfigError>,
) -> bool {
    if value == "no"@ {
        result is Ok && after == (Config { wrap: None, ..before })
    } else if value == "auto"@ || is_u16_text(value) {
        &&& result is Ok
        &&& after.wrap is Some
        &&& after.wrap->0@ == value
        &&& after == (Config { wrap: after.wrap, ..before })
    } else {
        result == Err::<(), _>(ConfigError::InvalidWrap) && after == before
    }
}

/// Setting one switch from `value`, where `with` is the configuration with the switch so set.
pub open spec fn flag_set(
    before: Config,
    value: Seq<char>,
    with: spec_fn(bool) -> Config,
    after: Config,
    result: Result<(), ConfigError>,
) -> bool {
    match flag_of(value) {
        Some(flag) => result is Ok && after == with(flag),
        None => result == Err::<(), _>(ConfigError::InvalidValue) && after == before,
    }
}

/// Setting the temperature from `value`, which `parse_temperature` reads as a number.
pub open spec fn temperature_updated<N: FnOnce(&str) -> Option<Temperature>>(
    before: Config,
    value: Seq<char>,
    parse_temperature: N,
    after: Config,
    result: Result<(), ConfigError>,
) -> bool {
    if value == "null"@ {
        result is Ok && after == with_temperature(before, None)
    } else {
        exists|text: &str, number: Option<Temperature>|
            {
                &&& text@ == value
                &&& #[trigger] parse_temperature.ensures((text,), number)
                &&& match number {
                    Some(_) => result is Ok && after == with_temperature(before, number),
                    None => result == Err::<(), _>(ConfigError::InvalidValue) && after == before,
                }
            }
    }
}

/// The setting in `data` takes `before` to `after` and gives `result`.
pub open spec fn updated<N: FnOnce(&str) -> Option<Temperature>>(
    before: Config,
    data: Seq<char>,
    parse_temperature: N,
    after: Config,
    result: Result<(), ConfigError>,
) -> bool {
    let parts = words_of(data);
    if parts.len() != 2 {
        result == Err::<(), _>(ConfigError::UpdateUsage) && after == before
    } else if parts[0] == "temperature"@ {
        temperature_updated(before, parts[1], parse_temperature, after, result)
    } else if parts[0] == "save"@ {
        flag_set(before, parts[1], |flag: bool| Config { save: flag, ..before }, after, result)
    } else if parts[0] == "highlight"@ {
        flag_set(before, parts[1], |flag: bool| Config { highlight: flag, ..before }, after, result)
    } else if parts[0] == "dry_run"@ {
        flag_set(before, parts[1], |flag: bool| Config { dry_run: flag, ..before }, after, result)
    } else {
        &&& result matches Err(ConfigError::UnknownKey(key)) && key@ == parts[0]
        &&& after == before
    }
}

/// `before` after the variable `NO_COLOR` was read, which can set the switch `highlight` to false.
/// That switch disables highlighting while it is true, so a theme is then used.
pub open spec fn after_no_color(before: Config, no_color: Option<&str>) -> Config {
    if no_color is Some && env_flag_of(no_color->0@) == Some(true) {
        Config { highlight: false, ..before }
    } else {
        before
    }
}

/// Choosing between the light and the dark theme takes `before` to `after`. A light theme stays;
/// else the variable `light_theme` decides, and where it is not set the colours of the terminal.
pub open spec fn theme_detected<L: FnOnce(&str) -> Option<bool>>(
    before: Config,
    light_theme: Option<&str>,
    colorfgbg: Option<&str>,
    light_theme_from_colorfgbg: L,
    after: Config,
) -> bool {
    &&& after == (Config { light_theme: after.light_theme, ..before })
    &&& if before.light_theme {
        after.light_theme
    } else {
        match (light_theme, colorfgbg) {
            (Some(value), _) => after.light_theme == (env_flag_of(value@) == Some(true)),
            (None, Some(colours)) => exists|light: Option<bool>|
                {
                    &&& #[trigger] light_theme_from_colorfgbg.ensures((colours,), light)
                    &&& after.light_theme == (light == Some(true))
                },
            (None, None) => !after.light_theme,
        }
    }
}

fn parse_flag(text: &str) -> (flag: Option<bool>)
    ensures
        flag == flag_of(text@),
{
    if same_text(text, "true") {
        Some(true)
    } else if same_text(text, "false") {
        Some(false)
    } else {
        None
    }
}

/// Sets `target` to what `value` says, and leaves it where that is nothing.
pub fn set_bool(target: &mut bool, value: &str)
    ensures
        *final(target) == (match env_flag_of(value@) {
            Some(flag) => flag,
            None => *old(target),
        }),
{
    if same_text(value, "1") || same_text(value, "true") {
        *target = true;
    } else if same_text(value, "0") || same_text(value, "false") {
        *target = false;
    }
}

impl Config {
    /// The configuration to start from: one OpenAI client, and nothing selected.
    pub fn default(openai: OpenAIConfig, model_info: ModelInfo) -> (config: Config)
        ensures
            config.clients@ == seq![ClientConfig::OpenAI(openai)],
            config.roles@ == Seq::<Role>::empty(),
            config == (Config {
                model: None,
                default_temperature: None,
                save: true,
                highlight: true,
                dry_run: false,
                light_theme: false,
                wrap: None,
                wrap_code: false,
                auto_copy: false,
                keybindings: Keybindings::Emacs,
                clients: config.clients,
                roles: config.roles,
                role: None,
                session: None,
                model_info,
                last_message: None,
                temperature: None,
            }),
    {
        let mut clients: Vec<ClientConfig> = Vec::new();
        clients.push(ClientConfig::OpenAI(openai));
        Config {
            model: None,
            default_temperature: None,
            save: true,
            highlight: true,
            dry_run: false,
            light_theme: false,
            wrap: None,
            wrap_code: false,
            auto_copy: false,
            keybindings: Keybindings::default(),
            clients,
            roles: Vec::new(),
            role: None,
            session: None,
            model_info,
            last_message: None,
            temperature: None,
        }
    }

    pub fn get_temperature(&self) -> (temperature: Option<Temperature>)
        ensures
            temperature == self.temperature,
    {
        self.temperature
    }

    pub fn set_temperature(&mut self, value: Option<Temperature>) -> (result: Result<
        (),
        ConfigError,
    >)
        ensures
            result is Ok,
            *final(self) == with_temperature(*old(self), value),
    {
        self.temperature = value;
        match &mut self.session {
            Some(session) => {
                session.temperature = value;
            },
            None => {},
        }
        Ok(())
    }

    /// Takes `no`, `auto` or a width as the text-wrapping mode.
    pub fn set_wrap(&mut self, value: &str) -> (result: Result<(), ConfigError>)
        ensures
            wrap_set(*old(self), value@, *final(self), result),
    {
        if same_text(value, "no") {
            self.wrap = None;
        } else if same_text(value, "auto") {
            self.wrap = Some(value.to_owned());
        } else {
            if !parses_as_u16(value) {
                return Err(ConfigError::InvalidWrap);
            }
            self.wrap = Some(value.to_owned());
        }
        Ok(())
    }

    /// How many tokens of the model the session leaves.
    pub fn get_reamind_tokens(&self) -> (tokens: usize)
        ensures
            tokens == (match self.session {
                Some(session) => if session.tokens <= self.model_info.max_tokens {
                    self.model_info.max_tokens - session.tokens
                } else {
                    0
                },
                None => self.model_info.max_tokens as int,
            }),
    {
        let mut tokens: usize = self.model_info.max_tokens;
        if let Some(session) = &self.session {
            tokens = tokens.saturating_sub(session.tokens);
        }
        tokens
    }

    /// Changes the setting that `data` names to the value that it gives. The value of a
    /// temperature is read by `parse_temperature`, which gives nothing where it is no number.
    pub fn update<N: FnOnce(&str) -> Option<Temperature>>(
        &mut self,
        data: &str,
        parse_temperature: N,
    ) -> (result: Result<(), ConfigError>)
        requires
            forall|text: &str| parse_temperature.requires((text,)),
        ensures
            updated(*old(self), data@, parse_temperature, *final(self), result),
    {
        let parts = words(data);
        assert(texts(parts@).len() == parts.len());
        if parts.len() != 2 {
            return Err(ConfigError::UpdateUsage);
        }
        let key = parts[0].as_str();
        let value = parts[1].as_str();
        assert(texts(parts@)[0] == key@ && texts(parts@)[1] == value@);
        if same_text(key, "temperature") {
            if same_text(value, "null") {
                self.set_temperature(None)
            } else {
                match parse_temperature(value) {
                    Some(number) => self.set_temperature(Some(number)),
                    None => Err(ConfigError::InvalidValue),
                }
            }
        } else if same_text(key, "save") {
            match parse_flag(value) {
                Some(flag) => {
                    self.save = flag;
                    Ok(())
                },
                None => Err(ConfigError::InvalidValue),
            }
        } else if same_text(key, "highlight") {
            match parse_flag(value) {
                Some(flag) => {
                    self.highlight = flag;
                    Ok(())
                },
                None => Err(ConfigError::InvalidValue),
            }
        } else if same_text(key, "dry_run") {
            match parse_flag(value) {
                Some(flag) => {
                    self.dry_run = flag;
                    Ok(())
                },
                None => Err(ConfigError::InvalidValue),
            }
        } else {
            Err(ConfigError::UnknownKey(parts[0].clone()))
        }
    }

    /// Sets the switch `highlight` to false where `no_color`, the variable of that name, says so.
    /// Highlighting is disabled while the switch is true, as it is to start with; so the variable
    /// leads to a theme being used, and not to one being left out.
    pub fn merge_env_vars(&mut self, no_color: Option<&str>)
        ensures
            *final(self) == after_no_color(*old(self), no_color),
    {
        if let Some(value) = no_color {
            let mut off = false;
            set_bool(&mut off, value);
            if off {
                self.highlight = false;
            }
        }
    }

    /// Chooses between the light and the dark theme, where the configuration does not ask for
    /// the light one: by the variable `light_theme`, and where it is not set by the colours of
    /// the terminal in `colorfgbg`, as `light_theme_from_colorfgbg` reads them.
    pub fn detect_theme<L: FnOnce(&str) -> Option<bool>>(
        &mut self,
        light_theme: Option<&str>,
        colorfgbg: Option<&str>,
        light_theme_from_colorfgbg: L,
    ) -> (result: Result<(), ConfigError>)
        requires
            forall|text: &str| light_theme_from_colorfgbg.requires((text,)),
        ensures
            result is Ok,
            theme_detected(
                *old(self),
                light_theme,
                colorfgbg,
                light_theme_from_colorfgbg,
                *final(self),
            ),
    {
        if self.light_theme {
            return Ok(());
        }
        if let Some(value) = light_theme {
            let mut light = self.light_theme;
            set_bool(&mut light, value);
            self.light_theme = light;
        } else if let Some(colours) = colorfgbg {
            if let Some(light) = light_theme_from_colorfgbg(colours) {
                self.light_theme = light;
            }
        }
        Ok(())
    }
}

} // verus!
