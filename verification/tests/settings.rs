use chat_config::client::{ClientConfig, ModelInfo, OpenAIConfig};
use chat_config::config::{set_bool, Config};
use chat_config::error::ConfigError;
use chat_config::keybindings::Keybindings;
use chat_config::role::Temperature;
use chat_config::session::Session;
use chat_config::text::{decimal, padded, parses_as_u16, words};

fn openai() -> OpenAIConfig {
    OpenAIConfig { api_key: None, organization_id: None, extra: None }
}

fn config() -> Config {
    Config::default(
        openai(),
        ModelInfo { client: "openai".to_string(), name: "small".to_string(), max_tokens: 100 },
    )
}

fn session() -> Session {
    Session {
        name: "work".to_string(),
        model: "openai:small".to_string(),
        temperature: None,
        tokens: 30,
        is_empty: true,
        should_save: false,
        is_temp: false,
    }
}

fn number(text: &str) -> Option<Temperature> {
    text.parse::<f64>().ok().map(|value| Temperature { bits: value.to_bits() })
}

fn degrees(value: f64) -> Option<Temperature> {
    Some(Temperature { bits: value.to_bits() })
}

#[test]
fn default_config() {
    let config = config();
    assert_eq!(config.model, None);
    assert_eq!(config.default_temperature, None);
    assert!(config.save && config.highlight);
    assert!(!config.dry_run && !config.light_theme && !config.wrap_code && !config.auto_copy);
    assert_eq!(config.wrap, None);
    assert_eq!(config.keybindings, Keybindings::default());
    assert_eq!(config.clients, vec![ClientConfig::OpenAI(openai())]);
    assert!(config.roles.is_empty());
    assert!(config.role.is_none() && config.session.is_none());
    assert_eq!(config.last_message, None);
    assert_eq!(config.temperature, None);
    assert_eq!(config.model_info.stringify(), "openai:small");
}

#[test]
fn keybindings_names() {
    assert_eq!(Keybindings::default(), Keybindings::Emacs);
    assert!(!Keybindings::default().is_vi());
    assert_eq!(Keybindings::default().stringify(), "emacs");
    assert_ne!(Keybindings::Emacs.stringify(), Keybindings::Vi.stringify());
    assert!(!Keybindings::Emacs.is_vi());
    assert!(Keybindings::Vi.is_vi());
    assert_eq!(Keybindings::Emacs.stringify(), "emacs");
    assert_eq!(Keybindings::Vi.stringify(), "vi");
}

#[test]
fn set_bool_reads_four_words() {
    let mut target = false;
    set_bool(&mut target, "1");
    assert!(target);
    set_bool(&mut target, "yes");
    assert!(target);
    set_bool(&mut target, "0");
    assert!(!target);
    set_bool(&mut target, "true");
    assert!(target);
    set_bool(&mut target, "");
    assert!(target);
    set_bool(&mut target, "false");
    assert!(!target);
    set_bool(&mut target, "TRUE");
    assert!(!target);
}

#[test]
fn temperature_reads_back() {
    let mut config = config();
    config.session = Some(session());
    assert_eq!(config.set_temperature(degrees(0.5)), Ok(()));
    assert_eq!(config.get_temperature(), degrees(0.5));
    assert_eq!(config.session.as_ref().unwrap().temperature, degrees(0.5));
    assert_eq!(config.set_temperature(None), Ok(()));
    assert_eq!(config.get_temperature(), None);
    assert_eq!(config.session.as_ref().unwrap().temperature, None);
    assert_eq!(config.session.as_ref().unwrap().tokens, 30);
}

#[test]
fn update_switches() {
    let mut config = config();
    assert_eq!(config.update("save false", number), Ok(()));
    assert!(!config.save);
    assert_eq!(config.update("  save\t true\n", number), Ok(()));
    assert!(config.save);
    assert_eq!(config.update("highlight false", number), Ok(()));
    assert!(!config.highlight);
    assert_eq!(config.update("dry_run true", number), Ok(()));
    assert!(config.dry_run);
}

#[test]
fn update_temperature() {
    let mut config = config();
    config.session = Some(session());
    assert_eq!(config.update("temperature 0.7", number), Ok(()));
    assert_eq!(config.temperature, degrees(0.7));
    assert_eq!(config.session.as_ref().unwrap().temperature, degrees(0.7));
    assert_eq!(config.update("temperature hot", number), Err(ConfigError::InvalidValue));
    assert_eq!(config.temperature, degrees(0.7));
    assert_eq!(config.update("temperature null", number), Ok(()));
    assert_eq!(config.temperature, None);
    assert_eq!(config.session.as_ref().unwrap().temperature, None);
}

#[test]
fn update_hands_over_the_value() {
    let mut config = config();
    let mut asked = String::new();
    let result = config.update("temperature 1e-1", |text: &str| {
        asked = text.to_string();
        None
    });
    assert_eq!(result, Err(ConfigError::InvalidValue));
    assert_eq!(asked, "1e-1");
}

#[test]
fn update_refusals() {
    let mut config = config();
    assert_eq!(config.update("", number), Err(ConfigError::UpdateUsage));
    assert_eq!(config.update("save", number), Err(ConfigError::UpdateUsage));
    assert_eq!(config.update("save true now", number), Err(ConfigError::UpdateUsage));
    assert_eq!(config.update("save null", number), Err(ConfigError::InvalidValue));
    assert_eq!(config.update("save True", number), Err(ConfigError::InvalidValue));
    assert_eq!(config.update("highlight 1", number), Err(ConfigError::InvalidValue));
    assert_eq!(config.update("dry_run maybe", number), Err(ConfigError::InvalidValue));
    assert_eq!(
        config.update("colour red", number),
        Err(ConfigError::UnknownKey("colour".to_string()))
    );
    assert!(config.save && config.highlight && !config.dry_run);
}

#[test]
fn offered_settings_are_accepted() {
    let offered = config().repl_completions(&|_: &Config| vec![], &vec![]);
    assert_eq!(offered.len(), 7);
    for command in &offered[1..] {
        let mut config = config();
        assert_eq!(config.update(&command[".set ".len()..], |_: &str| None), Ok(()));
    }
    assert_eq!(
        config().update(&offered[0][".set ".len()..], number),
        Err(ConfigError::UpdateUsage)
    );
}

#[test]
fn wrap_modes() {
    let mut config = config();
    assert_eq!(config.set_wrap("auto"), Ok(()));
    assert_eq!(config.wrap.as_deref(), Some("auto"));
    for width in ["0", "80", "65535", "+7", "0080", "000000065535"] {
        assert_eq!(config.set_wrap(width), Ok(()));
        assert_eq!(config.wrap.as_deref(), Some(width));
    }
    for width in ["", "+", "-1", "65536", " 80", "8 0", "wide", "++1", "1_0", "Auto", "NO"] {
        assert_eq!(config.set_wrap(width), Err(ConfigError::InvalidWrap));
        assert_eq!(config.wrap.as_deref(), Some("000000065535"));
    }
    assert_eq!(config.set_wrap("no"), Ok(()));
    assert_eq!(config.wrap, None);
}

#[test]
fn accepted_wrap_is_accepted_again() {
    let mut config = config();
    config.set_wrap("+80").unwrap();
    let kept = config.wrap.clone().unwrap();
    assert_eq!(config.set_wrap(&kept), Ok(()));
    assert_eq!(config.wrap, Some(kept));
}

#[test]
fn remaining_tokens() {
    let mut config = config();
    assert_eq!(config.get_reamind_tokens(), 100);
    config.session = Some(session());
    assert_eq!(config.get_reamind_tokens(), 70);
    config.session.as_mut().unwrap().tokens = 100;
    assert_eq!(config.get_reamind_tokens(), 0);
    config.session.as_mut().unwrap().tokens = 101;
    assert_eq!(config.get_reamind_tokens(), 0);
}

#[test]
fn no_color_only_turns_off() {
    for (value, expected) in
        [(None, true), (Some("1"), false), (Some("true"), false), (Some("0"), true), (Some("x"), true)]
    {
        let mut config = config();
        config.merge_env_vars(value);
        assert_eq!(config.highlight, expected);
    }
    let mut config = config();
    config.highlight = false;
    config.merge_env_vars(Some("false"));
    assert!(!config.highlight);
}

#[test]
fn theme_is_detected() {
    let light = |colours: &str| match colours {
        "0;15" => Some(true),
        "15;0" => Some(false),
        _ => None,
    };
    for (variable, colours, expected) in [
        (None, None, false),
        (Some("1"), None, true),
        (Some("0"), Some("0;15"), false),
        (Some("?"), Some("0;15"), false),
        (None, Some("0;15"), true),
        (None, Some("15;0"), false),
        (None, Some("default"), false),
    ] {
        let mut config = config();
        assert_eq!(config.detect_theme(variable, colours, light), Ok(()));
        assert_eq!(config.light_theme, expected);
    }
    let mut config = config();
    config.light_theme = true;
    assert_eq!(config.detect_theme(Some("0"), Some("15;0"), light), Ok(()));
    assert!(config.light_theme);
}

#[test]
fn words_split_at_all_white_space() {
    assert_eq!(words("a\u{3000}b"), vec!["a", "b"]);
    assert_eq!(words("a\u{a0}b\u{2003}\u{85}c\u{b}d"), vec!["a", "b", "c", "d"]);
    assert_eq!(words("a\u{200b}b"), vec!["a\u{200b}b"]);
    assert_eq!(words(" \n "), Vec::<String>::new());
    assert_eq!(words("größe 東京"), vec!["größe", "東京"]);
}

#[test]
fn white_space_is_the_one_of_the_standard_library() {
    let mut others = String::new();
    for c in (0..0x11_0000u32).filter_map(char::from_u32) {
        if c.is_whitespace() {
            assert_eq!(words(&format!("a{}b", c)), vec!["a", "b"]);
        } else {
            others.push(c);
        }
    }
    assert_eq!(words(&others), vec![others]);
}

#[test]
fn widths_are_the_numbers_of_the_standard_library() {
    for text in ["", "+", "-0", "+0", "00", "+00065535", "65535", "65536", "99999999999", "6553x",
        "\u{661}", "1+", "++1", " 1", "1 ", "0x1", "000000000000000000000000001", "65540"]
    {
        assert_eq!(parses_as_u16(text), text.parse::<u16>().is_ok());
    }
    for number in 0..70000u32 {
        assert_eq!(parses_as_u16(&format!("{}", number)), number <= 65535);
    }
}

#[test]
fn numbers_and_columns() {
    assert_eq!(decimal(0), "0");
    assert_eq!(decimal(9), "9");
    assert_eq!(decimal(10), "10");
    assert_eq!(decimal(40960), "40960");
    assert_eq!(decimal(usize::MAX), format!("{}", usize::MAX));
    assert_eq!(padded("ab", 5), "ab   ");
    assert_eq!(padded("größe", 6), "größe ");
    assert_eq!(padded("abcdef", 5), "abcdef");
}

#[test]
fn error_messages() {
    let name = || "x".to_string();
    for (error, text) in [
        (ConfigError::UnknownRole(name()), "Unknown role `x`"),
        (ConfigError::NoConfigDir, "Not found config dir"),
        (ConfigError::ExceedMaxTokens, "Exceed max tokens limit"),
        (ConfigError::InvalidWrap, "Invalid wrap value"),
        (ConfigError::UnknownModel(name()), "Unknown model 'x'"),
        (
            ConfigError::UpdateUsage,
            "Usage: .set <key> <value>. If value is null, unset key.",
        ),
        (ConfigError::InvalidValue, "Invalid value"),
        (ConfigError::UnknownKey(name()), "Unknown key `x`"),
        (
            ConfigError::AlreadyInSession,
            "Already in a session, please use '.clear session' to exit the session first?",
        ),
        (ConfigError::CleanSession, "Failed to clean previous session"),
        (ConfigError::NoModel, "No available model"),
        (ConfigError::NoParent(name()), "Failed to write to x, No parent path"),
        (ConfigError::InvalidConfig(name()), "x"),
        (ConfigError::Session(name()), "x"),
    ] {
        assert_eq!(error.message(), text);
    }
}
