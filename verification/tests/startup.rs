use chat_config::client::{ClientConfig, ExtraConfig, ModelInfo, OpenAIConfig};
use chat_config::config::Config;
use chat_config::error::ConfigError;
use chat_config::info::{InfoPaths, PathState, ThemeSource};
use chat_config::keybindings::Keybindings;
use chat_config::legacy::{legacy_fields, Entry, LegacyFields};
use chat_config::paths::{LocalPath, Surroundings};
use chat_config::role::{Role, Temperature};
use chat_config::session::Session;
use chat_config::startup::{create_config_file, ensure_parent_exists, Environment, InitError, Setup};

fn degrees(value: f64) -> Option<Temperature> {
    Some(Temperature { bits: value.to_bits() })
}

fn config() -> Config {
    Config::default(
        OpenAIConfig {
            api_key: Some("old-key".to_string()),
            organization_id: Some("old-org".to_string()),
            extra: None,
        },
        ModelInfo { client: "openai".to_string(), name: "small".to_string(), max_tokens: 100 },
    )
}

fn offer(_: &Config) -> Vec<ModelInfo> {
    vec![
        ModelInfo { client: "openai".to_string(), name: "gpt-4".to_string(), max_tokens: 8 },
        ModelInfo { client: "openai".to_string(), name: "gpt-3".to_string(), max_tokens: 4 },
    ]
}

fn agree(session: Session, _: &str) -> (Session, Result<(), String>) {
    (session, Ok(()))
}

fn openai(config: &Config) -> &OpenAIConfig {
    match &config.clients[0] {
        ClientConfig::OpenAI(client) => client,
        other => panic!("{:?}", other),
    }
}

#[test]
fn old_file_is_taken_over() {
    let mut config = config();
    let content = "model: gpt-4\napi_key: key\nproxy: socks5://x\nconnect_timeout: 10\n";
    assert_eq!(config.compat_old_config(content, "openai"), Ok(()));
    assert_eq!(config.model.as_deref(), Some("openai:gpt-4"));
    assert_eq!(
        openai(&config),
        &OpenAIConfig {
            api_key: Some("key".to_string()),
            organization_id: Some("old-org".to_string()),
            extra: Some(ExtraConfig {
                proxy: Some("socks5://x".to_string()),
                connect_timeout: Some(10),
            }),
        }
    );
    let once = config.clients.clone();
    assert_eq!(config.compat_old_config(content, "openai"), Ok(()));
    assert_eq!(config.clients, once);
    assert_eq!(config.model.as_deref(), Some("openai:gpt-4"));
}

#[test]
fn file_with_clients_is_left_alone() {
    let mut config = config();
    let before = config.clients.clone();
    assert_eq!(
        config.compat_old_config("model: gpt-4\nclients: null\napi_key: key\n", "openai"),
        Ok(())
    );
    assert_eq!(config.model, None);
    assert_eq!(config.clients, before);
}

#[test]
fn old_values_of_another_kind_are_passed_over() {
    let mut config = config();
    config.model = Some("kept".to_string());
    let content = "model: llama\napi_key: 5\norganization_id: [a]\nconnect_timeout: -1\nproxy: true\n";
    assert_eq!(config.compat_old_config(content, "openai"), Ok(()));
    assert_eq!(config.model.as_deref(), Some("kept"));
    assert_eq!(openai(&config).api_key.as_deref(), Some("old-key"));
    assert_eq!(openai(&config).organization_id.as_deref(), Some("old-org"));
    assert_eq!(
        openai(&config).extra,
        Some(ExtraConfig { proxy: None, connect_timeout: Some(u64::MAX) })
    );
}

#[test]
fn old_file_that_is_no_table() {
    for content in ["", "- a\n- b\n", "text"] {
        let mut config = config();
        assert_eq!(config.compat_old_config(content, "openai"), Ok(()));
        assert_eq!(config.model, None);
        assert_eq!(
            openai(&config).extra,
            Some(ExtraConfig { proxy: None, connect_timeout: None })
        );
    }
    let mut config = config();
    let content = "model: [";
    let error = serde_yaml::from_str::<serde_json::Value>(content).unwrap_err();
    assert_eq!(
        config.compat_old_config(content, "openai"),
        Err(ConfigError::InvalidConfig(error.to_string()))
    );
    assert_eq!(openai(&config).extra, None);
}

#[test]
fn old_file_without_an_openai_client() {
    let mut config = config();
    config.clients = vec![ClientConfig::Other("local".to_string())];
    assert_eq!(config.compat_old_config("model: gpt-4\napi_key: key\n", "openai"), Ok(()));
    assert_eq!(config.model.as_deref(), Some("openai:gpt-4"));
    assert_eq!(config.clients, vec![ClientConfig::Other("local".to_string())]);
    config.clients = vec![];
    assert_eq!(config.compat_old_config("api_key: key\n", "openai"), Ok(()));
    assert!(config.clients.is_empty());
}

#[test]
fn old_fields_of_a_table() {
    let text = |value: &str| Entry::Text(value.to_string());
    let table = vec![
        ("organization_id".to_string(), text("org")),
        ("connect_timeout".to_string(), Entry::Number(Some(3))),
        ("model".to_string(), Entry::Null),
        ("proxy".to_string(), Entry::Flag(true)),
        ("api_key".to_string(), Entry::List),
    ];
    let fields = legacy_fields(&table);
    assert!(!fields.has_clients);
    assert_eq!(fields.organization_id.as_deref(), Some("org"));
    assert_eq!(fields.connect_timeout, Some(3));
    assert_eq!((fields.model, fields.proxy, fields.api_key), (None, None, None));
    let fields = legacy_fields(&vec![
        ("clients".to_string(), Entry::Table),
        ("connect_timeout".to_string(), Entry::Number(None)),
    ]);
    assert!(fields.has_clients);
    assert_eq!(fields.connect_timeout, None);

    let mut config = config();
    config.apply_legacy(
        LegacyFields {
            has_clients: false,
            model: Some("gpt".to_string()),
            api_key: None,
            organization_id: Some("org".to_string()),
            proxy: None,
            connect_timeout: Some(i64::MIN),
        },
        "oa",
    );
    assert_eq!(config.model.as_deref(), Some("oa:gpt"));
    assert_eq!(openai(&config).api_key.as_deref(), Some("old-key"));
    assert_eq!(openai(&config).organization_id.as_deref(), Some("org"));
    assert_eq!(openai(&config).extra.as_ref().unwrap().connect_timeout, Some(1 << 63));
}

#[test]
fn where_the_configuration_comes_from() {
    for (interactive, key, exists, create, load) in [
        (true, false, false, true, true),
        (true, true, false, false, false),
        (true, false, true, false, true),
        (true, true, true, false, true),
        (false, false, false, false, true),
        (false, true, false, false, false),
    ] {
        let plan = Config::init_plan(interactive, key, exists);
        assert_eq!((plan.create, plan.load), (create, load));
    }
}

fn environment<'a>(no_color: Option<&'a str>, light_theme: Option<&'a str>) -> Environment<'a> {
    Environment { no_color, light_theme, colorfgbg: Some("0;15") }
}

fn colours(colorfgbg: &str) -> Option<bool> {
    Some(colorfgbg == "0;15")
}

fn shell() -> Role {
    Role { name: "shell".to_string(), prompt: "be terse".to_string(), temperature: None }
}

#[test]
fn ready_configuration() {
    let mut read = config();
    read.default_temperature = degrees(0.4);
    read.wrap = Some("no".to_string());
    let ready = Config::init(
        read.clone(),
        Some("model: gpt-3\napi_key: key\n"),
        "openai",
        environment(Some("1"), None),
        &offer,
        agree,
        || Ok(Some(vec![shell()])),
        || Ok::<(), String>(()),
        colours,
    )
    .unwrap();
    assert_eq!(ready.temperature, degrees(0.4));
    assert_eq!(ready.wrap, None);
    assert_eq!(ready.model_info.name, "gpt-3");
    assert!(!ready.highlight);
    assert!(ready.light_theme);
    assert_eq!(ready.roles[0].name, "shell");
    assert_eq!(openai(&ready).api_key.as_deref(), Some("key"));

    let ready = Config::init(
        read,
        None,
        "openai",
        environment(None, Some("0")),
        &offer,
        agree,
        || Ok(None),
        || Ok::<(), String>(()),
        colours,
    )
    .unwrap();
    assert_eq!(ready.model_info.name, "gpt-4");
    assert!(ready.highlight);
    assert!(!ready.light_theme);
    assert!(ready.roles.is_empty());
    assert_eq!(openai(&ready).api_key.as_deref(), Some("old-key"));
}

#[test]
fn configuration_that_cannot_be_used() {
    let init = |config: Config, existing: Option<&str>, roles: bool, dir: bool| {
        let refuse = |good: bool, text: &str| if good { Ok(()) } else { Err(text.to_string()) };
        Config::init(
            config,
            existing,
            "openai",
            environment(None, None),
            &offer,
            agree,
            || refuse(roles, "roles").map(|_| None),
            || refuse(dir, "dir"),
            colours,
        )
        .map(|_| ())
        .map_err(|error| match error {
            InitError::Config(error) => Err(error),
            InitError::Files(text) => Ok(text),
        })
    };
    let invalid = init(config(), Some("{"), false, false);
    assert!(matches!(invalid, Err(Err(ConfigError::InvalidConfig(_)))));
    let mut wide = config();
    wide.wrap = Some("wide".to_string());
    wide.model = Some("gone".to_string());
    assert_eq!(init(wide.clone(), None, false, false), Err(Err(ConfigError::InvalidWrap)));
    wide.wrap = None;
    assert_eq!(
        init(wide, None, false, false),
        Err(Err(ConfigError::UnknownModel("gone".to_string())))
    );
    assert_eq!(init(config(), None, false, false), Err(Ok("roles".to_string())));
    assert_eq!(init(config(), None, true, false), Err(Ok("dir".to_string())));
    assert_eq!(init(config(), None, true, true), Ok(()));
}

#[test]
fn roles_are_loaded() {
    let mut config = config();
    config.load_roles(Some(vec![shell()]));
    assert_eq!(config.roles.len(), 1);
    config.load_roles(None);
    assert_eq!(config.roles[0].name, "shell");
}

#[test]
fn making_a_file() {
    let select = || Ok("openai".to_string());
    let settings = |client: &str| -> Result<String, String> {
        Ok(format!("clients:\n- type: {}\n", client))
    };
    let made = create_config_file(true, select, settings).unwrap();
    assert!(
        matches!(made, Setup::Write(text) if text == "clients:\n- type: openai\nmodel: openai\n")
    );
    assert!(matches!(create_config_file(false, select, settings), Ok(Setup::Quit)));
    let cancelled = create_config_file(true, || Err("cancelled".to_string()), settings);
    assert_eq!(cancelled.unwrap_err(), "cancelled");
    let failed = create_config_file(true, select, |_: &str| Err("no key".to_string()));
    assert_eq!(failed.unwrap_err(), "no key");
}

#[test]
fn directory_above_a_file() {
    assert_eq!(ensure_parent_exists("/a/b", true, None), Ok(false));
    assert_eq!(ensure_parent_exists("/a/b", true, Some(false)), Ok(false));
    assert_eq!(ensure_parent_exists("/a/b", false, Some(true)), Ok(false));
    assert_eq!(ensure_parent_exists("/a/b", false, Some(false)), Ok(true));
    assert_eq!(
        ensure_parent_exists("/", false, None),
        Err(ConfigError::NoParent("/".to_string()))
    );
}

fn around(dir: Option<&str>, user: Option<&str>, roles: Option<&str>) -> Surroundings<String> {
    Surroundings {
        config_dir: dir.map(|path| path.to_string()),
        user_config_dir: user.map(|path| path.to_string()),
        roles_file: roles.map(|path| path.to_string()),
        program: "chat".to_string(),
    }
}

fn joined(path: Result<LocalPath<String>, ConfigError>) -> Result<String, ConfigError> {
    path.map(|path| {
        let mut whole = path.base;
        for name in path.names {
            whole = format!("{}/{}", whole, name);
        }
        whole
    })
}

#[test]
fn places() {
    let user = || around(None, Some("/home"), None);
    assert_eq!(joined(Config::config_dir(user())).unwrap(), "/home/chat");
    assert_eq!(joined(Config::config_file(user())).unwrap(), "/home/chat/config.yaml");
    assert_eq!(joined(Config::roles_file(user())).unwrap(), "/home/chat/roles.yaml");
    assert_eq!(joined(Config::messages_file(user())).unwrap(), "/home/chat/messages.md");
    assert_eq!(joined(Config::sessions_dir(user())).unwrap(), "/home/chat/sessions");
    assert_eq!(
        joined(Config::session_file(user(), "work")).unwrap(),
        "/home/chat/sessions/work.yaml"
    );
    assert_eq!(joined(Config::local_path(user(), "x")).unwrap(), "/home/chat/x");

    let given = || around(Some("/etc"), Some("/home"), Some("/roles"));
    assert_eq!(joined(Config::config_dir(given())).unwrap(), "/etc");
    assert_eq!(joined(Config::config_file(given())).unwrap(), "/etc/config.yaml");
    assert_eq!(joined(Config::roles_file(given())).unwrap(), "/roles");
    assert_eq!(joined(Config::session_file(given(), "a")).unwrap(), "/etc/sessions/a.yaml");

    let nowhere = || around(None, None, Some("/roles"));
    assert_eq!(joined(Config::config_dir(nowhere())), Err(ConfigError::NoConfigDir));
    assert_eq!(joined(Config::session_file(nowhere(), "a")), Err(ConfigError::NoConfigDir));
    assert_eq!(joined(Config::roles_file(nowhere())).unwrap(), "/roles");
    assert_eq!(
        joined(Config::roles_file(around(None, None, None))),
        Err(ConfigError::NoConfigDir)
    );
}

#[test]
fn session_files_read_back() {
    for name in ["work", "", "a.yaml", "größe"] {
        let path = Config::session_file(around(Some("/etc"), None, None), name).unwrap();
        assert_eq!(Config::list_sessions(&vec![path.names[1].clone()]), vec![name]);
    }
}

#[test]
fn info_lines() {
    let state = |path: &str, there: bool| PathState { path: path.to_string(), exists_there: there };
    let paths = InfoPaths {
        config_file: state("/c", true),
        roles_file: state("/r", false),
        messages_file: state("/m", true),
        sessions_dir: state("/s", true),
    };
    let mut config = config();
    config.keybindings = Keybindings::Vi;
    assert_eq!(
        config.info_lines(&paths, "-"),
        "config_file         /c\n\
         roles_file          /r ⚠️\n\
         messages_file       /m\n\
         sessions_dir        /s\n\
         model               openai:small\n\
         temperature         -\n\
         save                true\n\
         highlight           true\n\
         light_theme         false\n\
         wrap                no\n\
         wrap_code           false\n\
         dry_run             false\n\
         keybindings         vi\n"
    );
    config.set_temperature(degrees(0.5)).unwrap();
    config.set_wrap("80").unwrap();
    let info = config.info_lines(&paths, "0.5");
    assert!(info.contains("temperature         0.5\n"));
    assert!(info.contains("wrap                80\n"));
}

fn look(path: LocalPath<String>) -> PathState {
    let path = format!("{}/{}", path.base, path.names.join("/"));
    PathState { exists_there: path.ends_with("yaml"), path }
}

fn show(value: Temperature) -> String {
    f64::from_bits(value.bits).to_string()
}

#[test]
fn info_of_places() {
    let mut config = config();
    let info = config.info(|| around(None, Some("/home"), None), look, show).unwrap();
    assert!(info.starts_with(
        "config_file         /home/chat/config.yaml\n\
         roles_file          /home/chat/roles.yaml\n\
         messages_file       /home/chat/messages.md ⚠️\n\
         sessions_dir        /home/chat/sessions ⚠️\n\
         model               openai:small\n\
         temperature         -\n"
    ));
    config.set_temperature(degrees(0.5)).unwrap();
    let info = config.info(|| around(None, Some("/home"), Some("/my")), look, show).unwrap();
    assert!(info.contains("\nroles_file          /my/ ⚠️\n"));
    assert!(info.contains("\ntemperature         0.5\n"));
}

#[test]
fn info_without_a_directory() {
    assert_eq!(
        config().info(|| around(None, None, Some("/my")), look, show),
        Err(ConfigError::NoConfigDir)
    );
    let paths = Config::info_paths(|| around(None, None, None), look);
    assert!(matches!(paths, Err(ConfigError::NoConfigDir)));
}

#[test]
fn render_options() {
    let mut config = config();
    config.set_wrap("auto").unwrap();
    config.wrap_code = true;
    assert_eq!(config.theme_file(), None);
    assert!(matches!(config.get_render_options(true, true).theme, ThemeSource::Plain));
    config.highlight = false;
    assert_eq!(config.theme_file().as_deref(), Some("dark.tmTheme"));
    let options = config.get_render_options(true, true);
    assert!(matches!(options.theme, ThemeSource::File(name) if name == "dark.tmTheme"));
    assert_eq!(options.wrap.as_deref(), Some("auto"));
    assert!(options.wrap_code);
    let options = config.get_render_options(false, false);
    assert!(matches!(options.theme, ThemeSource::Builtin { light: false }));
    assert_eq!(options.wrap, None);
    config.light_theme = true;
    assert_eq!(config.theme_file().as_deref(), Some("light.tmTheme"));
    assert!(matches!(
        config.get_render_options(false, true).theme,
        ThemeSource::Builtin { light: true }
    ));
}
