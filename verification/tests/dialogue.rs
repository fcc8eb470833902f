use chat_config::client::{ModelInfo, OpenAIConfig};
use chat_config::config::Config;
use chat_config::error::ConfigError;
use chat_config::role::{Role, Temperature};
use chat_config::session::{EndStep, Session, StartStep};
use chat_config::sessions::MessageSink;

fn degrees(value: f64) -> Option<Temperature> {
    Some(Temperature { bits: value.to_bits() })
}

fn model(client: &str, name: &str, max_tokens: usize) -> ModelInfo {
    ModelInfo { client: client.to_string(), name: name.to_string(), max_tokens }
}

fn models() -> Vec<ModelInfo> {
    vec![
        model("openai", "small", 100),
        model("openai", "large", 200),
        model("local", "tiny", 50),
        model("local", "tiny", 60),
    ]
}

fn offer(_: &Config) -> Vec<ModelInfo> {
    models()
}

fn role(name: &str, prompt: &str, temperature: Option<Temperature>) -> Role {
    Role { name: name.to_string(), prompt: prompt.to_string(), temperature }
}

fn config() -> Config {
    let mut config = Config::default(
        OpenAIConfig { api_key: None, organization_id: None, extra: None },
        model("openai", "small", 100),
    );
    config.default_temperature = degrees(1.0);
    config.temperature = degrees(1.0);
    config.roles = vec![
        role("shell", "be terse", degrees(0.1)),
        role("convert", "to _", None),
        role("convert", "second", degrees(0.9)),
    ];
    config
}

fn session(name: &str) -> Session {
    Session {
        name: name.to_string(),
        model: "openai:large".to_string(),
        temperature: degrees(0.3),
        tokens: 0,
        is_empty: true,
        should_save: false,
        is_temp: name == "temp",
    }
}

fn matches_name(role: &Role, name: &str) -> bool {
    name.split(':').next() == Some(role.name.as_str())
}

fn complete(mut role: Role, name: &str) -> Role {
    if let Some((_, argument)) = name.split_once(':') {
        role.prompt = role.prompt.replace('_', argument);
    }
    role
}

fn agree(session: Session, _: Option<Role>) -> (Session, Result<(), String>) {
    (session, Ok(()))
}

fn agree_model(mut session: Session, model: &str) -> (Session, Result<(), String>) {
    session.model = model.to_string();
    (session, Ok(()))
}

fn add(mut session: Session, input: &str, output: &str) -> (Session, Result<(), String>) {
    session.is_empty = false;
    session.tokens = input.len() + output.len();
    (session, Ok(()))
}

fn open(name: &str, model: &str, role: Option<Role>) -> Session {
    let mut session = session(name);
    session.model = model.to_string();
    session.temperature = role.and_then(|role| role.temperature);
    session
}

#[test]
fn role_lookup() {
    let config = config();
    let found = config.retrieve_role("convert:json", matches_name, complete).unwrap();
    assert_eq!(found.name, "convert");
    assert_eq!(found.prompt, "to json");
    assert_eq!(found.temperature, None);
    assert_eq!(config.roles[1].prompt, "to _");
    let missing = config.retrieve_role("poet", matches_name, complete);
    assert_eq!(missing.unwrap_err(), ConfigError::UnknownRole("poet".to_string()));
}

#[test]
fn setting_and_clearing_a_role() {
    let mut config = config();
    assert_eq!(config.set_role("shell", matches_name, complete, agree), Ok(()));
    assert_eq!(config.role.as_ref().unwrap().name, "shell");
    assert_eq!(config.temperature, degrees(0.1));
    assert_eq!(config.set_role("convert", matches_name, complete, agree), Ok(()));
    assert_eq!(config.temperature, None);
    assert_eq!(
        config.set_role("poet", matches_name, complete, agree),
        Err(ConfigError::UnknownRole("poet".to_string()))
    );
    assert_eq!(config.role.as_ref().unwrap().name, "convert");
    assert_eq!(config.clear_role(agree), Ok(()));
    assert!(config.role.is_none());
    assert_eq!(config.temperature, degrees(1.0));
}

#[test]
fn session_hears_of_a_role_first() {
    let mut config = config();
    config.session = Some(session("work"));
    let result = config.set_role("shell", matches_name, complete, |mut session: Session, role: Option<Role>| {
        session.name = role.unwrap().name;
        (session, Ok(()))
    });
    assert_eq!(result, Ok(()));
    assert_eq!(config.session.as_ref().unwrap().name, "shell");
    assert_eq!(config.role.as_ref().unwrap().name, "shell");

    let refuse = |mut session: Session, role: Option<Role>| {
        assert!(role.is_none());
        session.tokens = 9;
        (session, Err("busy".to_string()))
    };
    assert_eq!(config.clear_role(refuse), Err(ConfigError::Session("busy".to_string())));
    assert_eq!(config.role.as_ref().unwrap().name, "shell");
    assert_eq!(config.temperature, degrees(0.1));
    assert_eq!(config.session.as_ref().unwrap().tokens, 9);
}

#[test]
fn echo_comes_from_the_session_then_the_role() {
    let mut config = config();
    let echo = |config: &Config| {
        config.echo_messages(
            "hi",
            |session: &Session, content: &str| format!("{} says {}", session.name, content),
            |role: &Role, content: &str| format!("{}: {}", role.prompt, content),
        )
    };
    assert_eq!(echo(&config), "hi");
    config.role = Some(role("shell", "be terse", None));
    assert_eq!(echo(&config), "be terse: hi");
    config.session = Some(session("work"));
    assert_eq!(echo(&config), "work says hi");
}

fn build(config: &Config, content: &str) -> Result<Vec<String>, ConfigError> {
    config.build_messages(
        content,
        |session: &Session, content: &str| vec![session.name.clone(), content.to_string()],
        |role: &Role, content: &str| vec![role.prompt.clone(), content.to_string()],
        |content: &str| content.to_string(),
        &|messages: &Vec<String>| messages.iter().map(|m| m.len()).sum::<usize>(),
    )
}

#[test]
fn messages_stay_under_the_limit() {
    let mut config = config();
    config.model_info.max_tokens = 5;
    assert_eq!(build(&config, "four"), Ok(vec!["four".to_string()]));
    assert_eq!(build(&config, "fives"), Err(ConfigError::ExceedMaxTokens));
    config.role = Some(role("r", "no", None));
    assert_eq!(build(&config, "hi"), Ok(vec!["no".to_string(), "hi".to_string()]));
    config.session = Some(session("s"));
    assert_eq!(build(&config, "hey"), Ok(vec!["s".to_string(), "hey".to_string()]));
    config.model_info.max_tokens = 0;
    assert_eq!(build(&config, ""), Err(ConfigError::ExceedMaxTokens));
}

#[test]
fn send_data_carries_the_temperature() {
    let mut config = config();
    config.set_temperature(degrees(0.2)).unwrap();
    let count = |messages: &Vec<String>| messages.len();
    let data = config
        .prepare_send_data(
            "hi",
            true,
            |_: &Session, _: &str| vec![],
            |_: &Role, _: &str| vec![],
            |content: &str| content.to_string(),
            &count,
        )
        .unwrap();
    assert_eq!(data.messages, vec!["hi".to_string()]);
    assert_eq!(data.temperature, degrees(0.2));
    assert!(data.stream);
    config.model_info.max_tokens = 1;
    let refused = config.prepare_send_data(
        "hi",
        false,
        |_: &Session, _: &str| vec![],
        |_: &Role, _: &str| vec![],
        |content: &str| content.to_string(),
        &count,
    );
    assert_eq!(refused.unwrap_err(), ConfigError::ExceedMaxTokens);
}

#[test]
fn dry_run_tells_the_tokens() {
    let mut config = config();
    let line = |config: &Config| {
        config.maybe_print_send_tokens(
            "hello",
            |_: &Session, _: &str| vec![],
            |_: &Role, _: &str| vec![],
            |content: &str| content.to_string(),
            &|messages: &Vec<String>| messages[0].len() + 37,
        )
    };
    assert_eq!(line(&config), None);
    config.dry_run = true;
    assert_eq!(
        line(&config),
        Some(">>> This message consumes 42 tokens. <<<".to_string())
    );
    config.model_info.max_tokens = 42;
    assert_eq!(line(&config), None);
}

#[test]
fn choosing_a_model() {
    let mut config = config();
    assert_eq!(config.set_model("openai:large", &offer, agree_model), Ok(()));
    assert_eq!(config.model_info, model("openai", "large", 200));
    assert_eq!(config.set_model("local", &offer, agree_model), Ok(()));
    assert_eq!(config.model_info, model("local", "tiny", 50));
    assert_eq!(config.set_model("local:tiny", &offer, agree_model), Ok(()));
    assert_eq!(config.model_info.max_tokens, 50);
    for unknown in ["tiny", "openai:", "openai:tiny", ":", ""] {
        assert_eq!(
            config.set_model(unknown, &offer, agree_model),
            Err(ConfigError::UnknownModel(unknown.to_string()))
        );
    }
    assert_eq!(config.model_info, model("local", "tiny", 50));
}

#[test]
fn session_hears_of_a_model_first() {
    let mut config = config();
    config.session = Some(session("work"));
    assert_eq!(config.set_model("local", &offer, agree_model), Ok(()));
    assert_eq!(config.session.as_ref().unwrap().model, "local:tiny");
    let refuse = |session: Session, _: &str| (session, Err("no".to_string()));
    assert_eq!(
        config.set_model("openai", &offer, refuse),
        Err(ConfigError::Session("no".to_string()))
    );
    assert_eq!(config.model_info.client, "local");
}

#[test]
fn model_to_start_with() {
    let mut config = config();
    assert_eq!(config.set_model_info(&offer, agree_model), Ok(()));
    assert_eq!(config.model_info, models()[0]);
    config.model = Some("local".to_string());
    assert_eq!(config.set_model_info(&offer, agree_model), Ok(()));
    assert_eq!(config.model_info, models()[2]);
    config.model = Some("gone".to_string());
    assert_eq!(
        config.set_model_info(&offer, agree_model),
        Err(ConfigError::UnknownModel("gone".to_string()))
    );
    config.model = None;
    assert_eq!(
        config.set_model_info(&|_: &Config| vec![], agree_model),
        Err(ConfigError::NoModel)
    );
}

#[test]
fn completions_in_order() {
    let config = config();
    let offered = config.repl_completions(
        &|_: &Config| vec![model("a", "b", 1)],
        &vec!["work".to_string(), "home".to_string()],
    );
    assert_eq!(
        offered,
        vec![
            ".role shell",
            ".role convert",
            ".role convert",
            ".set temperature",
            ".set save true",
            ".set save false",
            ".set highlight true",
            ".set highlight false",
            ".set dry_run true",
            ".set dry_run false",
            ".model a:b",
            ".model a:b",
            ".session work",
            ".session home",
        ]
    );
}

#[test]
fn offered_models_can_be_chosen() {
    let offered = config().repl_completions(&offer, &vec![]);
    for command in offered.iter().filter_map(|command| command.strip_prefix(".model ")) {
        let mut config = config();
        assert_eq!(config.set_model(command, &offer, agree_model), Ok(()));
        assert_eq!(config.model_info.stringify(), command);
    }
}

#[test]
fn offered_model_is_accepted_and_stays() {
    for (i, model) in offer(&config()).iter().enumerate() {
        let mut config = config();
        let completion = format!(".model {}", model.stringify());
        let offered = config.repl_completions(&offer, &vec![]);
        let models: Vec<&String> =
            offered.iter().filter(|command| command.starts_with(".model ")).collect();
        assert_eq!(models[i], &completion);
        assert_eq!(config.set_model(&model.stringify(), &offer, agree_model), Ok(()));
        assert_eq!(config.model_info.stringify(), model.stringify());
        let once = config.model_info.clone();
        assert_eq!(config.set_model(&once.stringify(), &offer, agree_model), Ok(()));
        assert_eq!(config.model_info, once);
        assert!(config.save && config.session.is_none() && config.roles.len() == 3);
    }
}

#[test]
fn model_in_use_can_be_chosen_again() {
    for value in ["openai:large", "local", "openai"] {
        let mut config = config();
        config.set_model(value, &offer, agree_model).unwrap();
        let once = config.model_info.clone();
        assert_eq!(config.set_model(&once.stringify(), &offer, agree_model), Ok(()));
        assert_eq!(config.model_info, once);
    }
}

#[test]
fn message_goes_to_the_file() {
    let mut config = config();
    assert_eq!(config.save_message("q", "a", add), Ok(MessageSink::Append));
    assert_eq!(config.last_message, Some(("q".to_string(), "a".to_string())));
    assert_eq!(config.save_message("q", "", add), Ok(MessageSink::Open));
    config.save = false;
    assert_eq!(config.save_message("q2", "a2", add), Ok(MessageSink::Nothing));
    assert_eq!(config.last_message, Some(("q2".to_string(), "a2".to_string())));
}

#[test]
fn message_goes_to_the_session() {
    let mut config = config();
    config.save = false;
    config.session = Some(session("work"));
    assert_eq!(config.save_message("ask", "told", add), Ok(MessageSink::Nothing));
    assert_eq!(config.session.as_ref().unwrap().tokens, 7);
    let refuse = |session: Session, _: &str, _: &str| (session, Err("full".to_string()));
    assert_eq!(
        config.save_message("x", "y", refuse),
        Err(ConfigError::Session("full".to_string()))
    );
    assert_eq!(config.last_message, Some(("x".to_string(), "y".to_string())));
}

#[test]
fn dry_run_keeps_only_the_last_message() {
    let mut config = config();
    config.dry_run = true;
    config.session = Some(session("work"));
    assert_eq!(config.save_message("ask", "told", add), Ok(MessageSink::Nothing));
    assert!(config.session.as_ref().unwrap().is_empty);
    assert_eq!(config.last_message, Some(("ask".to_string(), "told".to_string())));
}

#[test]
fn entries_of_the_message_file() {
    let mut config = config();
    assert_eq!(
        config.message_entry("q", "a", "2023-01-01"),
        "# CHAT:[2023-01-01]\nq\n--------\na\n--------\n\n"
    );
    config.role = Some(role("shell", "", None));
    assert_eq!(
        config.message_entry("q", "a", "2023-01-01"),
        "# CHAT:[2023-01-01] (shell)\nq\n--------\na\n--------\n\n"
    );
}

fn probe(step: StartStep) -> (String, bool) {
    match step {
        StartStep::Probe { name, temp } => (name, temp),
        other => panic!("{:?}", other),
    }
}

#[test]
fn a_new_session() {
    let mut config = config();
    config.role = Some(role("shell", "", degrees(0.1)));
    let (name, temp) =
        probe(config.start_session(&Some("work".to_string()), "temp").unwrap());
    assert_eq!((name.as_str(), temp), ("work", false));
    let step = config.session_probed(name, temp, false, open);
    assert!(matches!(step, StartStep::Started));
    let opened = config.session.as_ref().unwrap();
    assert_eq!(opened.name, "work");
    assert_eq!(opened.model, "openai:small");
    assert_eq!(opened.temperature, degrees(0.1));
    assert_eq!(config.temperature, degrees(1.0));
    assert_eq!(
        config.start_session(&None, "temp").unwrap_err(),
        ConfigError::AlreadyInSession
    );
}

#[test]
fn a_temporary_session_takes_up_the_last_message() {
    let mut config = config();
    config.last_message = Some(("ask".to_string(), "told".to_string()));
    let (name, temp) = probe(config.start_session(&None, "temp").unwrap());
    assert_eq!((name.as_str(), temp), ("temp", true));
    let step = config.session_probed(name, temp, true, open);
    let name = match step {
        StartStep::Remove { name } => name,
        other => panic!("{:?}", other),
    };
    assert!(config.session.is_none());
    assert_eq!(
        config.session_removed(name.clone(), false, open).unwrap_err(),
        ConfigError::CleanSession
    );
    assert!(config.session.is_none());
    let step = config.session_removed(name, true, open).unwrap();
    assert!(matches!(step, StartStep::Ask));
    assert_eq!(config.session_answered(false, add), Ok(()));
    assert!(config.session.as_ref().unwrap().is_empty);
    assert_eq!(config.session_answered(true, add), Ok(()));
    assert_eq!(config.session.as_ref().unwrap().tokens, 7);
    let refuse = |session: Session, _: &str, _: &str| (session, Err("full".to_string()));
    assert_eq!(
        config.session_answered(true, refuse),
        Err(ConfigError::Session("full".to_string()))
    );
}

#[test]
fn a_saved_session() {
    let mut config = config();
    config.last_message = Some(("ask".to_string(), "told".to_string()));
    let (name, temp) =
        probe(config.start_session(&Some("work".to_string()), "temp").unwrap());
    let step = config.session_probed(name, temp, true, open);
    assert!(matches!(step, StartStep::Load { name } if name == "work"));
    let mut loaded = session("work");
    loaded.is_empty = false;
    let step = config.session_loaded(loaded, &offer, agree_model).unwrap();
    assert!(matches!(step, StartStep::Started));
    assert_eq!(config.temperature, degrees(0.3));
    assert_eq!(config.model_info, model("openai", "large", 200));

    let mut config = self::config();
    let mut lost = session("work");
    lost.model = "gone:x".to_string();
    assert_eq!(
        config.session_loaded(lost, &offer, agree_model).unwrap_err(),
        ConfigError::UnknownModel("gone:x".to_string())
    );
    assert_eq!(config.session.as_ref().unwrap().name, "work");
    assert_eq!(config.model_info, model("openai", "small", 100));
}

#[test]
fn ending_a_session() {
    let mut config = config();
    assert!(matches!(config.end_session(), EndStep::Finished));
    assert_eq!(config.temperature, degrees(1.0));

    config.last_message = Some(("ask".to_string(), "told".to_string()));
    config.temperature = degrees(0.3);
    config.session = Some(session("work"));
    assert!(matches!(config.end_session(), EndStep::Finished));
    assert!(config.session.is_none());
    assert_eq!(config.last_message, None);
    assert_eq!(config.temperature, degrees(1.0));
    assert!(config.start_session(&None, "temp").is_ok());
}

#[test]
fn saving_a_session_at_its_end() {
    let mut config = config();
    let mut changed = session("work");
    changed.should_save = true;
    config.session = Some(changed);
    let ended = match config.end_session() {
        EndStep::ConfirmSave { session } => session,
        other => panic!("{:?}", other),
    };
    assert!(matches!(Config::save_answered(ended.clone(), false), EndStep::Finished));
    match Config::save_answered(ended, true) {
        EndStep::Save { session, name } => {
            assert_eq!(session.name, "work");
            assert_eq!(name, "work");
        }
        other => panic!("{:?}", other),
    }
    match Config::save_answered(session("temp"), true) {
        EndStep::AskName { session } => {
            assert_eq!(session.name, "temp");
            match Config::name_given(session, "new".to_string()) {
                EndStep::Save { session, name } => {
                    assert_eq!((session.name.as_str(), name.as_str()), ("temp", "new"));
                }
                other => panic!("{:?}", other),
            }
        }
        other => panic!("{:?}", other),
    }
}

#[test]
fn sessions_are_listed_by_their_files() {
    let files = ["work.yaml", "notes.txt", ".yaml", "a.yaml.bak", "b.yaml.yaml", "yaml"];
    let files: Vec<String> = files.iter().map(|file| file.to_string()).collect();
    assert_eq!(Config::list_sessions(&files), vec!["work", "", "b.yaml"]);
    assert_eq!(Config::list_sessions(&vec![]), Vec::<String>::new());
}
