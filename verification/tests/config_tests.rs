use gitie::config::{
    normalize_api_key, select_level, template_path, AIConfig, AppConfig, ConfigChain, ConfigSource,
    CopyUp, Fetched, Level, PartialAIConfig, PartialAppConfig, PromptChain, PromptSource,
    Resolution, API_KEY_PLACEHOLDER, DEFAULT_API_URL, DEFAULT_MODEL_NAME, DEFAULT_TEMPERATURE_BITS,
};
use gitie::errors::ConfigError;

const USER_CONFIG: &str = "mock_home/.config/gitie/config.toml";
const USER_PROMPT: &str = "mock_home/.config/gitie/commit-prompt";
const PROJECT_CONFIG: &str = "config.toml";
const PROJECT_PROMPT: &str = "prompts/commit-prompt";
const BUNDLED_CONFIG: &str = "assets/config.example.toml";
const BUNDLED_PROMPT: &str = "assets/commit-prompt";

const EXAMPLE_CONFIG: &str = r#"[ai]
api_url = "http://localhost:11434/v1/chat/completions"
model_name = "qwen3:32b-q8_0"
temperature = 0.7
api_key = "YOUR_API_KEY_IF_NEEDED"
"#;

fn text_field(table: &toml::Table, key: &str) -> Result<Option<String>, String> {
    match table.get(key) {
        None => Ok(None),
        Some(toml::Value::String(text)) => Ok(Some(text.clone())),
        Some(other) => Err(format!("invalid type: {}, expected a string", other.type_str())),
    }
}

fn number_field(table: &toml::Table, key: &str) -> Result<Option<u32>, String> {
    match table.get(key) {
        None => Ok(None),
        Some(toml::Value::Float(value)) => Ok(Some((*value as f32).to_bits())),
        Some(toml::Value::Integer(value)) => Ok(Some((*value as f32).to_bits())),
        Some(other) => Err(format!("invalid type: {}, expected f32", other.type_str())),
    }
}

fn decode(text: &str) -> Result<PartialAppConfig, String> {
    let table: toml::Table = match text.parse() {
        Ok(table) => table,
        Err(e) => {
            let e: toml::de::Error = e;
            return Err(e.to_string());
        }
    };
    let ai = match table.get("ai") {
        None => None,
        Some(toml::Value::Table(ai)) => Some(PartialAIConfig {
            api_url: text_field(ai, "api_url")?,
            model_name: text_field(ai, "model_name")?,
            temperature: number_field(ai, "temperature")?,
            api_key: text_field(ai, "api_key")?,
        }),
        Some(other) => return Err(format!("invalid type: {}, expected a table", other.type_str())),
    };
    Ok(PartialAppConfig { ai })
}

fn config_source(path: &str, text: Option<&str>) -> ConfigSource {
    match text {
        Some(text) => ConfigSource {
            path: path.to_string(),
            text: Fetched::Present(text.to_string()),
            decoded: decode(text),
        },
        None => ConfigSource {
            path: path.to_string(),
            text: Fetched::Absent,
            decoded: Err(String::new()),
        },
    }
}

fn prompt_source(path: &str, text: Option<&str>) -> PromptSource {
    PromptSource {
        path: path.to_string(),
        text: match text {
            Some(text) => Fetched::Present(text.to_string()),
            None => Fetched::Absent,
        },
    }
}

fn config_chain(user: Option<&str>, project: Option<&str>, bundled: Option<&str>) -> ConfigChain {
    ConfigChain {
        user: config_source(USER_CONFIG, user),
        project: config_source(PROJECT_CONFIG, project),
        bundled: config_source(BUNDLED_CONFIG, bundled),
    }
}

fn prompt_chain(user: Option<&str>, project: Option<&str>, bundled: Option<&str>) -> PromptChain {
    PromptChain {
        user: prompt_source(USER_PROMPT, user),
        project: prompt_source(PROJECT_PROMPT, project),
        bundled: prompt_source(BUNDLED_PROMPT, bundled),
    }
}

fn copy_to(target: &str, content: &str) -> Option<CopyUp> {
    Some(CopyUp { target: target.to_string(), content: content.to_string() })
}

fn materialize(chain: ConfigChain, copy: &Option<CopyUp>) -> ConfigChain {
    match copy {
        Some(copy) => {
            assert_eq!(copy.target, chain.user.path);
            ConfigChain {
                user: config_source(USER_CONFIG, Some(copy.content.as_str())),
                project: chain.project,
                bundled: chain.bundled,
            }
        }
        None => chain,
    }
}

fn materialize_prompt(chain: PromptChain, copy: &Option<CopyUp>) -> PromptChain {
    match copy {
        Some(copy) => {
            assert_eq!(copy.target, chain.user.path);
            PromptChain {
                user: prompt_source(USER_PROMPT, Some(copy.content.as_str())),
                project: chain.project,
                bundled: chain.bundled,
            }
        }
        None => chain,
    }
}

#[test]
fn test_load_full_config() {
    let config_toml = r#"[ai]
api_url = "http://custom.host/api"
model_name = "custom-model"
temperature = 0.5
api_key = "test_key_123"
"#;
    let prompt_text = "Test system prompt";
    let loaded = AppConfig::load(
        &config_chain(None, Some(config_toml), Some(EXAMPLE_CONFIG)),
        &prompt_chain(None, Some(prompt_text), Some(prompt_text)),
    );
    assert!(loaded.outcome.is_ok(), "Expected OK, got {:?}", loaded.outcome);
    let config = loaded.outcome.clone().unwrap();

    assert_eq!(config.ai.api_url, "http://custom.host/api");
    assert_eq!(config.ai.model_name, "custom-model");
    assert_eq!(f32::from_bits(config.ai.temperature), 0.5);
    assert_eq!(config.ai.api_key, Some("test_key_123".to_string()));
    assert_eq!(config.system_prompt, prompt_text);

    assert!(loaded.config_copy.is_some(), "Config should be copied to user directory");
    assert!(loaded.prompt_copy.is_some(), "Prompt should be copied to user directory");
    assert_eq!(loaded.config_copy, copy_to(USER_CONFIG, config_toml));
    assert_eq!(loaded.prompt_copy, copy_to(USER_PROMPT, prompt_text));
}

#[test]
fn test_load_partial_config_missing_temp_and_key() {
    let config_toml = r#"[ai]
api_url = "http://partial.host/api"
model_name = "partial-model"
"#;
    let prompt_text = "Partial config prompt";
    let loaded = AppConfig::load(
        &config_chain(None, Some(config_toml), Some(EXAMPLE_CONFIG)),
        &prompt_chain(None, Some(prompt_text), Some(prompt_text)),
    );
    assert!(loaded.outcome.is_ok(), "Expected OK, got {:?}", loaded.outcome);
    let config = loaded.outcome.clone().unwrap();

    assert_eq!(config.ai.api_url, "http://partial.host/api");
    assert_eq!(config.ai.model_name, "partial-model");
    assert_eq!(f32::from_bits(config.ai.temperature), 0.7);
    assert_eq!(config.ai.api_key, None);
    assert_eq!(config.system_prompt, prompt_text);

    assert!(loaded.config_copy.is_some(), "Config should be copied to user directory");
    assert!(loaded.prompt_copy.is_some(), "Prompt should be copied to user directory");
}

#[test]
fn test_load_partial_config_empty_toml() {
    let config_toml = r#"[ai]
api_url = "http://localhost:11434/v1/chat/completions"
model_name = "qwen3:32b-q8_0"
"#;
    let prompt_text = "Empty TOML config prompt";
    let loaded = AppConfig::load(
        &config_chain(None, Some(config_toml), Some(EXAMPLE_CONFIG)),
        &prompt_chain(None, Some(prompt_text), Some(prompt_text)),
    );
    assert!(loaded.outcome.is_ok(), "Expected OK, got {:?}", loaded.outcome);
    let config = loaded.outcome.clone().unwrap();

    assert_eq!(config.ai.api_url, "http://localhost:11434/v1/chat/completions");
    assert_eq!(config.ai.model_name, "qwen3:32b-q8_0");
    assert_eq!(f32::from_bits(config.ai.temperature), 0.7);
    assert_eq!(config.ai.api_key, None);
    assert_eq!(config.system_prompt, prompt_text);

    assert!(loaded.config_copy.is_some(), "Config should be copied to user directory");
    assert!(loaded.prompt_copy.is_some(), "Prompt should be copied to user directory");
}

#[test]
fn test_load_no_config_file() {
    let prompt_text = "No config file prompt";
    let loaded = AppConfig::load(
        &config_chain(None, None, Some(EXAMPLE_CONFIG)),
        &prompt_chain(None, Some(prompt_text), Some(prompt_text)),
    );
    assert!(loaded.outcome.is_ok(), "Expected OK, got {:?}", loaded.outcome);
    let config = loaded.outcome.clone().unwrap();

    assert_eq!(config.ai.api_url, "http://localhost:11434/v1/chat/completions");
    assert_eq!(config.ai.model_name, "qwen3:32b-q8_0");
    assert_eq!(f32::from_bits(config.ai.temperature), 0.7);
    assert_eq!(config.ai.api_key, None);
    assert_eq!(config.system_prompt, prompt_text);

    assert!(
        loaded.config_copy.is_some(),
        "Example config should be copied to user directory"
    );
    assert!(loaded.prompt_copy.is_some(), "Prompt should be copied to user directory");
}

#[test]
fn test_load_config_with_empty_api_key() {
    let config_toml = r#"[ai]
api_url = "http://custom.host/api"
model_name = "custom-model"
temperature = 0.5
api_key = ""
"#;
    let prompt_text = "Test system prompt with empty API key";
    let loaded = AppConfig::load(
        &config_chain(None, Some(config_toml), Some(EXAMPLE_CONFIG)),
        &prompt_chain(None, Some(prompt_text), Some(prompt_text)),
    );
    assert!(loaded.outcome.is_ok(), "Expected OK, got {:?}", loaded.outcome);
    let config = loaded.outcome.clone().unwrap();

    assert_eq!(config.ai.api_key, None);

    assert!(loaded.config_copy.is_some(), "Config should be copied to user directory");
    assert!(loaded.prompt_copy.is_some(), "Prompt should be copied to user directory");
}

#[test]
fn test_api_key_placeholder_becomes_none() {
    let prompt_text = "Prompt text";
    let loaded = AppConfig::load(
        &config_chain(None, None, Some(EXAMPLE_CONFIG)),
        &prompt_chain(None, Some(prompt_text), Some(prompt_text)),
    );
    assert!(loaded.outcome.is_ok(), "Expected OK, got {:?}", loaded.outcome);
    let config = loaded.outcome.clone().unwrap();

    assert_eq!(config.ai.api_key, None);

    assert!(
        loaded.config_copy.is_some(),
        "Example config should be copied to user directory"
    );
    assert!(loaded.prompt_copy.is_some(), "Prompt should be copied to user directory");
}

#[test]
fn real_key_is_kept() {
    let document = PartialAppConfig {
        ai: Some(PartialAIConfig {
            api_url: None,
            model_name: None,
            temperature: None,
            api_key: Some("sk-real".to_string()),
        }),
    };
    assert_eq!(document.resolve().unwrap().api_key, Some("sk-real".to_string()));
    assert_eq!(normalize_api_key(&Some("sk-real".to_string())), Some("sk-real".to_string()));
    assert_eq!(normalize_api_key(&Some(String::new())), None);
    assert_eq!(normalize_api_key(&Some(API_KEY_PLACEHOLDER.to_string())), None);
    assert_eq!(normalize_api_key(&Some("YOUR_API_KEY_IF_NEEDED".to_string())), None);
    assert_eq!(
        normalize_api_key(&Some("your_api_key_if_needed".to_string())),
        Some("your_api_key_if_needed".to_string())
    );
    assert_eq!(normalize_api_key(&Some(" ".to_string())), Some(" ".to_string()));
    assert_eq!(normalize_api_key(&None), None);
}

#[test]
fn defaults_fill_what_is_not_written() {
    let expected = AIConfig {
        api_url: "http://localhost:11434/v1/chat/completions".to_string(),
        model_name: "qwen3:32b-q8_0".to_string(),
        temperature: 0.7f32.to_bits(),
        api_key: None,
    };
    assert_eq!(PartialAppConfig { ai: None }.resolve(), Ok(expected.clone()));
    assert_eq!(PartialAIConfig::default().resolve(), Ok(expected.clone()));
    assert_eq!(decode("").unwrap().resolve(), Ok(expected.clone()));
    assert_eq!(decode("[ai]\n").unwrap().resolve(), Ok(expected.clone()));
    assert_eq!(decode("[other]\nx = 1\n").unwrap().resolve(), Ok(expected));
    assert_eq!(DEFAULT_TEMPERATURE_BITS, 0.7f32.to_bits());
    assert_eq!(DEFAULT_API_URL, "http://localhost:11434/v1/chat/completions");
    assert_eq!(DEFAULT_MODEL_NAME, "qwen3:32b-q8_0");
}

#[test]
fn required_field_written_empty_is_missing() {
    let empty_url = decode("[ai]\napi_url = \"\"\nmodel_name = \"m\"\n").unwrap();
    assert_eq!(
        empty_url.resolve(),
        Err(ConfigError::FieldMissing("api_url".to_string()))
    );
    let empty_model = decode("[ai]\napi_url = \"u\"\nmodel_name = \"\"\n").unwrap();
    assert_eq!(
        empty_model.resolve(),
        Err(ConfigError::FieldMissing("model_name".to_string()))
    );
    let both = decode("[ai]\napi_url = \"\"\nmodel_name = \"\"\n").unwrap();
    assert_eq!(both.resolve(), Err(ConfigError::FieldMissing("api_url".to_string())));
}

#[test]
fn template_alone_is_used_verbatim_and_copied_and_read_back() {
    let template = r#"[ai]
api_url = "http://assets.example.com/api"
model_name = "assets-model"
temperature = 0.5
api_key = "sk-real"
"#;
    let prompt = "Assets prompt content";
    let first_config = config_chain(None, None, Some(template));
    let first_prompt = prompt_chain(None, None, Some(prompt));
    let first = AppConfig::load(&first_config, &first_prompt);
    let expected = AppConfig {
        ai: AIConfig {
            api_url: "http://assets.example.com/api".to_string(),
            model_name: "assets-model".to_string(),
            temperature: 0.5f32.to_bits(),
            api_key: Some("sk-real".to_string()),
        },
        system_prompt: prompt.to_string(),
    };
    assert_eq!(first.outcome, Ok(expected.clone()));
    assert_eq!(first.config_copy, copy_to(USER_CONFIG, template));
    assert_eq!(first.prompt_copy, copy_to(USER_PROMPT, prompt));

    let second = AppConfig::load(
        &materialize(first_config, &first.config_copy),
        &materialize_prompt(first_prompt, &first.prompt_copy),
    );
    assert_eq!(second.outcome, Ok(expected));
    assert_eq!(second.config_copy, None);
    assert_eq!(second.prompt_copy, None);
}

#[test]
fn user_directory_comes_first_then_project_then_template() {
    let user = "[ai]\nmodel_name = \"from-user\"\n";
    let project = "[ai]\nmodel_name = \"from-project\"\n";
    let bundled = "[ai]\nmodel_name = \"from-template\"\n";
    let prompts = prompt_chain(Some("u"), Some("p"), Some("b"));

    let all = AppConfig::load(&config_chain(Some(user), Some(project), Some(bundled)), &prompts);
    assert_eq!(all.outcome.as_ref().unwrap().ai.model_name, "from-user");
    assert_eq!(all.outcome.as_ref().unwrap().system_prompt, "u");
    assert_eq!(all.config_copy, None);
    assert_eq!(all.prompt_copy, None);

    let lower = AppConfig::load(
        &config_chain(None, Some(project), Some(bundled)),
        &prompt_chain(None, Some("p"), Some("b")),
    );
    assert_eq!(lower.outcome.as_ref().unwrap().ai.model_name, "from-project");
    assert_eq!(lower.outcome.as_ref().unwrap().system_prompt, "p");
    assert_eq!(lower.config_copy, copy_to(USER_CONFIG, project));
    assert_eq!(lower.prompt_copy, copy_to(USER_PROMPT, "p"));

    let lowest = AppConfig::load(
        &config_chain(None, None, Some(bundled)),
        &prompt_chain(None, None, Some("b")),
    );
    assert_eq!(lowest.outcome.as_ref().unwrap().ai.model_name, "from-template");
    assert_eq!(lowest.outcome.as_ref().unwrap().system_prompt, "b");

    assert_eq!(
        select_level(&Fetched::Absent, &Fetched::Present("x".to_string()), &Fetched::Absent),
        Some(Level::Project)
    );
    assert_eq!(
        select_level(&Fetched::Unreadable("e".to_string()), &Fetched::Present("x".to_string()), &Fetched::Absent),
        Some(Level::User)
    );
    assert_eq!(select_level(&Fetched::Absent, &Fetched::Absent, &Fetched::Absent), None);
}

#[test]
fn the_two_documents_are_settled_apart() {
    let loaded = AppConfig::load(
        &config_chain(Some("[ai]\nmodel_name = \"m\"\n"), None, None),
        &prompt_chain(None, None, Some("template prompt")),
    );
    assert_eq!(loaded.outcome.as_ref().unwrap().ai.model_name, "m");
    assert_eq!(loaded.outcome.as_ref().unwrap().system_prompt, "template prompt");
    assert_eq!(loaded.config_copy, None);
    assert_eq!(loaded.prompt_copy, copy_to(USER_PROMPT, "template prompt"));
}

#[test]
fn malformed_document_ends_the_search() {
    let invalid = r#"[ai]
api_url = "http://invalid.toml"
model_name = "invalid-model"
temperature = "not_a_float"  # Invalid type
"#;
    let loaded = AppConfig::load(
        &config_chain(None, Some(invalid), Some(EXAMPLE_CONFIG)),
        &prompt_chain(None, None, Some("p")),
    );
    match &loaded.outcome {
        Err(ConfigError::TomlParse(path, _)) => assert_eq!(path, PROJECT_CONFIG),
        other => panic!("Expected TomlParse error, got {:?}", other),
    }
    assert_eq!(loaded.config_copy, None);
    assert_eq!(loaded.prompt_copy, None);

    let broken = AppConfig::load(
        &config_chain(Some("[ai\n"), Some(EXAMPLE_CONFIG), Some(EXAMPLE_CONFIG)),
        &prompt_chain(Some("p"), None, None),
    );
    match &broken.outcome {
        Err(ConfigError::TomlParse(path, cause)) => {
            assert_eq!(path, USER_CONFIG);
            assert!(!cause.is_empty());
        }
        other => panic!("Expected TomlParse error, got {:?}", other),
    }
}

#[test]
fn unreadable_document_ends_the_search() {
    let mut chain = config_chain(None, Some(EXAMPLE_CONFIG), Some(EXAMPLE_CONFIG));
    chain.user.text = Fetched::Unreadable("permission denied".to_string());
    let loaded = AppConfig::load(&chain, &prompt_chain(Some("p"), None, None));
    assert_eq!(
        loaded.outcome,
        Err(ConfigError::FileRead(USER_CONFIG.to_string(), "permission denied".to_string()))
    );
    assert_eq!(loaded.config_copy, None);

    let mut prompts = prompt_chain(None, None, Some("p"));
    prompts.project.text = Fetched::Unreadable("is a directory".to_string());
    let loaded = AppConfig::load(&config_chain(None, None, Some(EXAMPLE_CONFIG)), &prompts);
    assert_eq!(
        loaded.outcome,
        Err(ConfigError::FileRead(PROJECT_PROMPT.to_string(), "is a directory".to_string()))
    );
    assert_eq!(loaded.config_copy, copy_to(USER_CONFIG, EXAMPLE_CONFIG));
    assert_eq!(loaded.prompt_copy, None);
}

#[test]
fn no_document_anywhere() {
    let loaded = AppConfig::load(
        &config_chain(None, None, None),
        &prompt_chain(Some("p"), Some("p"), Some("p")),
    );
    assert_eq!(
        loaded.outcome,
        Err(ConfigError::ConfigFileMissing(BUNDLED_CONFIG.to_string()))
    );
    assert_eq!(loaded.config_copy, None);
    assert_eq!(loaded.prompt_copy, None);

    let loaded = AppConfig::load(
        &config_chain(None, None, Some(EXAMPLE_CONFIG)),
        &prompt_chain(None, None, None),
    );
    assert_eq!(
        loaded.outcome,
        Err(ConfigError::PromptFileMissing(BUNDLED_PROMPT.to_string()))
    );
    assert_eq!(loaded.config_copy, copy_to(USER_CONFIG, EXAMPLE_CONFIG));
    assert_eq!(loaded.prompt_copy, None);
}

#[test]
fn required_field_missing_is_not_copied() {
    let loaded = AppConfig::load(
        &config_chain(None, Some("[ai]\napi_url = \"\"\n"), Some(EXAMPLE_CONFIG)),
        &prompt_chain(Some("p"), None, None),
    );
    assert_eq!(
        loaded.outcome,
        Err(ConfigError::FieldMissing("api_url".to_string()))
    );
    assert_eq!(loaded.config_copy, None);
}

#[test]
fn failed_copy_is_reported_before_anything_else() {
    let resolution = || {
        AppConfig::load(
            &config_chain(None, None, Some(EXAMPLE_CONFIG)),
            &prompt_chain(None, None, Some("p")),
        )
    };
    let fine = resolution();
    let settings = fine.outcome.clone().unwrap();
    assert_eq!(resolution().conclude(None, None), Ok(settings.clone()));
    assert_eq!(
        resolution().conclude(Some("disk full".to_string()), None),
        Err(ConfigError::FileWrite(USER_CONFIG.to_string(), "disk full".to_string()))
    );
    assert_eq!(
        resolution().conclude(None, Some("read-only".to_string())),
        Err(ConfigError::FileWrite(USER_PROMPT.to_string(), "read-only".to_string()))
    );
    assert_eq!(
        resolution().conclude(Some("first".to_string()), Some("second".to_string())),
        Err(ConfigError::FileWrite(USER_CONFIG.to_string(), "first".to_string()))
    );
    let nothing_to_copy = Resolution {
        outcome: Ok(settings.clone()),
        config_copy: None,
        prompt_copy: None,
    };
    assert_eq!(
        nothing_to_copy.conclude(Some("ignored".to_string()), Some("ignored".to_string())),
        Ok(settings)
    );
    let missing_prompt = AppConfig::load(
        &config_chain(None, None, Some(EXAMPLE_CONFIG)),
        &prompt_chain(None, None, None),
    );
    assert_eq!(
        missing_prompt.conclude(Some("disk full".to_string()), None),
        Err(ConfigError::FileWrite(USER_CONFIG.to_string(), "disk full".to_string()))
    );
}

#[test]
fn one_pair_of_files() {
    let decoded = decode("[ai]\nmodel_name = \"m\"\napi_key = \"\"\n");
    let loaded = AppConfig::load_config_from_file(
        "config.toml",
        &decoded,
        "commit-prompt",
        &Ok("the prompt".to_string()),
    );
    let settings = loaded.unwrap();
    assert_eq!(settings.ai.model_name, "m");
    assert_eq!(settings.ai.api_url, DEFAULT_API_URL);
    assert_eq!(settings.ai.api_key, None);
    assert_eq!(settings.system_prompt, "the prompt");

    assert_eq!(
        AppConfig::load_config_from_file(
            "config.toml",
            &Err("bad".to_string()),
            "commit-prompt",
            &Err("gone".to_string())
        ),
        Err(ConfigError::TomlParse("config.toml".to_string(), "bad".to_string()))
    );
    assert_eq!(
        AppConfig::load_config_from_file(
            "config.toml",
            &decoded,
            "commit-prompt",
            &Err("gone".to_string())
        ),
        Err(ConfigError::FileRead("commit-prompt".to_string(), "gone".to_string()))
    );
    assert_eq!(
        AppConfig::load_config_from_file(
            "config.toml",
            &decode("[ai]\nmodel_name = \"\"\n"),
            "commit-prompt",
            &Ok(String::new())
        ),
        Err(ConfigError::FieldMissing("model_name".to_string()))
    );
}

#[test]
fn paths_of_the_user_directory_and_of_templates() {
    assert_eq!(
        AppConfig::get_user_file_path("/home/u", "config.toml"),
        "/home/u/.config/gitie/config.toml"
    );
    assert_eq!(
        AppConfig::get_user_file_path("/home/u/", "commit-prompt"),
        "/home/u/.config/gitie/commit-prompt"
    );
    assert_eq!(
        AppConfig::get_user_file_path("", "config.toml"),
        ".config/gitie/config.toml"
    );
    assert_eq!(
        template_path(None, "assets/config.example.toml"),
        "assets/config.example.toml"
    );
    assert_eq!(
        template_path(Some("/opt/gitie/config.toml".to_string()), "assets/config.example.toml"),
        "/opt/gitie/config.toml"
    );
}
