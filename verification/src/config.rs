//! Finding the configuration and the prompt document among their sources,
//! and turning what was found into the settings the rest of the crate uses.
//!
//! Each of the two documents is looked for in three places, in this order:
//! the user's directory, the current project, and the template shipped with
//! the program. The first place that holds the document decides; a document
//! taken from one of the lower two is copied to the user's directory. Reading
//! and writing files is the caller's part: the functions here take what the
//! caller found and say what follows from it.

use vstd::prelude::*;
use crate::errors::{ConfigError, ConfigErrorView};
use crate::model::{option_view, result_view};
use crate::utils::{joined_path, safe_path_join};

verus! {

/// The directory below the user's home that holds the two documents.
pub const USER_CONFIG_DIR: &'static str = ".config/gitie";

/// The file name of the configuration in the user's directory and in a project.
pub const USER_CONFIG_FILE_NAME: &'static str = "config.toml";

/// The file name of the prompt document in the user's directory and in a project.
pub const USER_PROMPT_FILE_NAME: &'static str = "commit-prompt";

/// The file name of the configuration in a project.
pub const PROJECT_CONFIG_FILE_NAME: &'static str = "config.toml";

/// The file name of the prompt document in a project.
pub const PROJECT_PROMPT_FILE_NAME: &'static str = "prompts/commit-prompt";

/// The environment variable that names another place for the configuration template.
pub const CONFIG_TEMPLATE_VARIABLE: &'static str = "GITIE_ASSETS_CONFIG";

/// The environment variable that names another place for the prompt template.
pub const PROMPT_TEMPLATE_VARIABLE: &'static str = "GITIE_ASSETS_PROMPT";

/// Where the configuration template is shipped.
pub const CONFIG_EXAMPLE_FILE_NAME: &'static str = "assets/config.example.toml";

/// Where the prompt template is shipped.
pub const PROMPT_EXAMPLE_FILE_NAME: &'static str = "assets/commit-prompt";

/// The key that templates carry where no key is configured.
pub const API_KEY_PLACEHOLDER: &'static str = "YOUR_API_KEY_IF_NEEDED";

/// The endpoint used where the configuration names none.
pub const DEFAULT_API_URL: &'static str = "http://localhost:11434/v1/chat/completions";

/// The model used where the configuration names none.
pub const DEFAULT_MODEL_NAME: &'static str = "qwen3:32b-q8_0";

/// The temperature used where the configuration gives none: 0.7, as the bits
/// of an IEEE 754 single.
pub const DEFAULT_TEMPERATURE_BITS: u32 = 0x3f33_3333;

/// The `[ai]` table of a configuration document, as far as it was written.
#[derive(Debug, Clone, PartialEq, Eq, Default)]
pub struct PartialAIConfig {
    pub api_url: Option<String>,
    pub model_name: Option<String>,
    /// The temperature as the bits of an IEEE 754 single.
    pub temperature: Option<u32>,
    pub api_key: Option<String>,
}

/// A configuration document, as far as it was written.
#[derive(Debug, Clone, PartialEq, Eq, Default)]
pub struct PartialAppConfig {
    pub ai: Option<PartialAIConfig>,
}

/// The model of a [`PartialAIConfig`].
pub struct PartialAIConfigView {
    pub api_url: Option<Seq<char>>,
    pub model_name: Option<Seq<char>>,
    pub temperature: Option<u32>,
    pub api_key: Option<Seq<char>>,
}

/// The model of a [`PartialAppConfig`].
pub struct PartialAppConfigView {
    pub ai: Option<PartialAIConfigView>,
}

impl View for PartialAIConfig {
    type V = PartialAIConfigView;

    open spec fn view(&self) -> PartialAIConfigView {
        PartialAIConfigView {
            api_url: self.api_url.deep_view(),
            model_name: self.model_name.deep_view(),
            temperature: self.temperature,
            api_key: self.api_key.deep_view(),
        }
    }
}

impl View for PartialAppConfig {
    type V = PartialAppConfigView;

    open spec fn view(&self) -> PartialAppConfigView {
        PartialAppConfigView {
            ai: option_view(self.ai),
        }
    }
}

/// How the language model is reached.
#[derive(Debug, Clone, PartialEq, Eq)]
pub struct AIConfig {
    pub api_url: String,
    pub model_name: String,
    /// The temperature as the bits of an IEEE 754 single.
    pub temperature: u32,
    pub api_key: Option<String>,
}

/// The settings of one run.
#[derive(Debug, Clone, PartialEq, Eq)]
pub struct AppConfig {
    pub ai: AIConfig,
    /// The system prompt for writing commit messages.
    pub system_prompt: String,
}

/// The model of an [`AIConfig`].
pub struct AIConfigView {
    pub api_url: Seq<char>,
    pub model_name: Seq<char>,
    pub temperature: u32,
    pub api_key: Option<Seq<char>>,
}

/// The model of an [`AppConfig`].
pub struct AppConfigView {
    pub ai: AIConfigView,
    pub system_prompt: Seq<char>,
}

impl View for AIConfig {
    type V = AIConfigView;

    open spec fn view(&self) -> AIConfigView {
        AIConfigView {
            api_url: self.api_url@,
            model_name: self.model_name@,
            temperature: self.temperature,
            api_key: self.api_key.deep_view(),
        }
    }
}

impl View for AppConfig {
    type V = AppConfigView;

    open spec fn view(&self) -> AppConfigView {
        AppConfigView { ai: self.ai@, system_prompt: self.system_prompt@ }
    }
}

impl AIConfigView {
    /// What holds of every configuration that loading hands out: the two
    /// required fields are not empty, and a key that is present is a real one.
    pub open spec fn well_formed(self) -> bool {
        &&& self.api_url.len() > 0
        &&& self.model_name.len() > 0
        &&& self.api_key matches Some(key) ==> key.len() > 0 && key != API_KEY_PLACEHOLDER@
    }
}

/// The key that a written key stands for: none where it is empty or the
/// placeholder of the templates.
pub open spec fn normalized_key(key: Option<Seq<char>>) -> Option<Seq<char>> {
    match key {
        Some(k) => if k.len() == 0 || k == API_KEY_PLACEHOLDER@ {
            None
        } else {
            Some(k)
        },
        None => None,
    }
}

/// The value of a text field: what was written, or the default.
pub open spec fn or_default(written: Option<Seq<char>>, default: Seq<char>) -> Seq<char> {
    match written {
        Some(text) => text,
        None => default,
    }
}

impl PartialAIConfigView {
    /// The settings that this table gives: written values where there are
    /// any, defaults elsewhere, no key for an empty one or the placeholder;
    /// and a failure where a required field was written empty.
    pub open spec fn resolved(self) -> Result<AIConfigView, ConfigErrorView> {
        let api_url = or_default(self.api_url, DEFAULT_API_URL@);
        let model_name = or_default(self.model_name, DEFAULT_MODEL_NAME@);
        if api_url.len() == 0 {
            Err(ConfigErrorView::FieldMissing("api_url"@))
        } else if model_name.len() == 0 {
            Err(ConfigErrorView::FieldMissing("model_name"@))
        } else {
            Ok(
                AIConfigView {
                    api_url,
                    model_name,
                    temperature: match self.temperature {
                        Some(bits) => bits,
                        None => DEFAULT_TEMPERATURE_BITS,
                    },
                    api_key: normalized_key(self.api_key),
                },
            )
        }
    }
}

impl PartialAppConfigView {
    /// The table that this document gives: its `[ai]` table, or an empty one.
    pub open spec fn ai_table(self) -> PartialAIConfigView {
        match self.ai {
            Some(ai) => ai,
            None => PartialAIConfigView {
                api_url: None,
                model_name: None,
                temperature: None,
                api_key: None,
            },
        }
    }

    /// The settings that this document gives.
    pub open spec fn resolved(self) -> Result<AIConfigView, ConfigErrorView> {
        self.ai_table().resolved()
    }
}

/// The key that a written key stands for.
pub fn normalize_api_key(key: &Option<String>) -> (kept: Option<String>)
    ensures
        kept.deep_view() == normalized_key(key.deep_view()),
{
    match key {
        Some(k) => {
            let placeholder: String = API_KEY_PLACEHOLDER.to_owned();
            if k.as_str().is_empty() || *k == placeholder {
                None
            } else {
                Some(k.clone())
            }
        },
        None => None,
    }
}

fn text_or_default(written: &Option<String>, default: &str) -> (text: String)
    ensures
        text@ == or_default(written.deep_view(), default@),
{
    match written {
        Some(text) => text.clone(),
        None => default.to_owned(),
    }
}

impl PartialAIConfig {
    /// The settings that this table gives.
    pub fn resolve(&self) -> (outcome: Result<AIConfig, ConfigError>)
        ensures
            result_view(outcome) == self@.resolved(),
            outcome matches Ok(ai) ==> ai@.well_formed(),
    {
        let api_url = text_or_default(&self.api_url, DEFAULT_API_URL);
        let model_name = text_or_default(&self.model_name, DEFAULT_MODEL_NAME);
        if api_url.as_str().is_empty() {
            return Err(ConfigError::FieldMissing("api_url".to_owned()));
        }
        if model_name.as_str().is_empty() {
            return Err(ConfigError::FieldMissing("model_name".to_owned()));
        }
        let temperature: u32 = match self.temperature {
            Some(bits) => bits,
            None => DEFAULT_TEMPERATURE_BITS,
        };
        let api_key = normalize_api_key(&self.api_key);
        Ok(AIConfig { api_url, model_name, temperature, api_key })
    }
}

impl PartialAppConfig {
    /// The settings that this document gives.
    pub fn resolve(&self) -> (outcome: Result<AIConfig, ConfigError>)
        ensures
            result_view(outcome) == self@.resolved(),
            outcome matches Ok(ai) ==> ai@.well_formed(),
    {
        match &self.ai {
            Some(ai) => ai.resolve(),
            None => {
                let empty = PartialAIConfig {
                    api_url: None,
                    model_name: None,
                    temperature: None,
                    api_key: None,
                };
                empty.resolve()
            },
        }
    }
}

/// The path of the file `filename` in the user's directory below `home`.
pub open spec fn user_file_path(home: Seq<char>, filename: Seq<char>) -> Seq<char> {
    joined_path(joined_path(home, USER_CONFIG_DIR@), filename)
}

/// The place of a template: the one that its environment variable names,
/// where that is set, and else the one it is shipped at.
pub open spec fn template_location(named: Option<Seq<char>>, shipped: Seq<char>) -> Seq<char> {
    match named {
        Some(path) => path,
        None => shipped,
    }
}

/// The place of a template, from the value of its environment variable and
/// the place it is shipped at.
pub fn template_path(named: Option<String>, shipped: &str) -> (path: String)
    ensures
        path@ == template_location(named.deep_view(), shipped@),
{
    match named {
        Some(path) => path,
        None => shipped.to_owned(),
    }
}

/// What the caller found at one place where a document may lie.
#[derive(Debug, Clone, PartialEq, Eq)]
pub enum Fetched {
    /// Nothing is there.
    Absent,
    /// Something is there that could not be read: the cause.
    Unreadable(String),
    /// The text that is there.
    Present(String),
}

/// The model of a [`Fetched`].
pub enum FetchedView {
    Absent,
    Unreadable(Seq<char>),
    Present(Seq<char>),
}

impl View for Fetched {
    type V = FetchedView;

    open spec fn view(&self) -> FetchedView {
        match self {
            Fetched::Absent => FetchedView::Absent,
            Fetched::Unreadable(cause) => FetchedView::Unreadable(cause@),
            Fetched::Present(text) => FetchedView::Present(text@),
        }
    }
}

/// One place where the prompt document may lie.
#[derive(Debug, Clone, PartialEq, Eq)]
pub struct PromptSource {
    pub path: String,
    pub text: Fetched,
}

/// One place where the configuration may lie. `decoded` is what decoding the
/// text as a TOML document gave, or the cause of its failure; it is read only
/// where `text` is present.
#[derive(Debug, PartialEq, Eq)]
pub struct ConfigSource {
    pub path: String,
    pub text: Fetched,
    pub decoded: Result<PartialAppConfig, String>,
}

/// The model of a [`PromptSource`].
pub struct PromptSourceView {
    pub path: Seq<char>,
    pub text: FetchedView,
}

/// The model of a [`ConfigSource`].
pub struct ConfigSourceView {
    pub path: Seq<char>,
    pub text: FetchedView,
    pub decoded: Result<PartialAppConfigView, Seq<char>>,
}

impl View for PromptSource {
    type V = PromptSourceView;

    open spec fn view(&self) -> PromptSourceView {
        PromptSourceView { path: self.path@, text: self.text@ }
    }
}

impl View for ConfigSource {
    type V = ConfigSourceView;

    open spec fn view(&self) -> ConfigSourceView {
        ConfigSourceView {
            path: self.path@,
            text: self.text@,
            decoded: match self.decoded {
                Ok(document) => Ok(document@),
                Err(cause) => Err(cause@),
            },
        }
    }
}

/// The three places of a document, by precedence.
#[derive(Debug, Clone, Copy, PartialEq, Eq, Structural)]
pub enum Level {
    /// The user's directory.
    User,
    /// The current project.
    Project,
    /// The template shipped with the program.
    Bundled,
}

/// The place that decides: the first, by precedence, at which something lies.
pub open spec fn deciding_level(user: FetchedView, project: FetchedView, bundled: FetchedView)
    -> Option<Level> {
    if !(user is Absent) {
        Some(Level::User)
    } else if !(project is Absent) {
        Some(Level::Project)
    } else if !(bundled is Absent) {
        Some(Level::Bundled)
    } else {
        None
    }
}

fn is_absent(text: &Fetched) -> (absent: bool)
    ensures
        absent == (text@ is Absent),
{
    match text {
        Fetched::Absent => true,
        _ => false,
    }
}

/// The place that decides among three.
pub fn select_level(user: &Fetched, project: &Fetched, bundled: &Fetched) -> (level: Option<Level>)
    ensures
        level == deciding_level(user@, project@, bundled@),
{
    if !is_absent(user) {
        Some(Level::User)
    } else if !is_absent(project) {
        Some(Level::Project)
    } else if !is_absent(bundled) {
        Some(Level::Bundled)
    } else {
        None
    }
}

/// The three places where the configuration may lie.
#[derive(Debug, PartialEq, Eq)]
pub struct ConfigChain {
    pub user: ConfigSource,
    pub project: ConfigSource,
    pub bundled: ConfigSource,
}

/// The three places where the prompt document may lie.
#[derive(Debug, Clone, PartialEq, Eq)]
pub struct PromptChain {
    pub user: PromptSource,
    pub project: PromptSource,
    pub bundled: PromptSource,
}

/// The model of a [`ConfigChain`].
pub struct ConfigChainView {
    pub user: ConfigSourceView,
    pub project: ConfigSourceView,
    pub bundled: ConfigSourceView,
}

/// The model of a [`PromptChain`].
pub struct PromptChainView {
    pub user: PromptSourceView,
    pub project: PromptSourceView,
    pub bundled: PromptSourceView,
}

impl View for ConfigChain {
    type V = ConfigChainView;

    open spec fn view(&self) -> ConfigChainView {
        ConfigChainView { user: self.user@, project: self.project@, bundled: self.bundled@ }
    }
}

impl View for PromptChain {
    type V = PromptChainView;

    open spec fn view(&self) -> PromptChainView {
        PromptChainView { user: self.user@, project: self.project@, bundled: self.bundled@ }
    }
}

/// A document to be written to the user's directory.
#[derive(Debug, Clone, PartialEq, Eq)]
pub struct CopyUp {
    pub target: String,
    pub content: String,
}

/// The model of a [`CopyUp`].
pub struct CopyUpView {
    pub target: Seq<char>,
    pub content: Seq<char>,
}

impl View for CopyUp {
    type V = CopyUpView;

    open spec fn view(&self) -> CopyUpView {
        CopyUpView { target: self.target@, content: self.content@ }
    }
}

/// The copy that taking `content` from `level` asks for: none from the
/// user's directory, and one to `target` from a lower place.
pub open spec fn copy_from(level: Level, target: Seq<char>, content: Seq<char>) -> Option<
    CopyUpView,
> {
    if level == Level::User {
        None
    } else {
        Some(CopyUpView { target, content })
    }
}

impl ConfigChainView {
    /// The source at `level`.
    pub open spec fn source(self, level: Level) -> ConfigSourceView {
        match level {
            Level::User => self.user,
            Level::Project => self.project,
            Level::Bundled => self.bundled,
        }
    }

    /// The place that decides.
    pub open spec fn level(self) -> Option<Level> {
        deciding_level(self.user.text, self.project.text, self.bundled.text)
    }

    /// The settings that the chain gives, with the copy to make; or the
    /// failure that ends the search: no place holds a document, the deciding
    /// one cannot be read, is no TOML document of the expected shape, or
    /// leaves a required field empty. A document that fails is not copied.
    pub open spec fn outcome(self) -> Result<(AIConfigView, Option<CopyUpView>), ConfigErrorView> {
        match self.level() {
            None => Err(ConfigErrorView::ConfigFileMissing(self.bundled.path)),
            Some(level) => {
                let source = self.source(level);
                match source.text {
                    FetchedView::Absent => Err(ConfigErrorView::ConfigFileMissing(source.path)),
                    FetchedView::Unreadable(cause) => Err(
                        ConfigErrorView::FileRead(source.path, cause),
                    ),
                    FetchedView::Present(content) => match source.decoded {
                        Err(cause) => Err(ConfigErrorView::TomlParse(source.path, cause)),
                        Ok(document) => match document.resolved() {
                            Err(e) => Err(e),
                            Ok(ai) => Ok((ai, copy_from(level, self.user.path, content))),
                        },
                    },
                }
            },
        }
    }

    /// The chain after the copy that `outcome` asks for was made: the user's
    /// directory then holds what the deciding place held.
    pub open spec fn materialized(self) -> ConfigChainView {
        match self.level() {
            Some(level) if self.outcome() is Ok && level != Level::User => ConfigChainView {
                user: ConfigSourceView {
                    path: self.user.path,
                    text: self.source(level).text,
                    decoded: self.source(level).decoded,
                },
                ..self
            },
            _ => self,
        }
    }
}

impl PromptChainView {
    /// The source at `level`.
    pub open spec fn source(self, level: Level) -> PromptSourceView {
        match level {
            Level::User => self.user,
            Level::Project => self.project,
            Level::Bundled => self.bundled,
        }
    }

    /// The place that decides.
    pub open spec fn level(self) -> Option<Level> {
        deciding_level(self.user.text, self.project.text, self.bundled.text)
    }

    /// The prompt that the chain gives, with the copy to make; or the failure
    /// that ends the search: no place holds a document, or the deciding one
    /// cannot be read.
    pub open spec fn outcome(self) -> Result<(Seq<char>, Option<CopyUpView>), ConfigErrorView> {
        match self.level() {
            None => Err(ConfigErrorView::PromptFileMissing(self.bundled.path)),
            Some(level) => {
                let source = self.source(level);
                match source.text {
                    FetchedView::Absent => Err(ConfigErrorView::PromptFileMissing(source.path)),
                    FetchedView::Unreadable(cause) => Err(
                        ConfigErrorView::FileRead(source.path, cause),
                    ),
                    FetchedView::Present(content) => Ok(
                        (content, copy_from(level, self.user.path, content)),
                    ),
                }
            },
        }
    }

    /// The chain after the copy that `outcome` asks for was made.
    pub open spec fn materialized(self) -> PromptChainView {
        match self.level() {
            Some(level) if self.outcome() is Ok && level != Level::User => PromptChainView {
                user: PromptSourceView { path: self.user.path, text: self.source(level).text },
                ..self
            },
            _ => self,
        }
    }
}

/// What loading came to: the settings or the failure, and the copies to
/// make in the user's directory, the configuration's first.
#[derive(Debug, PartialEq, Eq)]
pub struct Resolution {
    pub outcome: Result<AppConfig, ConfigError>,
    pub config_copy: Option<CopyUp>,
    pub prompt_copy: Option<CopyUp>,
}

/// The model of a [`Resolution`].
pub struct ResolutionView {
    pub outcome: Result<AppConfigView, ConfigErrorView>,
    pub config_copy: Option<CopyUpView>,
    pub prompt_copy: Option<CopyUpView>,
}

impl View for Resolution {
    type V = ResolutionView;

    open spec fn view(&self) -> ResolutionView {
        ResolutionView {
            outcome: result_view(self.outcome),
            config_copy: option_view(self.config_copy),
            prompt_copy: option_view(self.prompt_copy),
        }
    }
}

/// What loading comes to on the two chains. The configuration is settled
/// first: where it fails, the prompt is not looked at and nothing is copied.
/// Where the prompt fails after that, the configuration's copy is still made.
pub open spec fn resolution(config: ConfigChainView, prompt: PromptChainView) -> ResolutionView {
    match config.outcome() {
        Err(e) => ResolutionView { outcome: Err(e), config_copy: None, prompt_copy: None },
        Ok((ai, config_copy)) => match prompt.outcome() {
            Err(e) => ResolutionView { outcome: Err(e), config_copy, prompt_copy: None },
            Ok((system_prompt, prompt_copy)) => ResolutionView {
                outcome: Ok(AppConfigView { ai, system_prompt }),
                config_copy,
                prompt_copy,
            },
        },
    }
}

impl ResolutionView {
    /// What the run goes on with once the copies were tried, the
    /// configuration's first: the failure of the first copy that could not be
    /// written, and the outcome of loading where none failed.
    pub open spec fn concluded(
        self,
        config_failure: Option<Seq<char>>,
        prompt_failure: Option<Seq<char>>,
    ) -> Result<AppConfigView, ConfigErrorView> {
        if self.config_copy is Some && config_failure is Some {
            Err(ConfigErrorView::FileWrite(self.config_copy->0.target, config_failure->0))
        } else if self.prompt_copy is Some && prompt_failure is Some {
            Err(ConfigErrorView::FileWrite(self.prompt_copy->0.target, prompt_failure->0))
        } else {
            self.outcome
        }
    }
}

fn copy_up_from(level: Level, target: &String, content: &String) -> (copy: Option<CopyUp>)
    ensures
        option_view(copy) == copy_from(level, target@, content@),
{
    match level {
        Level::User => None,
        _ => Some(CopyUp { target: target.clone(), content: content.clone() }),
    }
}

impl ConfigChain {
    /// The source at `level`.
    pub fn source(&self, level: Level) -> (source: &ConfigSource)
        ensures
            source@ == self@.source(level),
    {
        match level {
            Level::User => &self.user,
            Level::Project => &self.project,
            Level::Bundled => &self.bundled,
        }
    }

    /// The settings that the chain gives, with the copy to make, or the
    /// failure that ends the search.
    pub fn resolve(&self) -> (outcome: Result<(AIConfig, Option<CopyUp>), ConfigError>)
        ensures
            match outcome {
                Ok((ai, copy)) => self@.outcome() == Ok::<
                    (AIConfigView, Option<CopyUpView>),
                    ConfigErrorView,
                >((ai@, option_view(copy))) && ai@.well_formed(),
                Err(e) => self@.outcome() == Err::<
                    (AIConfigView, Option<CopyUpView>),
                    ConfigErrorView,
                >(e@),
            },
    {
        match select_level(&self.user.text, &self.project.text, &self.bundled.text) {
            None => Err(ConfigError::ConfigFileMissing(self.bundled.path.clone())),
            Some(level) => {
                let source = self.source(level);
                match &source.text {
                    Fetched::Absent => Err(ConfigError::ConfigFileMissing(source.path.clone())),
                    Fetched::Unreadable(cause) => Err(
                        ConfigError::FileRead(source.path.clone(), cause.clone()),
                    ),
                    Fetched::Present(content) => match &source.decoded {
                        Err(cause) => Err(
                            ConfigError::TomlParse(source.path.clone(), cause.clone()),
                        ),
                        Ok(document) => match document.resolve() {
                            Err(e) => Err(e),
                            Ok(ai) => Ok((ai, copy_up_from(level, &self.user.path, content))),
                        },
                    },
                }
            },
        }
    }
}

impl PromptChain {
    /// The source at `level`.
    pub fn source(&self, level: Level) -> (source: &PromptSource)
        ensures
            source@ == self@.source(level),
    {
        match level {
            Level::User => &self.user,
            Level::Project => &self.project,
            Level::Bundled => &self.bundled,
        }
    }

    /// The prompt that the chain gives, with the copy to make, or the failure
    /// that ends the search.
    pub fn resolve(&self) -> (outcome: Result<(String, Option<CopyUp>), ConfigError>)
        ensures
            match outcome {
                Ok((text, copy)) => self@.outcome() == Ok::<
                    (Seq<char>, Option<CopyUpView>),
                    ConfigErrorView,
                >((text@, option_view(copy))),
                Err(e) => self@.outcome() == Err::<
                    (Seq<char>, Option<CopyUpView>),
                    ConfigErrorView,
                >(e@),
            },
    {
        match select_level(&self.user.text, &self.project.text, &self.bundled.text) {
            None => Err(ConfigError::PromptFileMissing(self.bundled.path.clone())),
            Some(level) => {
                let source = self.source(level);
                match &source.text {
                    Fetched::Absent => Err(ConfigError::PromptFileMissing(source.path.clone())),
                    Fetched::Unreadable(cause) => Err(
                        ConfigError::FileRead(source.path.clone(), cause.clone()),
                    ),
                    Fetched::Present(content) => Ok(
                        (content.clone(), copy_up_from(level, &self.user.path, content)),
                    ),
                }
            },
        }
    }
}

impl AppConfig {
    /// The path of the file `filename` in the user's directory below `home`.
    pub fn get_user_file_path(home: &str, filename: &str) -> (path: String)
        ensures
            path@ == user_file_path(home@, filename@),
    {
        let mut parts: Vec<String> = Vec::new();
        parts.push(USER_CONFIG_DIR.to_owned());
        parts.push(filename.to_owned());
        proof {
            let all = parts.deep_view();
            assert(all =~= seq![USER_CONFIG_DIR@, filename@]);
            assert(all.drop_last() =~= seq![USER_CONFIG_DIR@]);
            assert(all.drop_last().drop_last() =~= Seq::<Seq<char>>::empty());
            reveal_with_fuel(crate::utils::joined_paths, 3);
        }
        safe_path_join(home, parts.as_slice())
    }

    /// Settles the configuration and then the prompt on what the caller
    /// found at their places, and says which copies to make.
    pub fn load(config: &ConfigChain, prompt: &PromptChain) -> (loaded: Resolution)
        ensures
            loaded@ == resolution(config@, prompt@),
            loaded.outcome matches Ok(settings) ==> settings@.ai.well_formed(),
    {
        match config.resolve() {
            Err(e) => Resolution { outcome: Err(e), config_copy: None, prompt_copy: None },
            Ok((ai, config_copy)) => match prompt.resolve() {
                Err(e) => Resolution { outcome: Err(e), config_copy, prompt_copy: None },
                Ok((system_prompt, prompt_copy)) => Resolution {
                    outcome: Ok(AppConfig { ai, system_prompt }),
                    config_copy,
                    prompt_copy,
                },
            },
        }
    }

    /// Says which documents are to be copied to the user's directory so that
    /// both lie there: the copies that [`AppConfig::load`] asks for.
    pub fn initialize_config(config: &ConfigChain, prompt: &PromptChain) -> (copies: (
        Option<CopyUp>,
        Option<CopyUp>,
    ))
        ensures
            option_view(copies.0) == resolution(config@, prompt@).config_copy,
            option_view(copies.1) == resolution(config@, prompt@).prompt_copy,
    {
        let loaded = AppConfig::load(config, prompt);
        (loaded.config_copy, loaded.prompt_copy)
    }

    /// The settings from one configuration document and one prompt document
    /// that were both read: `decoded` is what decoding the configuration
    /// gave, or the cause of its failure, and `prompt` the prompt's text, or
    /// the cause for which it could not be read. The configuration is looked
    /// at first.
    pub fn load_config_from_file(
        config_path: &str,
        decoded: &Result<PartialAppConfig, String>,
        prompt_path: &str,
        prompt: &Result<String, String>,
    ) -> (outcome: Result<AppConfig, ConfigError>)
        ensures
            result_view(outcome) == match decoded {
                Err(cause) => Err(ConfigErrorView::TomlParse(config_path@, cause@)),
                Ok(document) => match prompt {
                    Err(cause) => Err(ConfigErrorView::FileRead(prompt_path@, cause@)),
                    Ok(text) => match document@.resolved() {
                        Err(e) => Err(e),
                        Ok(ai) => Ok(AppConfigView { ai, system_prompt: text@ }),
                    },
                },
            },
            outcome matches Ok(settings) ==> settings@.ai.well_formed(),
    {
        match decoded {
            Err(cause) => Err(ConfigError::TomlParse(config_path.to_owned(), cause.clone())),
            Ok(document) => match prompt {
                Err(cause) => Err(ConfigError::FileRead(prompt_path.to_owned(), cause.clone())),
                Ok(text) => match document.resolve() {
                    Err(e) => Err(e),
                    Ok(ai) => Ok(AppConfig { ai, system_prompt: text.clone() }),
                },
            },
        }
    }
}

impl Resolution {
    /// What the run goes on with once the copies were tried: `config_failure`
    /// and `prompt_failure` hold the cause where a copy could not be written.
    pub fn conclude(self, config_failure: Option<String>, prompt_failure: Option<String>) -> (outcome:
        Result<AppConfig, ConfigError>)
        ensures
            result_view(outcome) == self@.concluded(
                config_failure.deep_view(),
                prompt_failure.deep_view(),
            ),
    {
        match (&self.config_copy, &config_failure) {
            (Some(copy), Some(cause)) => {
                return Err(ConfigError::FileWrite(copy.target.clone(), cause.clone()));
            },
            _ => {},
        }
        match (&self.prompt_copy, &prompt_failure) {
            (Some(copy), Some(cause)) => {
                return Err(ConfigError::FileWrite(copy.target.clone(), cause.clone()));
            },
            _ => {},
        }
        self.outcome
    }
}

/// A key that is written empty or as the placeholder of the templates gives
/// no key, and every other written key is kept as it is.
pub proof fn lemma_key_normalization(table: PartialAIConfigView)
    requires
        table.resolved() is Ok,
    ensures
        match table.api_key {
            None => table.resolved()->Ok_0.api_key is None,
            Some(key) => if key.len() == 0 || key == API_KEY_PLACEHOLDER@ {
                table.resolved()->Ok_0.api_key is None
            } else {
                table.resolved()->Ok_0.api_key == Some(key)
            },
        },
{
}

/// Where only the shipped template holds a configuration, loading gives the
/// settings of that template and asks for its text to be copied, unchanged,
/// to the user's directory.
pub proof fn lemma_template_only(config: ConfigChainView)
    requires
        config.user.text is Absent,
        config.project.text is Absent,
        config.bundled.text is Present,
        config.bundled.decoded is Ok,
        config.bundled.decoded->Ok_0.resolved() is Ok,
    ensures
        config.outcome() == Ok::<(AIConfigView, Option<CopyUpView>), ConfigErrorView>(
            (
                config.bundled.decoded->Ok_0.resolved()->Ok_0,
                Some(
                    CopyUpView {
                        target: config.user.path,
                        content: config.bundled.text->Present_0,
                    },
                ),
            ),
        ),
{
}

/// Loading a second time, after the copies of the first were made, gives what
/// the first gave and asks for no copy: what was copied is read back unchanged.
pub proof fn lemma_load_round_trip(config: ConfigChainView, prompt: PromptChainView)
    ensures
        resolution(config.materialized(), prompt.materialized()).outcome == resolution(
            config,
            prompt,
        ).outcome,
        resolution(config, prompt).outcome is Ok ==> resolution(
            config.materialized(),
            prompt.materialized(),
        ).config_copy is None && resolution(
            config.materialized(),
            prompt.materialized(),
        ).prompt_copy is None,
{
}

/// A higher place decides whatever lies at the lower ones: what loading
/// gives depends on no place below the deciding one.
pub proof fn lemma_precedence(config: ConfigChainView, other: ConfigChainView)
    requires
        config.user == other.user,
        !(config.user.text is Absent) || (config.project == other.project && (!(
            config.project.text is Absent) || config.bundled == other.bundled)),
    ensures
        config.outcome() == other.outcome(),
{
}

} // verus!
