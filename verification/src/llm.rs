//! Chat messages, the clients that answer them, and how clients are chosen.
use vstd::prelude::*;
use vstd::string::StringExecFns;
use crate::config::{ModelConfig, ProviderConfig};
use crate::provider::{provider_label, ModelProvider};
use crate::text::{chars_of, trim, trim_bounds};

verus! {

broadcast use vstd::string::group_string_axioms;

/// Who speaks a chat message.
#[derive(Debug, Clone, Copy, PartialEq, Eq, Structural)]
pub enum LlmRole {
    System,
    User,
    Assistant,
}

/// One chat message sent to a model.
#[derive(Debug, Clone)]
pub struct LlmMessage {
    pub role: LlmRole,
    pub content: String,
}

impl LlmMessage {
    /// A system message.
    pub fn system(content: &str) -> (r: Self)
        ensures
            r.role == LlmRole::System,
            r.content@ == content@,
    {
        LlmMessage { role: LlmRole::System, content: String::from_str(content) }
    }

    /// A user message.
    pub fn user(content: &str) -> (r: Self)
        ensures
            r.role == LlmRole::User,
            r.content@ == content@,
    {
        LlmMessage { role: LlmRole::User, content: String::from_str(content) }
    }

    /// An assistant message.
    pub fn assistant(content: &str) -> (r: Self)
        ensures
            r.role == LlmRole::Assistant,
            r.content@ == content@,
    {
        LlmMessage { role: LlmRole::Assistant, content: String::from_str(content) }
    }
}

/// A model's answer.
#[derive(Debug, Clone)]
pub struct LlmResponse {
    pub content: String,
}

impl LlmResponse {
    /// An answer with the given text.
    pub fn new(content: String) -> (r: Self)
        ensures
            r.content == content,
    {
        LlmResponse { content }
    }
}

/// A client that answers every request with a fixed text.
#[derive(Debug)]
pub struct MockLlmClient {
    response: String,
}

/// The fixed answer of the default mock client: an analysis for local development.
pub open spec fn default_mock_response() -> Seq<char> {
    "{\"app_type\":\"web_app\",\"components\":[\"MockComponent\"],\"features\":[\"mock feature\"],\"pages\":[\"home\"],\"summary\":\"Mock analysis for local development\"}"@
}

impl MockLlmClient {
    /// A mock client that answers with `response`.
    pub fn new(response: &str) -> (r: Self)
        ensures
            r.response()@ == response@,
    {
        MockLlmClient { response: String::from_str(response) }
    }

    /// The text the client answers with.
    pub closed spec fn response(&self) -> String {
        self.response
    }

    /// Answers a conversation: always the configured text.
    pub fn respond(&self, messages: &[LlmMessage]) -> (r: LlmResponse)
        ensures
            r.content@ == self.response()@,
    {
        LlmResponse::new(self.response.clone())
    }
}

impl Default for MockLlmClient {
    fn default() -> (r: Self)
        ensures
            r.response()@ == default_mock_response(),
    {
        MockLlmClient::new(
            "{\"app_type\":\"web_app\",\"components\":[\"MockComponent\"],\"features\":[\"mock feature\"],\"pages\":[\"home\"],\"summary\":\"Mock analysis for local development\"}",
        )
    }
}

/// Why a client could not be set up.
#[derive(Debug, Clone, Copy, PartialEq, Eq, Structural)]
pub enum LlmError {
    /// The provider has no settings.
    MissingProviderConfig(ModelProvider),
    /// The provider's API key is absent or blank.
    MissingApiKey(ModelProvider),
}

/// The message of a client setup failure.
pub open spec fn llm_error_message(e: LlmError) -> Seq<char> {
    match e {
        LlmError::MissingProviderConfig(p) => "missing provider config for "@ + provider_label(p),
        LlmError::MissingApiKey(p) => "api key is required for "@ + provider_label(p),
    }
}

impl LlmError {
    /// The human-readable message.
    pub fn message(&self) -> (r: String)
        ensures
            r@ == llm_error_message(*self),
    {
        match self {
            LlmError::MissingProviderConfig(p) => {
                let mut r = String::from_str("missing provider config for ");
                r.append(p.label());
                r
            },
            LlmError::MissingApiKey(p) => {
                let mut r = String::from_str("api key is required for ");
                r.append(p.label());
                r
            },
        }
    }
}

/// Whether an API key is usable: present and not blank.
pub open spec fn usable_api_key(key: Option<String>) -> bool {
    key matches Some(k) && trim(k@).len() > 0
}

/// The settings of a client for an OpenAI-compatible provider, checked to hold an API key.
#[derive(Debug)]
pub struct OpenAiCompatibleClient {
    provider: ModelProvider,
    config: ProviderConfig,
    api_key: String,
}

impl OpenAiCompatibleClient {
    /// The provider the client talks to.
    pub closed spec fn provider_spec(&self) -> ModelProvider {
        self.provider
    }

    /// The settings the client uses.
    pub closed spec fn config_spec(&self) -> ProviderConfig {
        self.config
    }

    /// The API key the client sends.
    pub closed spec fn api_key_spec(&self) -> String {
        self.api_key
    }

    /// Accepts the settings when they hold an API key that is not blank.
    pub fn new(provider: ModelProvider, config: ProviderConfig) -> (r: Result<Self, LlmError>)
        ensures
            r is Ok <==> usable_api_key(config.api_key),
            r matches Ok(c) ==> c.provider_spec() == provider && c.config_spec() == config
                && Some(c.api_key_spec()) == config.api_key,
            r matches Err(e) ==> e == LlmError::MissingApiKey(provider),
    {
        let key = match &config.api_key {
            Some(k) => {
                let v = chars_of(k.as_str());
                let (lo, hi) = trim_bounds(&v);
                if lo == hi {
                    return Err(LlmError::MissingApiKey(provider));
                }
                k.clone()
            },
            None => {
                return Err(LlmError::MissingApiKey(provider));
            },
        };
        Ok(OpenAiCompatibleClient { provider, config, api_key: key })
    }

    /// The provider the client talks to.
    pub fn provider(&self) -> (r: ModelProvider)
        ensures
            r == self.provider_spec(),
    {
        self.provider
    }

    /// The settings the client uses.
    pub fn config(&self) -> (r: &ProviderConfig)
        ensures
            *r == self.config_spec(),
    {
        &self.config
    }

    /// The API key the client sends.
    pub fn api_key(&self) -> (r: &str)
        ensures
            r@ == self.api_key_spec()@,
    {
        self.api_key.as_str()
    }
}

/// Which providers the agent uses, and their settings.
#[derive(Debug)]
pub struct ModelRegistry {
    config: ModelConfig,
}

/// The settings of `provider` in `config`; the mock provider has none.
pub open spec fn provider_config_of(config: ModelConfig, provider: ModelProvider) -> Option<
    ProviderConfig,
> {
    match provider {
        ModelProvider::Mock => None,
        ModelProvider::DeepSeek => Some(config.deepseek),
        ModelProvider::Glm => Some(config.glm),
        ModelProvider::Qwen => Some(config.qwen),
    }
}

/// The settings the registry gives for a provider are that provider's own block of the
/// configuration, and the mock provider has none.
pub proof fn lemma_provider_settings_are_own_block(c: ModelConfig)
    ensures
        provider_config_of(c, ModelProvider::Mock) is None,
        provider_config_of(c, ModelProvider::DeepSeek) == Some(c.deepseek),
        provider_config_of(c, ModelProvider::Glm) == Some(c.glm),
        provider_config_of(c, ModelProvider::Qwen) == Some(c.qwen),
{
}

impl ModelRegistry {
    /// The configuration the registry was made with.
    pub closed spec fn config_spec(&self) -> ModelConfig {
        self.config
    }

    /// A registry over `config`.
    pub fn new(config: ModelConfig) -> (r: Self)
        ensures
            r.config_spec() == config,
    {
        ModelRegistry { config }
    }

    /// The provider of the main model.
    pub fn main_provider(&self) -> (r: ModelProvider)
        ensures
            r == self.config_spec().main_provider,
    {
        self.config.main_provider
    }

    /// The provider of the vision model.
    pub fn vision_provider(&self) -> (r: ModelProvider)
        ensures
            r == self.config_spec().vision_provider,
    {
        self.config.vision_provider
    }

    /// The settings of `provider`; none for the mock provider.
    pub fn provider_config(&self, provider: ModelProvider) -> (r: Option<&ProviderConfig>)
        ensures
            match r {
                Some(c) => provider_config_of(self.config_spec(), provider) == Some(*c),
                None => provider_config_of(self.config_spec(), provider) is None,
            },
    {
        match provider {
            ModelProvider::Mock => None,
            ModelProvider::DeepSeek => Some(&self.config.deepseek),
            ModelProvider::Glm => Some(&self.config.glm),
            ModelProvider::Qwen => Some(&self.config.qwen),
        }
    }

    /// The settings of the main model's provider.
    pub fn main_config(&self) -> (r: Option<&ProviderConfig>)
        ensures
            match r {
                Some(c) => provider_config_of(self.config_spec(), self.config_spec().main_provider)
                    == Some(*c),
                None => provider_config_of(
                    self.config_spec(),
                    self.config_spec().main_provider,
                ) is None,
            },
    {
        self.provider_config(self.config.main_provider)
    }

    /// The settings of the vision model's provider.
    pub fn vision_config(&self) -> (r: Option<&ProviderConfig>)
        ensures
            match r {
                Some(c) => provider_config_of(
                    self.config_spec(),
                    self.config_spec().vision_provider,
                ) == Some(*c),
                None => provider_config_of(
                    self.config_spec(),
                    self.config_spec().vision_provider,
                ) is None,
            },
    {
        self.provider_config(self.config.vision_provider)
    }
}

/// The client chosen for a provider.
#[derive(Debug)]
pub enum ClientChoice {
    Mock(MockLlmClient),
    OpenAiCompatible(OpenAiCompatibleClient),
}

/// Whether `c` is the client that `build_client` chooses for `provider` with `config`.
pub open spec fn client_for(c: ClientChoice, provider: ModelProvider, config: Option<ProviderConfig>) -> bool {
    match provider {
        ModelProvider::Mock => c matches ClientChoice::Mock(m) && m.response()@
            == default_mock_response(),
        _ => c matches ClientChoice::OpenAiCompatible(o) && config == Some(o.config_spec())
            && o.provider_spec() == provider && config->0.api_key == Some(o.api_key_spec()),
    }
}

/// Whether a client can be chosen for `provider` with `config`.
pub open spec fn client_available(provider: ModelProvider, config: Option<ProviderConfig>) -> bool {
    provider == ModelProvider::Mock || (config matches Some(c) && usable_api_key(c.api_key))
}

/// The error `build_client` reports when no client can be chosen.
pub open spec fn client_error(provider: ModelProvider, config: Option<ProviderConfig>) -> LlmError {
    if config is None {
        LlmError::MissingProviderConfig(provider)
    } else {
        LlmError::MissingApiKey(provider)
    }
}

/// The settings behind an optional reference.
pub open spec fn deref_config(config: Option<&ProviderConfig>) -> Option<ProviderConfig> {
    match config {
        Some(c) => Some(*c),
        None => None,
    }
}

/// Chooses the client for a provider: the default mock client, or an OpenAI-compatible
/// client over the provider's settings.
pub fn build_client(provider: ModelProvider, config: Option<&ProviderConfig>) -> (r: Result<
    ClientChoice,
    LlmError,
>)
    ensures
        r is Ok <==> client_available(provider, deref_config(config)),
        r matches Ok(c) ==> client_for(c, provider, deref_config(config)),
        r matches Err(e) ==> e == client_error(provider, deref_config(config)),
{
    match provider {
        ModelProvider::Mock => Ok(ClientChoice::Mock(MockLlmClient::default())),
        _ => {
            let config = match config {
                Some(c) => c.clone(),
                None => {
                    return Err(LlmError::MissingProviderConfig(provider));
                },
            };
            match OpenAiCompatibleClient::new(provider, config) {
                Ok(c) => Ok(ClientChoice::OpenAiCompatible(c)),
                Err(e) => Err(e),
            }
        },
    }
}

/// The clients of the main and the vision model.
#[derive(Debug)]
pub struct LlmService {
    main_client: ClientChoice,
    vision_client: ClientChoice,
}

impl LlmService {
    /// The client of the main model.
    pub closed spec fn main_spec(&self) -> ClientChoice {
        self.main_client
    }

    /// The client of the vision model.
    pub closed spec fn vision_spec(&self) -> ClientChoice {
        self.vision_client
    }

    /// Chooses the clients of the main and the vision model from the registry; fails
    /// when either cannot be set up (the main model is checked first).
    pub fn from_registry(registry: &ModelRegistry) -> (r: Result<Self, LlmError>)
        ensures
            ({
                let c = registry.config_spec();
                let main = provider_config_of(c, c.main_provider);
                let vision = provider_config_of(c, c.vision_provider);
                &&& r is Ok <==> client_available(c.main_provider, main) && client_available(
                    c.vision_provider,
                    vision,
                )
                &&& r matches Ok(s) ==> client_for(s.main_spec(), c.main_provider, main)
                    && client_for(s.vision_spec(), c.vision_provider, vision)
                &&& r matches Err(e) ==> if !client_available(c.main_provider, main) {
                    e == client_error(c.main_provider, main)
                } else {
                    e == client_error(c.vision_provider, vision)
                }
            }),
    {
        let main_client = build_client(registry.main_provider(), registry.main_config())?;
        let vision_client = build_client(registry.vision_provider(), registry.vision_config())?;
        Ok(LlmService { main_client, vision_client })
    }

    /// The client of the main model.
    pub fn main_client(&self) -> (r: &ClientChoice)
        ensures
            *r == self.main_spec(),
    {
        &self.main_client
    }

    /// The client of the vision model.
    pub fn vision_client(&self) -> (r: &ClientChoice)
        ensures
            *r == self.vision_spec(),
    {
        &self.vision_client
    }
}

} // verus!
