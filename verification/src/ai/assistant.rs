//! The assistant: its configuration, and the answers it gives while no service
//! stands behind it.

use vstd::prelude::*;

use crate::text::followed_by;

verus! {

/// The service that is asked where the configuration names no other.
pub const DEFAULT_API_ENDPOINT: &'static str = "https://api.openai.com/v1/chat/completions";

/// What stands before the page's address in the answer on a page.
pub const PAGE_SUGGESTION_PREFIX: &'static str = "Analyzing page: ";

/// The explanation that comes with the answer on a page.
pub const PAGE_EXPLANATION: &'static str = "AI assistant is ready to help you navigate this page.";

/// The answer to a request for an action.
pub const ACTION_SUGGESTION: &'static str = "AI suggestion feature coming soon";

/// What the assistant answers: a suggestion and, where it has one, an explanation.
#[derive(Debug, PartialEq, Eq)]
pub struct AIResponse {
    pub suggestion: String,
    pub explanation: Option<String>,
}

/// The mathematical model of an assistant's configuration.
pub struct Settings {
    /// The credential, if one was given.
    pub api_key: Option<Seq<char>>,
    /// The service that is asked.
    pub api_endpoint: Seq<char>,
}

/// The configuration that an assistant is made with.
#[derive(Debug, PartialEq, Eq)]
pub struct AssistantConfig {
    /// The credential for the service, if there is one.
    pub api_key: Option<String>,
    /// The service that is asked.
    pub api_endpoint: String,
}

impl View for AssistantConfig {
    type V = Settings;

    open spec fn view(&self) -> Settings {
        Settings {
            api_key: match self.api_key {
                Some(key) => Some(key@),
                None => None,
            },
            api_endpoint: self.api_endpoint@,
        }
    }
}

impl Default for AssistantConfig {
    /// No credential, and the default service.
    fn default() -> (config: AssistantConfig)
        ensures
            config@.api_key is None,
            config@.api_endpoint == DEFAULT_API_ENDPOINT@,
    {
        AssistantConfig::new(None, None)
    }
}

impl AssistantConfig {
    /// The configuration with the credential and the service given, each optional:
    /// without a service, the default one is asked.
    pub fn new(api_key: Option<String>, api_endpoint: Option<String>) -> (config: AssistantConfig)
        ensures
            config@.api_key == match api_key {
                Some(key) => Some(key@),
                None => None,
            },
            config@.api_endpoint == match api_endpoint {
                Some(endpoint) => endpoint@,
                None => DEFAULT_API_ENDPOINT@,
            },
    {
        let api_endpoint = match api_endpoint {
            Some(endpoint) => endpoint,
            None => DEFAULT_API_ENDPOINT.to_owned(),
        };
        AssistantConfig { api_key, api_endpoint }
    }
}

/// The assistant, with the configuration it was made with.
pub struct AIAssistant {
    api_key: Option<String>,
    api_endpoint: String,
}

impl View for AIAssistant {
    type V = Settings;

    closed spec fn view(&self) -> Settings {
        Settings {
            api_key: match self.api_key {
                Some(key) => Some(key@),
                None => None,
            },
            api_endpoint: self.api_endpoint@,
        }
    }
}

impl AIAssistant {
    /// An assistant with the configuration given.
    pub fn new(config: AssistantConfig) -> (assistant: AIAssistant)
        ensures
            assistant@ == config@,
    {
        AIAssistant { api_key: config.api_key, api_endpoint: config.api_endpoint }
    }

    /// The answer on the page at `url`: that the page is being analysed, whatever its
    /// content.
    #[allow(unused_variables)]
    pub fn process_page(&self, url: &str, content: &str) -> (response: AIResponse)
        ensures
            response.suggestion@ == PAGE_SUGGESTION_PREFIX@ + url@,
            response.explanation matches Some(explanation) && explanation@ == PAGE_EXPLANATION@,
    {
        AIResponse {
            suggestion: followed_by(PAGE_SUGGESTION_PREFIX, url),
            explanation: Some(PAGE_EXPLANATION.to_owned()),
        }
    }

    /// The answer to a request for an action: the same for every context.
    #[allow(unused_variables)]
    pub fn suggest_action(&self, context: &str) -> (response: AIResponse)
        ensures
            response.suggestion@ == ACTION_SUGGESTION@,
            response.explanation is None,
    {
        AIResponse { suggestion: ACTION_SUGGESTION.to_owned(), explanation: None }
    }

    /// Whether a credential was given.
    pub fn is_configured(&self) -> (configured: bool)
        ensures
            configured == self@.api_key is Some,
    {
        self.api_key.is_some()
    }

    /// The service that is asked.
    pub fn api_endpoint(&self) -> (endpoint: &str)
        ensures
            endpoint@ == self@.api_endpoint,
    {
        self.api_endpoint.as_str()
    }
}

} // verus!
