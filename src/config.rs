//! Configuration of the chat client: the tool-host programs to start and the
//! model endpoint to talk to.
use std::collections::HashMap;
use vstd::prelude::*;

verus! {

/// Command-line arguments.
#[derive(Debug, PartialEq)]
pub struct Args {
    /// A configuration file to read instead of the default one.
    pub conf_file: Option<String>,
}

/// How to reach the model.
#[derive(Debug, PartialEq)]
pub struct LLMConfig {
    pub api_key: String,
    pub base_url: Option<String>,
    pub model: Option<String>,
}

/// The whole configuration: tool-host programs by name, the environment
/// they are started with, and the model endpoint.
#[derive(Debug, PartialEq)]
pub struct Conf {
    pub executables: HashMap<String, String>,
    pub environment: HashMap<String, String>,
    pub llm: LLMConfig,
}

/// The model used when none is configured.
pub open spec fn default_model() -> Seq<char> {
    "gpt-4o"@
}

/// The endpoint used when none is configured.
pub open spec fn default_api_base() -> Seq<char> {
    "https://api.openai.com/v1"@
}

impl LLMConfig {
    /// The configured model, or `gpt-4o`.
    pub fn model_name(&self) -> (r: String)
        ensures
            r@ == match self.model {
                Some(m) => m@,
                None => default_model(),
            },
    {
        match &self.model {
            Some(m) => m.clone(),
            None => String::from_str("gpt-4o"),
        }
    }

    /// The configured endpoint, or the public OpenAI one.
    pub fn api_base(&self) -> (r: String)
        ensures
            r@ == match self.base_url {
                Some(b) => b@,
                None => default_api_base(),
            },
    {
        match &self.base_url {
            Some(b) => b.clone(),
            None => String::from_str("https://api.openai.com/v1"),
        }
    }
}

} // verus!
