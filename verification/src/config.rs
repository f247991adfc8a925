use crate::messages::opt_text_view;
use crate::text::str_starts_with;
use std::collections::HashMap;
use vstd::prelude::*;

verus! {

/// The validated configuration the session consumes. Reading it from disk
/// and filling in defaults is the surrounding shell's concern; the library
/// holds the values and the rule that makes them acceptable.
pub struct Config {
    pub openai: OpenAIConfig,
    pub permissions: Permissions,
}

/// The completion-service settings.
pub struct OpenAIConfig {
    /// The API credential; the configuration file may leave it out.
    pub api_key: Option<String>,
    /// The model identifier sent with every request.
    pub model: String,
}

/// The model used when the configuration names none.
pub fn default_model() -> (m: String)
    ensures
        m@ == "gpt-3.5-turbo"@,
{
    String::from_str("gpt-3.5-turbo")
}

/// Default value for boolean permissions left out of the configuration.
pub fn default_true() -> (b: bool)
    ensures
        b,
{
    true
}

/// What the user allows the session to do.
pub struct Permissions {
    /// Whether shell commands may run at all.
    pub bash: bool,
}

impl Default for Permissions {
    /// By default commands may run.
    fn default() -> (p: Self)
        ensures
            p.bash,
    {
        Self { bash: true }
    }
}

/// A usable API key is present and bears the standard `sk-` prefix.
pub open spec fn api_key_valid(key: Option<Seq<char>>) -> bool {
    key matches Some(k) && "sk-"@.is_prefix_of(k)
}

impl Config {
    /// Checks a loaded configuration: the API key must be present and start
    /// with `sk-`; the error tells the user which file to mend.
    pub fn validate(&self, config_path: &str) -> (r: Result<(), String>)
        ensures
            r is Ok <==> api_key_valid(opt_text_view(self.openai.api_key)),
            r matches Err(e) ==> e@ == "Please set your OpenAI API key in "@ + config_path@,
    {
        let ok: bool = match &self.openai.api_key {
            Some(key) => str_starts_with(key.as_str(), "sk-"),
            None => false,
        };
        if ok {
            Ok(())
        } else {
            Err(String::from_str("Please set your OpenAI API key in ").concat(config_path))
        }
    }
}

/// The host platform facts injected into the system message. Gathering
/// them is the surrounding shell's concern.
pub struct PlatformInfo {
    pub os: String,
    pub arch: String,
    pub user: String,
    pub env_vars: HashMap<String, String>,
}

/// The platform block of the system prompt.
pub open spec fn platform_prompt(os: Seq<char>, arch: Seq<char>, user: Seq<char>) -> Seq<char> {
    "Platform Information:\n    OS: "@ + os + "\n    ARCH: "@ + arch + "\n    USER: "@ + user
        + "\n"@
}

impl PlatformInfo {
    /// Renders the platform facts as the block the system prompt carries.
    pub fn dump_as_prompt(&self) -> (r: String)
        ensures
            r@ == platform_prompt(self.os@, self.arch@, self.user@),
    {
        let mut r = String::from_str("Platform Information:\n    OS: ");
        r.append(self.os.as_str());
        r.append("\n    ARCH: ");
        r.append(self.arch.as_str());
        r.append("\n    USER: ");
        r.append(self.user.as_str());
        r.append("\n");
        r
    }
}

} // verus!
