//! What the agent is told once, when it is made.

use vstd::prelude::*;

verus! {

/// The facts about its surroundings that the agent's decisions rest on.
pub struct Settings {
    /// The model provider that sessions use.
    pub model_provider_id: String,
    /// The environment variable that holds the Codex API key.
    pub codex_api_key_env_var: String,
    /// The environment variable that holds the OpenAI API key.
    pub openai_api_key_env_var: String,
    /// The environment in which MCP servers run unless told otherwise.
    pub default_mcp_environment_id: String,
    /// The names of the MCP servers that are configured for every session.
    pub configured_mcp_servers: Vec<String>,
    /// The version under which the agent presents itself.
    pub version: String,
    /// Whether there is a state database.
    pub has_state_db: bool,
}

/// The model of [`Settings`].
pub struct SettingsView {
    pub model_provider_id: Seq<char>,
    pub codex_api_key_env_var: Seq<char>,
    pub openai_api_key_env_var: Seq<char>,
    pub default_mcp_environment_id: Seq<char>,
    pub configured_mcp_servers: Seq<Seq<char>>,
    pub version: Seq<char>,
    pub has_state_db: bool,
}

/// The texts of a list of strings.
pub open spec fn texts(strings: Seq<String>) -> Seq<Seq<char>> {
    strings.map_values(|string: String| string@)
}

impl View for Settings {
    type V = SettingsView;

    open spec fn view(&self) -> SettingsView {
        SettingsView {
            model_provider_id: self.model_provider_id@,
            codex_api_key_env_var: self.codex_api_key_env_var@,
            openai_api_key_env_var: self.openai_api_key_env_var@,
            default_mcp_environment_id: self.default_mcp_environment_id@,
            configured_mcp_servers: texts(self.configured_mcp_servers@),
            version: self.version@,
            has_state_db: self.has_state_db,
        }
    }
}

} // verus!
