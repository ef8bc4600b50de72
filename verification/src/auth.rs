//! The ways to authenticate, and how the protocol speaks of them.

use crate::error::{invalid_params_error, Error, ErrorView};
use crate::settings::{texts, Settings, SettingsView};
use crate::title::optional_text;
use vstd::prelude::*;
use vstd::string::*;

verus! {

/// A way to authenticate.
#[derive(Debug, Clone, Copy, PartialEq, Eq, Structural)]
pub enum CodexAuthMethod {
    ChatGpt,
    CodexApiKey,
    OpenAiApiKey,
}

/// How the agent is authenticated at present.
#[derive(Debug, Clone, Copy, PartialEq, Eq, Structural)]
pub enum CodexAuth {
    ApiKey,
    Chatgpt,
    Other,
}

/// A way to authenticate, as the client is told of it: one that the agent
/// carries out, or one that takes environment variables.
pub enum AuthMethod {
    Agent { id: String, name: String, description: Option<String> },
    EnvVar { id: String, name: String, vars: Vec<String>, description: Option<String> },
}

/// The model of [`AuthMethod`].
pub enum AuthMethodView {
    Agent { id: Seq<char>, name: Seq<char>, description: Option<Seq<char>> },
    EnvVar {
        id: Seq<char>,
        name: Seq<char>,
        vars: Seq<Seq<char>>,
        description: Option<Seq<char>>,
    },
}

impl View for AuthMethod {
    type V = AuthMethodView;

    open spec fn view(&self) -> AuthMethodView {
        match *self {
            AuthMethod::Agent { id, name, description } => AuthMethodView::Agent {
                id: id@,
                name: name@,
                description: optional_text(description),
            },
            AuthMethod::EnvVar { id, name, vars, description } => AuthMethodView::EnvVar {
                id: id@,
                name: name@,
                vars: texts(vars@),
                description: optional_text(description),
            },
        }
    }
}

/// The identifier of a way to authenticate.
pub open spec fn auth_method_id(method: CodexAuthMethod) -> Seq<char> {
    match method {
        CodexAuthMethod::ChatGpt => "chatgpt"@,
        CodexAuthMethod::CodexApiKey => "codex-api-key"@,
        CodexAuthMethod::OpenAiApiKey => "openai-api-key"@,
    }
}

/// The way to authenticate that an identifier stands for.
pub open spec fn identified_auth_method(id: Seq<char>) -> Result<CodexAuthMethod, ErrorView> {
    if id == auth_method_id(CodexAuthMethod::ChatGpt) {
        Ok(CodexAuthMethod::ChatGpt)
    } else if id == auth_method_id(CodexAuthMethod::CodexApiKey) {
        Ok(CodexAuthMethod::CodexApiKey)
    } else if id == auth_method_id(CodexAuthMethod::OpenAiApiKey) {
        Ok(CodexAuthMethod::OpenAiApiKey)
    } else {
        Err(invalid_params_error("unsupported authentication method"@))
    }
}

/// The way to authenticate that takes the key in the given variable.
pub open spec fn env_var_method(id: Seq<char>, var: Seq<char>) -> AuthMethodView {
    AuthMethodView::EnvVar {
        id,
        name: "Use "@ + var,
        vars: seq![var],
        description: Some("Requires setting the `"@ + var + "` environment variable."@),
    }
}

/// How the client is told of a way to authenticate.
pub open spec fn described_auth_method(
    method: CodexAuthMethod,
    settings: SettingsView,
) -> AuthMethodView {
    match method {
        CodexAuthMethod::ChatGpt => AuthMethodView::Agent {
            id: auth_method_id(method),
            name: "Login with ChatGPT"@,
            description: Some(
                "Use your ChatGPT login with Codex CLI (requires a paid ChatGPT subscription)"@,
            ),
        },
        CodexAuthMethod::CodexApiKey => env_var_method(
            auth_method_id(method),
            settings.codex_api_key_env_var,
        ),
        CodexAuthMethod::OpenAiApiKey => env_var_method(
            auth_method_id(method),
            settings.openai_api_key_env_var,
        ),
    }
}

/// Whether the agent is already authenticated the given way. Both API keys
/// count as one way.
pub open spec fn already_authenticated(auth: Option<CodexAuth>, method: CodexAuthMethod) -> bool {
    match method {
        CodexAuthMethod::ChatGpt => auth == Some(CodexAuth::Chatgpt),
        CodexAuthMethod::CodexApiKey | CodexAuthMethod::OpenAiApiKey => auth == Some(
            CodexAuth::ApiKey,
        ),
    }
}

/// Why an API key cannot be had: its variable is not set.
pub open spec fn missing_key_reason(method: CodexAuthMethod, settings: SettingsView) -> Seq<char> {
    let var = if method == CodexAuthMethod::CodexApiKey {
        settings.codex_api_key_env_var
    } else {
        settings.openai_api_key_env_var
    };
    var + " is not set"@
}

fn describe_env_var_method(id: String, var: &String) -> (described: AuthMethod)
    ensures
        described@ == env_var_method(id@, var@),
{
    let mut name: String = "Use ".to_string();
    name.append(var.as_str());
    let mut description: String = "Requires setting the `".to_string();
    description.append(var.as_str());
    description.append("` environment variable.");
    let mut vars: Vec<String> = Vec::new();
    vars.push(var.clone());
    assert(texts(vars@) =~= seq![var@]);
    AuthMethod::EnvVar { id, name, vars, description: Some(description) }
}

impl CodexAuthMethod {
    /// The identifier of this way to authenticate.
    pub fn id(self) -> (id: String)
        ensures
            id@ == auth_method_id(self),
    {
        match self {
            CodexAuthMethod::ChatGpt => "chatgpt".to_string(),
            CodexAuthMethod::CodexApiKey => "codex-api-key".to_string(),
            CodexAuthMethod::OpenAiApiKey => "openai-api-key".to_string(),
        }
    }

    /// The way to authenticate that an identifier stands for.
    pub fn try_from(id: &String) -> (method: Result<CodexAuthMethod, Error>)
        ensures
            match method {
                Ok(found) => identified_auth_method(id@) == Ok::<CodexAuthMethod, ErrorView>(found),
                Err(error) => identified_auth_method(id@) == Err::<CodexAuthMethod, ErrorView>(
                    error@,
                ),
            },
    {
        if *id == "chatgpt".to_string() {
            Ok(CodexAuthMethod::ChatGpt)
        } else if *id == "codex-api-key".to_string() {
            Ok(CodexAuthMethod::CodexApiKey)
        } else if *id == "openai-api-key".to_string() {
            Ok(CodexAuthMethod::OpenAiApiKey)
        } else {
            Err(Error::invalid_params("unsupported authentication method".to_string()))
        }
    }

    /// How the client is told of this way to authenticate.
    pub fn describe(self, settings: &Settings) -> (described: AuthMethod)
        ensures
            described@ == described_auth_method(self, settings@),
    {
        match self {
            CodexAuthMethod::ChatGpt => AuthMethod::Agent {
                id: self.id(),
                name: "Login with ChatGPT".to_string(),
                description: Some(
                    "Use your ChatGPT login with Codex CLI (requires a paid ChatGPT subscription)".to_string(),
                ),
            },
            CodexAuthMethod::CodexApiKey => describe_env_var_method(
                self.id(),
                &settings.codex_api_key_env_var,
            ),
            CodexAuthMethod::OpenAiApiKey => describe_env_var_method(
                self.id(),
                &settings.openai_api_key_env_var,
            ),
        }
    }

    /// Tells whether the agent is already authenticated this way.
    pub fn is_satisfied_by(self, auth: Option<CodexAuth>) -> (satisfied: bool)
        ensures
            satisfied == already_authenticated(auth, self),
    {
        match (auth, self) {
            (
                Some(CodexAuth::ApiKey),
                CodexAuthMethod::CodexApiKey | CodexAuthMethod::OpenAiApiKey,
            ) => true,
            (Some(CodexAuth::Chatgpt), CodexAuthMethod::ChatGpt) => true,
            _ => false,
        }
    }

    /// Why this way's API key cannot be had: its variable is not set.
    pub fn missing_key(self, settings: &Settings) -> (reason: String)
        ensures
            reason@ == missing_key_reason(self, settings@),
    {
        let mut reason: String = match self {
            CodexAuthMethod::CodexApiKey => settings.codex_api_key_env_var.clone(),
            _ => settings.openai_api_key_env_var.clone(),
        };
        reason.append(" is not set");
        reason
    }
}

/// The identifier of a way to authenticate stands for that way.
pub proof fn auth_method_ids_are_read_back(method: CodexAuthMethod)
    ensures
        identified_auth_method(auth_method_id(method)) == Ok::<CodexAuthMethod, ErrorView>(method),
{
    reveal_strlit("chatgpt");
    reveal_strlit("codex-api-key");
    reveal_strlit("openai-api-key");
    assert("chatgpt"@.len() == 7);
    assert("codex-api-key"@.len() == 13);
    assert("openai-api-key"@.len() == 14);
}

/// Only identifiers of ways to authenticate are accepted.
pub proof fn only_auth_method_ids_are_accepted(id: Seq<char>)
    ensures
        identified_auth_method(id) is Ok <==> exists|method: CodexAuthMethod|
            id == #[trigger] auth_method_id(method),
{
    if exists|method: CodexAuthMethod| id == #[trigger] auth_method_id(method) {
        let method = choose|method: CodexAuthMethod| id == #[trigger] auth_method_id(method);
        auth_method_ids_are_read_back(method);
    }
}

} // verus!
