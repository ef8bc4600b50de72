//! Getting to know each other: initialization, authentication and logout.

use crate::action::{told, Action, ActionView};
use crate::agent::{AgentView, CodexAgent};
use crate::auth::{
    already_authenticated, described_auth_method, identified_auth_method, missing_key_reason,
    AuthMethod, AuthMethodView, CodexAuth, CodexAuthMethod,
};
use crate::error::{internal_error_with, Error};
use crate::protocol::{
    auth_method_views, AgentCapabilities, Host, Introduction, IntroductionView, Response,
    ResponseView, PROTOCOL_VERSION,
};
use crate::settings::SettingsView;
use crate::task::{fail, succeed, Progress, ProgressView, Task, TaskView};
use crate::title::optional_text;
use vstd::prelude::*;

verus! {

/// What the agent can do: everything but to listen, and to reach MCP servers
/// over server-sent events.
pub open spec fn agent_capabilities() -> AgentCapabilities {
    AgentCapabilities {
        load_session: true,
        image: true,
        audio: false,
        embedded_context: true,
        mcp_http: true,
        mcp_sse: false,
        logout: true,
        close_session: true,
        list_sessions: true,
        resume_session: true,
        set_session_title: true,
    }
}

/// The ways to authenticate that the client is offered. The login with ChatGPT
/// needs a browser.
pub open spec fn offered_auth_methods(settings: SettingsView, no_browser: bool) -> Seq<
    AuthMethodView,
> {
    let keys = seq![
        described_auth_method(CodexAuthMethod::CodexApiKey, settings),
        described_auth_method(CodexAuthMethod::OpenAiApiKey, settings),
    ];
    if no_browser {
        keys
    } else {
        seq![described_auth_method(CodexAuthMethod::ChatGpt, settings)] + keys
    }
}

/// How the agent presents itself.
pub open spec fn introduction(settings: SettingsView, no_browser: bool) -> IntroductionView {
    IntroductionView {
        protocol_version: PROTOCOL_VERSION,
        capabilities: agent_capabilities(),
        name: "codex-acp"@,
        title: "Codex"@,
        version: settings.version,
        auth_methods: offered_auth_methods(settings, no_browser),
    }
}

/// An authentication is asked for: first the agent looks whether it is
/// authenticated already.
pub open spec fn authentication_requested<H: Host>(method_id: Seq<char>) -> ProgressView<H> {
    match identified_auth_method(method_id) {
        Ok(method) => ProgressView::Pending {
            task: TaskView::ReadingAuth { method },
            action: ActionView::ReadAuth,
        },
        Err(error) => fail(error),
    }
}

/// It is known how the agent is authenticated. Where that is not the way asked
/// for, the user logs in, or the API key is read.
pub open spec fn auth_read<H: Host>(
    method: CodexAuthMethod,
    auth: Option<CodexAuth>,
) -> ProgressView<H> {
    if already_authenticated(auth, method) {
        succeed(ResponseView::Authenticate)
    } else {
        match method {
            CodexAuthMethod::ChatGpt => ProgressView::Pending {
                task: TaskView::StartingLogin,
                action: ActionView::StartLogin,
            },
            CodexAuthMethod::CodexApiKey | CodexAuthMethod::OpenAiApiKey => ProgressView::Pending {
                task: TaskView::ReadingApiKey { method },
                action: ActionView::ReadApiKey { method },
            },
        }
    }
}

/// The login server has been started.
pub open spec fn login_started<H: Host>(outcome: Result<(), Seq<char>>) -> ProgressView<H> {
    match outcome {
        Ok(()) => ProgressView::Pending {
            task: TaskView::AwaitingLogin,
            action: ActionView::AwaitLogin,
        },
        Err(reason) => fail(internal_error_with(reason)),
    }
}

/// The API key has been read.
pub open spec fn api_key_read<H: Host>(
    agent: AgentView<H>,
    method: CodexAuthMethod,
    api_key: Option<Seq<char>>,
) -> ProgressView<H> {
    match api_key {
        Some(api_key) => ProgressView::Pending {
            task: TaskView::StoringApiKey,
            action: ActionView::StoreApiKey { api_key },
        },
        None => fail(internal_error_with(missing_key_reason(method, agent.settings))),
    }
}

/// The new credentials have been stored: the agent takes them up.
pub open spec fn credentials_stored<H: Host>(outcome: Result<(), Seq<char>>) -> ProgressView<H> {
    match outcome {
        Ok(()) => ProgressView::Pending {
            task: TaskView::AdoptingAuth,
            action: ActionView::ReloadAuth,
        },
        Err(reason) => fail(internal_error_with(reason)),
    }
}

/// The credentials are to be forgotten.
pub open spec fn logout_requested<H: Host>() -> ProgressView<H> {
    ProgressView::Pending { task: TaskView::LoggingOut, action: ActionView::Logout }
}

/// The credentials have been forgotten.
pub open spec fn logged_out<H: Host>(outcome: Result<(), Seq<char>>) -> ProgressView<H> {
    match outcome {
        Ok(()) => succeed(ResponseView::Logout),
        Err(reason) => fail(internal_error_with(reason)),
    }
}

impl<H: Host> CodexAgent<H> {
    /// Takes note of what the client can do, and presents the agent.
    pub fn initialize(&mut self, client_capabilities: H::Capabilities, no_browser: bool) -> (shown:
        Introduction)
        ensures
            final(self)@ == (AgentView { client_capabilities, ..old(self)@ }),
            shown@ == introduction(old(self)@.settings, no_browser),
    {
        self.record_capabilities(client_capabilities);
        let mut auth_methods: Vec<AuthMethod> = Vec::new();
        if !no_browser {
            auth_methods.push(CodexAuthMethod::ChatGpt.describe(self.settings()));
        }
        auth_methods.push(CodexAuthMethod::CodexApiKey.describe(self.settings()));
        auth_methods.push(CodexAuthMethod::OpenAiApiKey.describe(self.settings()));
        assert(auth_method_views(auth_methods@) =~= offered_auth_methods(
            self@.settings,
            no_browser,
        ));
        Introduction {
            protocol_version: PROTOCOL_VERSION,
            capabilities: AgentCapabilities {
                load_session: true,
                image: true,
                audio: false,
                embedded_context: true,
                mcp_http: true,
                mcp_sse: false,
                logout: true,
                close_session: true,
                list_sessions: true,
                resume_session: true,
                set_session_title: true,
            },
            name: "codex-acp".to_string(),
            title: "Codex".to_string(),
            version: self.settings().version.clone(),
            auth_methods,
        }
    }

    /// Authenticates the agent the given way.
    pub fn authenticate(method_id: &String) -> (progress: Progress<H>)
        ensures
            progress@ == authentication_requested::<H>(method_id@),
    {
        match CodexAuthMethod::try_from(method_id) {
            Ok(method) => Progress::Pending {
                task: Task::ReadingAuth { method },
                action: Action::ReadAuth,
            },
            Err(error) => Progress::fail(error),
        }
    }

    /// Forgets the credentials.
    pub fn logout() -> (progress: Progress<H>)
        ensures
            progress@ == logout_requested::<H>(),
    {
        Progress::Pending { task: Task::LoggingOut, action: Action::Logout }
    }

    pub(crate) fn store_api_key(&self, method: CodexAuthMethod, api_key: Option<String>) -> (progress:
        Progress<H>)
        ensures
            progress@ == api_key_read(self@, method, optional_text(api_key)),
    {
        match api_key {
            Some(api_key) => Progress::Pending {
                task: Task::StoringApiKey,
                action: Action::StoreApiKey { api_key },
            },
            None => Progress::fail(
                Error::into_internal_error(method.missing_key(self.settings())),
            ),
        }
    }
}

pub(crate) fn log_in_unless_authenticated<H: Host>(
    method: CodexAuthMethod,
    auth: Option<CodexAuth>,
) -> (progress: Progress<H>)
    ensures
        progress@ == auth_read::<H>(method, auth),
{
    if method.is_satisfied_by(auth) {
        return Progress::succeed(Response::Authenticate);
    }
    match method {
        CodexAuthMethod::ChatGpt => Progress::Pending {
            task: Task::StartingLogin,
            action: Action::StartLogin,
        },
        CodexAuthMethod::CodexApiKey | CodexAuthMethod::OpenAiApiKey => Progress::Pending {
            task: Task::ReadingApiKey { method },
            action: Action::ReadApiKey { method },
        },
    }
}

pub(crate) fn await_login<H: Host>(outcome: Result<(), String>) -> (progress: Progress<H>)
    ensures
        progress@ == login_started::<H>(told(outcome)),
{
    match outcome {
        Ok(()) => Progress::Pending { task: Task::AwaitingLogin, action: Action::AwaitLogin },
        Err(reason) => Progress::fail(Error::into_internal_error(reason)),
    }
}

pub(crate) fn adopt_credentials<H: Host>(outcome: Result<(), String>) -> (progress: Progress<H>)
    ensures
        progress@ == credentials_stored::<H>(told(outcome)),
{
    match outcome {
        Ok(()) => Progress::Pending { task: Task::AdoptingAuth, action: Action::ReloadAuth },
        Err(reason) => Progress::fail(Error::into_internal_error(reason)),
    }
}

pub(crate) fn finish_logout<H: Host>(outcome: Result<(), String>) -> (progress: Progress<H>)
    ensures
        progress@ == logged_out::<H>(told(outcome)),
{
    match outcome {
        Ok(()) => Progress::succeed(Response::Logout),
        Err(reason) => Progress::fail(Error::into_internal_error(reason)),
    }
}

} // verus!
