//! What the client may ask of the agent, and what it is answered.

use crate::auth::{AuthMethod, AuthMethodView};
use crate::config::{server_views, McpServer, McpServerView};
use crate::error::{Error, ErrorView};
use crate::listing::{session_views, SessionInfo, SessionInfoView};
use crate::title::optional_text;
use vstd::prelude::*;

verus! {

/// The version of the protocol that the agent speaks.
pub const PROTOCOL_VERSION: u16 = 1;

/// The values that the agent hands on without looking into them.
pub trait Host: Sized {
    /// What the client can do.
    type Capabilities;

    /// A thread that a session runs on.
    type Thread;

    /// An item of a thread's recorded history.
    type HistoryItem;

    /// The modes of a session.
    type Modes;

    /// The configuration options of a session.
    type ConfigOptions;

    /// What the user says to the model.
    type Prompt;

    /// Why the model stopped.
    type StopReason;

    /// The value of a configuration option.
    type ConfigValue;
}

/// What the client asks for.
#[allow(inconsistent_fields)]
pub enum Request<H: Host> {
    Initialize { client_capabilities: H::Capabilities, no_browser: bool },
    Authenticate { method_id: String },
    Logout,
    NewSession { cwd: String, mcp_servers: Vec<McpServer> },
    LoadSession { session_id: String, cwd: String, mcp_servers: Vec<McpServer> },
    ResumeSession { session_id: String, cwd: String, mcp_servers: Vec<McpServer> },
    ListSessions { cwd: Option<String>, cursor: Option<String> },
    CloseSession { session_id: String },
    Prompt { session_id: String, prompt: H::Prompt },
    Cancel { session_id: String },
    SetSessionMode { session_id: String, mode_id: String },
    SetSessionTitle { session_id: String, title: String },
    SetSessionConfigOption { session_id: String, config_id: String, value: H::ConfigValue },
}

/// The model of [`Request`].
#[allow(inconsistent_fields)]
pub enum RequestView<H: Host> {
    Initialize { client_capabilities: H::Capabilities, no_browser: bool },
    Authenticate { method_id: Seq<char> },
    Logout,
    NewSession { cwd: Seq<char>, mcp_servers: Seq<McpServerView> },
    LoadSession { session_id: Seq<char>, cwd: Seq<char>, mcp_servers: Seq<McpServerView> },
    ResumeSession { session_id: Seq<char>, cwd: Seq<char>, mcp_servers: Seq<McpServerView> },
    ListSessions { cwd: Option<Seq<char>>, cursor: Option<Seq<char>> },
    CloseSession { session_id: Seq<char> },
    Prompt { session_id: Seq<char>, prompt: H::Prompt },
    Cancel { session_id: Seq<char> },
    SetSessionMode { session_id: Seq<char>, mode_id: Seq<char> },
    SetSessionTitle { session_id: Seq<char>, title: Seq<char> },
    SetSessionConfigOption { session_id: Seq<char>, config_id: Seq<char>, value: H::ConfigValue },
}

impl<H: Host> View for Request<H> {
    type V = RequestView<H>;

    open spec fn view(&self) -> RequestView<H> {
        match *self {
            Request::Initialize { client_capabilities, no_browser } => RequestView::Initialize {
                client_capabilities,
                no_browser,
            },
            Request::Authenticate { method_id } => RequestView::Authenticate {
                method_id: method_id@,
            },
            Request::Logout => RequestView::Logout,
            Request::NewSession { cwd, mcp_servers } => RequestView::NewSession {
                cwd: cwd@,
                mcp_servers: server_views(mcp_servers@),
            },
            Request::LoadSession { session_id, cwd, mcp_servers } => RequestView::LoadSession {
                session_id: session_id@,
                cwd: cwd@,
                mcp_servers: server_views(mcp_servers@),
            },
            Request::ResumeSession { session_id, cwd, mcp_servers } => RequestView::ResumeSession {
                session_id: session_id@,
                cwd: cwd@,
                mcp_servers: server_views(mcp_servers@),
            },
            Request::ListSessions { cwd, cursor } => RequestView::ListSessions {
                cwd: optional_text(cwd),
                cursor: optional_text(cursor),
            },
            Request::CloseSession { session_id } => RequestView::CloseSession {
                session_id: session_id@,
            },
            Request::Prompt { session_id, prompt } => RequestView::Prompt {
                session_id: session_id@,
                prompt,
            },
            Request::Cancel { session_id } => RequestView::Cancel { session_id: session_id@ },
            Request::SetSessionMode { session_id, mode_id } => RequestView::SetSessionMode {
                session_id: session_id@,
                mode_id: mode_id@,
            },
            Request::SetSessionTitle { session_id, title } => RequestView::SetSessionTitle {
                session_id: session_id@,
                title: title@,
            },
            Request::SetSessionConfigOption { session_id, config_id, value } =>
            RequestView::SetSessionConfigOption {
                session_id: session_id@,
                config_id: config_id@,
                value,
            },
        }
    }
}

/// What the agent can do.
#[derive(Debug, Clone, Copy, PartialEq, Eq, Structural)]
pub struct AgentCapabilities {
    /// Sessions can be loaded.
    pub load_session: bool,
    /// Prompts may hold images.
    pub image: bool,
    /// Prompts may hold sound.
    pub audio: bool,
    /// Prompts may hold embedded context.
    pub embedded_context: bool,
    /// MCP servers may be reached over HTTP.
    pub mcp_http: bool,
    /// MCP servers may be reached over server-sent events.
    pub mcp_sse: bool,
    /// The client can log out.
    pub logout: bool,
    /// Sessions can be closed.
    pub close_session: bool,
    /// Sessions can be listed.
    pub list_sessions: bool,
    /// Sessions can be resumed.
    pub resume_session: bool,
    /// Sessions can be renamed.
    pub set_session_title: bool,
}

/// How the agent presents itself.
pub struct Introduction {
    pub protocol_version: u16,
    pub capabilities: AgentCapabilities,
    pub name: String,
    pub title: String,
    pub version: String,
    pub auth_methods: Vec<AuthMethod>,
}

/// The model of [`Introduction`].
pub struct IntroductionView {
    pub protocol_version: u16,
    pub capabilities: AgentCapabilities,
    pub name: Seq<char>,
    pub title: Seq<char>,
    pub version: Seq<char>,
    pub auth_methods: Seq<AuthMethodView>,
}

/// The models of a list of ways to authenticate.
pub open spec fn auth_method_views(methods: Seq<AuthMethod>) -> Seq<AuthMethodView> {
    methods.map_values(|method: AuthMethod| method@)
}

impl View for Introduction {
    type V = IntroductionView;

    open spec fn view(&self) -> IntroductionView {
        IntroductionView {
            protocol_version: self.protocol_version,
            capabilities: self.capabilities,
            name: self.name@,
            title: self.title@,
            version: self.version@,
            auth_methods: auth_method_views(self.auth_methods@),
        }
    }
}

/// What the client is told of a session that it has opened.
pub struct SessionState<H: Host> {
    pub modes: Option<H::Modes>,
    pub config_options: Option<H::ConfigOptions>,
}

/// What the client is answered.
pub enum Response<H: Host> {
    Initialize(Introduction),
    Authenticate,
    Logout,
    NewSession { session_id: String, state: SessionState<H> },
    LoadSession { state: SessionState<H> },
    ResumeSession { state: SessionState<H> },
    ListSessions { sessions: Vec<SessionInfo>, next_cursor: Option<String> },
    CloseSession,
    Prompt { stop_reason: H::StopReason },
    Cancel,
    SetSessionMode,
    SetSessionTitle,
    SetSessionConfigOption { config_options: H::ConfigOptions },
}

/// The model of [`Response`].
pub enum ResponseView<H: Host> {
    Initialize(IntroductionView),
    Authenticate,
    Logout,
    NewSession { session_id: Seq<char>, state: SessionState<H> },
    LoadSession { state: SessionState<H> },
    ResumeSession { state: SessionState<H> },
    ListSessions { sessions: Seq<SessionInfoView>, next_cursor: Option<Seq<char>> },
    CloseSession,
    Prompt { stop_reason: H::StopReason },
    Cancel,
    SetSessionMode,
    SetSessionTitle,
    SetSessionConfigOption { config_options: H::ConfigOptions },
}

impl<H: Host> View for Response<H> {
    type V = ResponseView<H>;

    open spec fn view(&self) -> ResponseView<H> {
        match *self {
            Response::Initialize(introduction) => ResponseView::Initialize(introduction@),
            Response::Authenticate => ResponseView::Authenticate,
            Response::Logout => ResponseView::Logout,
            Response::NewSession { session_id, state } => ResponseView::NewSession {
                session_id: session_id@,
                state,
            },
            Response::LoadSession { state } => ResponseView::LoadSession { state },
            Response::ResumeSession { state } => ResponseView::ResumeSession { state },
            Response::ListSessions { sessions, next_cursor } => ResponseView::ListSessions {
                sessions: session_views(sessions@),
                next_cursor: optional_text(next_cursor),
            },
            Response::CloseSession => ResponseView::CloseSession,
            Response::Prompt { stop_reason } => ResponseView::Prompt { stop_reason },
            Response::Cancel => ResponseView::Cancel,
            Response::SetSessionMode => ResponseView::SetSessionMode,
            Response::SetSessionTitle => ResponseView::SetSessionTitle,
            Response::SetSessionConfigOption { config_options } =>
            ResponseView::SetSessionConfigOption { config_options },
        }
    }
}

/// The model of an answer or an error.
pub open spec fn answer_view<H: Host>(answer: Result<Response<H>, Error>) -> Result<
    ResponseView<H>,
    ErrorView,
> {
    match answer {
        Ok(response) => Ok(response@),
        Err(error) => Err(error@),
    }
}

} // verus!
