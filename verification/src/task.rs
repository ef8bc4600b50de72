//! How far a request has come.

use crate::action::{Action, ActionView};
use crate::auth::CodexAuthMethod;
use crate::config::{server_views, McpServer, McpServerView, SessionConfig, SessionConfigView};
use crate::error::{Error, ErrorView};
use crate::protocol::{answer_view, Host, Request, RequestView, Response, ResponseView};
use crate::title::optional_text;
use std::sync::Arc;
use vstd::prelude::*;

verus! {

/// What a session is opened for.
pub enum Opening<H: Host> {
    /// A new session.
    New,
    /// A session that was recorded at a path. Its history, if it is to be
    /// shown to the client, is known.
    Recorded { session_id: String, rollout_path: String, history: Option<Vec<H::HistoryItem>> },
}

/// The model of [`Opening`].
pub enum OpeningView<H: Host> {
    New,
    Recorded {
        session_id: Seq<char>,
        rollout_path: Seq<char>,
        history: Option<Seq<H::HistoryItem>>,
    },
}

/// The items of an optional list.
pub open spec fn optional_items<T>(items: Option<Vec<T>>) -> Option<Seq<T>> {
    match items {
        Some(items) => Some(items@),
        None => None,
    }
}

impl<H: Host> View for Opening<H> {
    type V = OpeningView<H>;

    open spec fn view(&self) -> OpeningView<H> {
        match *self {
            Opening::New => OpeningView::New,
            Opening::Recorded { session_id, rollout_path, history } => OpeningView::Recorded {
                session_id: session_id@,
                rollout_path: rollout_path@,
                history: optional_items(history),
            },
        }
    }
}

/// A request that waits for what came of an action.
#[allow(inconsistent_fields)]
pub enum Task<H: Host> {
    /// A request for authenticated clients; waits for how the agent is
    /// authenticated.
    CheckingAuth { request: Request<H> },
    /// A request for authenticated clients; waits for the stored credentials.
    RecheckingAuth { request: Request<H> },
    /// An authentication; waits for how the agent is authenticated.
    ReadingAuth { method: CodexAuthMethod },
    /// An authentication; waits for the login server.
    StartingLogin,
    /// An authentication; waits for the user.
    AwaitingLogin,
    /// An authentication; waits for the API key.
    ReadingApiKey { method: CodexAuthMethod },
    /// An authentication; waits for the API key to be stored.
    StoringApiKey,
    /// An authentication; waits for the new credentials.
    AdoptingAuth,
    /// A logout.
    LoggingOut,
    /// A session to be restored; waits for where it was recorded. Its history
    /// may be to be shown.
    FindingRecord {
        session_id: String,
        cwd: String,
        mcp_servers: Vec<McpServer>,
        replay_history: bool,
    },
    /// A session to be restored; waits for its history.
    ReadingHistory {
        session_id: String,
        cwd: String,
        mcp_servers: Vec<McpServer>,
        rollout_path: String,
    },
    /// A session to be opened; waits for the path of its working directory.
    ResolvingCwd { opening: Opening<H>, mcp_servers: Vec<McpServer> },
    /// A session to be opened; waits for its MCP servers.
    InstallingServers { opening: Opening<H>, config: Arc<SessionConfig> },
    /// A new session; waits for its thread.
    StartingThread { config: Arc<SessionConfig> },
    /// A new session; waits for the thread to be tied to it.
    OpeningNew { session_id: String },
    /// A new session; waits for its thread to be ready.
    LoadingNew { session_id: String, thread: Arc<H::Thread> },
    /// A session to be restored; waits for its thread.
    ResumingThread {
        session_id: String,
        config: Arc<SessionConfig>,
        history: Option<Vec<H::HistoryItem>>,
    },
    /// A session to be restored; waits for the thread to be tied to it.
    OpeningRecorded { session_id: String, cwd: String, history: Option<Vec<H::HistoryItem>> },
    /// A session to be restored; waits for its history to be shown.
    ReplayingHistory { session_id: String, cwd: String, thread: Arc<H::Thread> },
    /// A session to be restored; waits for its thread to be ready.
    LoadingRecorded {
        session_id: String,
        cwd: String,
        thread: Arc<H::Thread>,
        replay_history: bool,
    },
    /// A listing; waits for a page of stored threads.
    ListingThreads { cwd: Option<String> },
    /// A session to be closed; waits for its thread to end.
    ShuttingDown { session_id: String },
    /// A session to be closed; waits for its thread to be let go of.
    RemovingThread { session_id: String },
    /// A prompt; waits for the model to stop.
    Prompting,
    /// A cancellation; waits for the thread.
    Cancelling,
    /// A change of mode; waits for the thread.
    SettingMode,
    /// A new title; waits for the state database.
    UpdatingTitle {
        session_id: String,
        thread_id: String,
        title: String,
        thread: Option<Arc<H::Thread>>,
    },
    /// A new title for an open session; waits for its thread.
    TitlingThread,
    /// A new title for a session that is not open; waits for where it was
    /// recorded.
    LocatingRecord { session_id: String, thread_id: String, title: String },
    /// A new title for a session that is not open but was recorded; waits for
    /// the state database.
    UpdatingLocatedTitle { session_id: String, thread_id: String, title: String },
    /// A new title for a session that is not open; waits for the index of
    /// names.
    IndexingTitle { session_id: String, title: String },
    /// A new title for a session that is not open; waits for the client to be
    /// told.
    NotifyingTitle,
    /// A new configuration option; waits for the thread.
    SettingConfigOption { thread: Arc<H::Thread> },
    /// A new configuration option; waits for all options of the thread.
    ReadingConfigOptions,
}

/// The model of [`Task`].
#[allow(inconsistent_fields)]
pub enum TaskView<H: Host> {
    CheckingAuth { request: RequestView<H> },
    RecheckingAuth { request: RequestView<H> },
    ReadingAuth { method: CodexAuthMethod },
    StartingLogin,
    AwaitingLogin,
    ReadingApiKey { method: CodexAuthMethod },
    StoringApiKey,
    AdoptingAuth,
    LoggingOut,
    FindingRecord {
        session_id: Seq<char>,
        cwd: Seq<char>,
        mcp_servers: Seq<McpServerView>,
        replay_history: bool,
    },
    ReadingHistory {
        session_id: Seq<char>,
        cwd: Seq<char>,
        mcp_servers: Seq<McpServerView>,
        rollout_path: Seq<char>,
    },
    ResolvingCwd { opening: OpeningView<H>, mcp_servers: Seq<McpServerView> },
    InstallingServers { opening: OpeningView<H>, config: SessionConfigView },
    StartingThread { config: SessionConfigView },
    OpeningNew { session_id: Seq<char> },
    LoadingNew { session_id: Seq<char>, thread: Arc<H::Thread> },
    ResumingThread {
        session_id: Seq<char>,
        config: SessionConfigView,
        history: Option<Seq<H::HistoryItem>>,
    },
    OpeningRecorded {
        session_id: Seq<char>,
        cwd: Seq<char>,
        history: Option<Seq<H::HistoryItem>>,
    },
    ReplayingHistory { session_id: Seq<char>, cwd: Seq<char>, thread: Arc<H::Thread> },
    LoadingRecorded {
        session_id: Seq<char>,
        cwd: Seq<char>,
        thread: Arc<H::Thread>,
        replay_history: bool,
    },
    ListingThreads { cwd: Option<Seq<char>> },
    ShuttingDown { session_id: Seq<char> },
    RemovingThread { session_id: Seq<char> },
    Prompting,
    Cancelling,
    SettingMode,
    UpdatingTitle {
        session_id: Seq<char>,
        thread_id: Seq<char>,
        title: Seq<char>,
        thread: Option<Arc<H::Thread>>,
    },
    TitlingThread,
    LocatingRecord { session_id: Seq<char>, thread_id: Seq<char>, title: Seq<char> },
    UpdatingLocatedTitle { session_id: Seq<char>, thread_id: Seq<char>, title: Seq<char> },
    IndexingTitle { session_id: Seq<char>, title: Seq<char> },
    NotifyingTitle,
    SettingConfigOption { thread: Arc<H::Thread> },
    ReadingConfigOptions,
}

impl<H: Host> View for Task<H> {
    type V = TaskView<H>;

    open spec fn view(&self) -> TaskView<H> {
        match *self {
            Task::CheckingAuth { request } => TaskView::CheckingAuth { request: request@ },
            Task::RecheckingAuth { request } => TaskView::RecheckingAuth { request: request@ },
            Task::ReadingAuth { method } => TaskView::ReadingAuth { method },
            Task::StartingLogin => TaskView::StartingLogin,
            Task::AwaitingLogin => TaskView::AwaitingLogin,
            Task::ReadingApiKey { method } => TaskView::ReadingApiKey { method },
            Task::StoringApiKey => TaskView::StoringApiKey,
            Task::AdoptingAuth => TaskView::AdoptingAuth,
            Task::LoggingOut => TaskView::LoggingOut,
            Task::FindingRecord { session_id, cwd, mcp_servers, replay_history } =>
            TaskView::FindingRecord {
                session_id: session_id@,
                cwd: cwd@,
                mcp_servers: server_views(mcp_servers@),
                replay_history,
            },
            Task::ReadingHistory { session_id, cwd, mcp_servers, rollout_path } =>
            TaskView::ReadingHistory {
                session_id: session_id@,
                cwd: cwd@,
                mcp_servers: server_views(mcp_servers@),
                rollout_path: rollout_path@,
            },
            Task::ResolvingCwd { opening, mcp_servers } => TaskView::ResolvingCwd {
                opening: opening@,
                mcp_servers: server_views(mcp_servers@),
            },
            Task::InstallingServers { opening, config } => TaskView::InstallingServers {
                opening: opening@,
                config: (*config)@,
            },
            Task::StartingThread { config } => TaskView::StartingThread { config: (*config)@ },
            Task::OpeningNew { session_id } => TaskView::OpeningNew { session_id: session_id@ },
            Task::LoadingNew { session_id, thread } => TaskView::LoadingNew {
                session_id: session_id@,
                thread,
            },
            Task::ResumingThread { session_id, config, history } => TaskView::ResumingThread {
                session_id: session_id@,
                config: (*config)@,
                history: optional_items(history),
            },
            Task::OpeningRecorded { session_id, cwd, history } => TaskView::OpeningRecorded {
                session_id: session_id@,
                cwd: cwd@,
                history: optional_items(history),
            },
            Task::ReplayingHistory { session_id, cwd, thread } => TaskView::ReplayingHistory {
                session_id: session_id@,
                cwd: cwd@,
                thread,
            },
            Task::LoadingRecorded { session_id, cwd, thread, replay_history } =>
            TaskView::LoadingRecorded {
                session_id: session_id@,
                cwd: cwd@,
                thread,
                replay_history,
            },
            Task::ListingThreads { cwd } => TaskView::ListingThreads { cwd: optional_text(cwd) },
            Task::ShuttingDown { session_id } => TaskView::ShuttingDown { session_id: session_id@ },
            Task::RemovingThread { session_id } => TaskView::RemovingThread {
                session_id: session_id@,
            },
            Task::Prompting => TaskView::Prompting,
            Task::Cancelling => TaskView::Cancelling,
            Task::SettingMode => TaskView::SettingMode,
            Task::UpdatingTitle { session_id, thread_id, title, thread } =>
            TaskView::UpdatingTitle {
                session_id: session_id@,
                thread_id: thread_id@,
                title: title@,
                thread,
            },
            Task::TitlingThread => TaskView::TitlingThread,
            Task::LocatingRecord { session_id, thread_id, title } => TaskView::LocatingRecord {
                session_id: session_id@,
                thread_id: thread_id@,
                title: title@,
            },
            Task::UpdatingLocatedTitle { session_id, thread_id, title } =>
            TaskView::UpdatingLocatedTitle {
                session_id: session_id@,
                thread_id: thread_id@,
                title: title@,
            },
            Task::IndexingTitle { session_id, title } => TaskView::IndexingTitle {
                session_id: session_id@,
                title: title@,
            },
            Task::NotifyingTitle => TaskView::NotifyingTitle,
            Task::SettingConfigOption { thread } => TaskView::SettingConfigOption { thread },
            Task::ReadingConfigOptions => TaskView::ReadingConfigOptions,
        }
    }
}

/// Where a request stands.
pub enum Progress<H: Host> {
    /// The action is to be done; what comes of it takes the task further.
    Pending { task: Task<H>, action: Action<H> },
    /// The reply does not belong to the task, which is handed back.
    Unanswered { task: Task<H> },
    /// The client is answered.
    Finished { answer: Result<Response<H>, Error> },
}

/// The model of [`Progress`].
pub enum ProgressView<H: Host> {
    Pending { task: TaskView<H>, action: ActionView<H> },
    Unanswered { task: TaskView<H> },
    Finished { answer: Result<ResponseView<H>, ErrorView> },
}

impl<H: Host> View for Progress<H> {
    type V = ProgressView<H>;

    open spec fn view(&self) -> ProgressView<H> {
        match *self {
            Progress::Pending { task, action } => ProgressView::Pending {
                task: task@,
                action: action@,
            },
            Progress::Unanswered { task } => ProgressView::Unanswered { task: task@ },
            Progress::Finished { answer } => ProgressView::Finished {
                answer: answer_view(answer),
            },
        }
    }
}

/// The client is given what it asked for.
pub open spec fn succeed<H: Host>(response: ResponseView<H>) -> ProgressView<H> {
    ProgressView::Finished { answer: Ok(response) }
}

/// The client is given an error.
pub open spec fn fail<H: Host>(error: ErrorView) -> ProgressView<H> {
    ProgressView::Finished { answer: Err(error) }
}

impl<H: Host> Progress<H> {
    /// The client is given what it asked for.
    pub fn succeed(response: Response<H>) -> (progress: Progress<H>)
        ensures
            progress@ == succeed(response@),
    {
        Progress::Finished { answer: Ok(response) }
    }

    /// The client is given an error.
    pub fn fail(error: Error) -> (progress: Progress<H>)
        ensures
            progress@ == fail::<H>(error@),
    {
        Progress::Finished { answer: Err(error) }
    }
}

} // verus!
