//! What the agent has done for it outside of itself, and what comes back.

use crate::auth::{CodexAuth, CodexAuthMethod};
use crate::config::{text_outcome, SessionConfig, SessionConfigView};
use crate::error::{Error, ErrorView};
use crate::listing::{ListThreadsParams, ListThreadsParamsView, ThreadPage, ThreadPageView};
use crate::protocol::{Host, SessionState};
use crate::title::optional_text;
use std::sync::Arc;
use vstd::prelude::*;

verus! {

/// What is to be done next.
pub enum Action<H: Host> {
    /// Tell how the agent is authenticated.
    ReadAuth,
    /// Read the stored credentials again and tell whether anything changed.
    ReloadAuth,
    /// Start the server that the user logs in at.
    StartLogin,
    /// Wait until the user has logged in at the server.
    AwaitLogin,
    /// Read the API key of a way to authenticate from its environment variable.
    ReadApiKey { method: CodexAuthMethod },
    /// Store the API key.
    StoreApiKey { api_key: String },
    /// Forget the credentials.
    Logout,
    /// Make an absolute path of a working directory.
    ResolveCwd { cwd: String },
    /// Let the session's configuration have its MCP servers.
    InstallServers { config: Arc<SessionConfig> },
    /// Start a thread.
    StartThread { config: Arc<SessionConfig> },
    /// Start a thread that goes on where a recorded one ended.
    ResumeThread { config: Arc<SessionConfig>, rollout_path: String },
    /// Tie the thread that was just started to its session.
    OpenThread { session_id: String, config: Arc<SessionConfig> },
    /// Get a thread ready for use.
    LoadThread { thread: Arc<H::Thread> },
    /// Find the record of a session.
    FindRollout { session_id: String },
    /// Read the history that was recorded at a path.
    ReadHistory { rollout_path: String },
    /// Show a recorded history to the client.
    ReplayHistory { thread: Arc<H::Thread>, items: Vec<H::HistoryItem> },
    /// List stored threads.
    ListThreads { params: ListThreadsParams },
    /// End a thread's work.
    ShutdownThread { thread: Arc<H::Thread> },
    /// Let go of a thread that has ended.
    RemoveThread { thread_id: String },
    /// Hand a prompt to a thread.
    PromptThread { thread: Arc<H::Thread>, prompt: H::Prompt },
    /// Stop what a thread is doing.
    CancelThread { thread: Arc<H::Thread> },
    /// Put a thread into a mode.
    SetThreadMode { thread: Arc<H::Thread>, mode_id: String },
    /// Change a title in the state database and tell whether it was there.
    UpdateStateTitle { thread_id: String, title: String },
    /// Rename the thread of an open session, and show the client the new title.
    SetThreadTitle { thread: Arc<H::Thread>, title: String, shown: Option<String> },
    /// Add a title to the index of names.
    AppendThreadName { thread_id: String, title: String },
    /// Show the client the new title of a session.
    NotifyTitle { session_id: String, shown: Option<String> },
    /// Set a configuration option of a thread.
    SetThreadConfigOption { thread: Arc<H::Thread>, config_id: String, value: H::ConfigValue },
    /// Tell the configuration options of a thread.
    ReadThreadConfigOptions { thread: Arc<H::Thread> },
}

/// The model of [`Action`].
pub enum ActionView<H: Host> {
    ReadAuth,
    ReloadAuth,
    StartLogin,
    AwaitLogin,
    ReadApiKey { method: CodexAuthMethod },
    StoreApiKey { api_key: Seq<char> },
    Logout,
    ResolveCwd { cwd: Seq<char> },
    InstallServers { config: SessionConfigView },
    StartThread { config: SessionConfigView },
    ResumeThread { config: SessionConfigView, rollout_path: Seq<char> },
    OpenThread { session_id: Seq<char>, config: SessionConfigView },
    LoadThread { thread: Arc<H::Thread> },
    FindRollout { session_id: Seq<char> },
    ReadHistory { rollout_path: Seq<char> },
    ReplayHistory { thread: Arc<H::Thread>, items: Seq<H::HistoryItem> },
    ListThreads { params: ListThreadsParamsView },
    ShutdownThread { thread: Arc<H::Thread> },
    RemoveThread { thread_id: Seq<char> },
    PromptThread { thread: Arc<H::Thread>, prompt: H::Prompt },
    CancelThread { thread: Arc<H::Thread> },
    SetThreadMode { thread: Arc<H::Thread>, mode_id: Seq<char> },
    UpdateStateTitle { thread_id: Seq<char>, title: Seq<char> },
    SetThreadTitle { thread: Arc<H::Thread>, title: Seq<char>, shown: Option<Seq<char>> },
    AppendThreadName { thread_id: Seq<char>, title: Seq<char> },
    NotifyTitle { session_id: Seq<char>, shown: Option<Seq<char>> },
    SetThreadConfigOption { thread: Arc<H::Thread>, config_id: Seq<char>, value: H::ConfigValue },
    ReadThreadConfigOptions { thread: Arc<H::Thread> },
}

impl<H: Host> View for Action<H> {
    type V = ActionView<H>;

    open spec fn view(&self) -> ActionView<H> {
        match *self {
            Action::ReadAuth => ActionView::ReadAuth,
            Action::ReloadAuth => ActionView::ReloadAuth,
            Action::StartLogin => ActionView::StartLogin,
            Action::AwaitLogin => ActionView::AwaitLogin,
            Action::ReadApiKey { method } => ActionView::ReadApiKey { method },
            Action::StoreApiKey { api_key } => ActionView::StoreApiKey { api_key: api_key@ },
            Action::Logout => ActionView::Logout,
            Action::ResolveCwd { cwd } => ActionView::ResolveCwd { cwd: cwd@ },
            Action::InstallServers { config } => ActionView::InstallServers { config: (*config)@ },
            Action::StartThread { config } => ActionView::StartThread { config: (*config)@ },
            Action::ResumeThread { config, rollout_path } => ActionView::ResumeThread {
                config: (*config)@,
                rollout_path: rollout_path@,
            },
            Action::OpenThread { session_id, config } => ActionView::OpenThread {
                session_id: session_id@,
                config: (*config)@,
            },
            Action::LoadThread { thread } => ActionView::LoadThread { thread },
            Action::FindRollout { session_id } => ActionView::FindRollout {
                session_id: session_id@,
            },
            Action::ReadHistory { rollout_path } => ActionView::ReadHistory {
                rollout_path: rollout_path@,
            },
            Action::ReplayHistory { thread, items } => ActionView::ReplayHistory {
                thread,
                items: items@,
            },
            Action::ListThreads { params } => ActionView::ListThreads { params: params@ },
            Action::ShutdownThread { thread } => ActionView::ShutdownThread { thread },
            Action::RemoveThread { thread_id } => ActionView::RemoveThread {
                thread_id: thread_id@,
            },
            Action::PromptThread { thread, prompt } => ActionView::PromptThread { thread, prompt },
            Action::CancelThread { thread } => ActionView::CancelThread { thread },
            Action::SetThreadMode { thread, mode_id } => ActionView::SetThreadMode {
                thread,
                mode_id: mode_id@,
            },
            Action::UpdateStateTitle { thread_id, title } => ActionView::UpdateStateTitle {
                thread_id: thread_id@,
                title: title@,
            },
            Action::SetThreadTitle { thread, title, shown } => ActionView::SetThreadTitle {
                thread,
                title: title@,
                shown: optional_text(shown),
            },
            Action::AppendThreadName { thread_id, title } => ActionView::AppendThreadName {
                thread_id: thread_id@,
                title: title@,
            },
            Action::NotifyTitle { session_id, shown } => ActionView::NotifyTitle {
                session_id: session_id@,
                shown: optional_text(shown),
            },
            Action::SetThreadConfigOption { thread, config_id, value } =>
            ActionView::SetThreadConfigOption { thread, config_id: config_id@, value },
            Action::ReadThreadConfigOptions { thread } => ActionView::ReadThreadConfigOptions {
                thread,
            },
        }
    }
}

/// The history that a thread begins with.
pub enum InitialHistory<H: Host> {
    New,
    Cleared,
    Resumed(Vec<H::HistoryItem>),
    Forked(Vec<H::HistoryItem>),
}

/// The model of [`InitialHistory`].
pub enum InitialHistoryView<H: Host> {
    New,
    Cleared,
    Resumed(Seq<H::HistoryItem>),
    Forked(Seq<H::HistoryItem>),
}

impl<H: Host> View for InitialHistory<H> {
    type V = InitialHistoryView<H>;

    open spec fn view(&self) -> InitialHistoryView<H> {
        match *self {
            InitialHistory::New => InitialHistoryView::New,
            InitialHistory::Cleared => InitialHistoryView::Cleared,
            InitialHistory::Resumed(items) => InitialHistoryView::Resumed(items@),
            InitialHistory::Forked(items) => InitialHistoryView::Forked(items@),
        }
    }
}

/// The items of a history: none where the thread is new or was cleared.
pub open spec fn history_items<H: Host>(history: InitialHistoryView<H>) -> Seq<H::HistoryItem> {
    match history {
        InitialHistoryView::New | InitialHistoryView::Cleared => Seq::empty(),
        InitialHistoryView::Resumed(items) => items,
        InitialHistoryView::Forked(items) => items,
    }
}

impl<H: Host> InitialHistory<H> {
    /// The items of this history.
    pub fn into_items(self) -> (items: Vec<H::HistoryItem>)
        ensures
            items@ == history_items(self@),
            self matches InitialHistory::Resumed(resumed) ==> items@ == resumed@,
            self matches InitialHistory::Forked(forked) ==> items@ == forked@,
            self is New || self is Cleared ==> items@.len() == 0,
    {
        match self {
            InitialHistory::New | InitialHistory::Cleared => Vec::new(),
            InitialHistory::Resumed(items) => items,
            InitialHistory::Forked(items) => items,
        }
    }
}

/// What came of an action. A failure is told either as a text or as the error
/// that the client is to be answered with.
pub enum Reply<H: Host> {
    /// How the agent is authenticated.
    Auth(Option<CodexAuth>),
    /// Whether the stored credentials had changed.
    Reloaded(bool),
    /// The action was done.
    Done(Result<(), String>),
    /// The API key, where its variable is set.
    ApiKey(Option<String>),
    /// The absolute path.
    Resolved(Result<String, String>),
    /// The identifier of the thread that was started.
    Started(Result<String, String>),
    /// The thread that now belongs to the session.
    Opened(Arc<H::Thread>),
    /// What the client is to know of a thread that is ready for use.
    Loaded(Result<SessionState<H>, Error>),
    /// Where a session was recorded, if it was.
    Rollout(Result<Option<String>, String>),
    /// The history that was recorded.
    History(Result<InitialHistory<H>, String>),
    /// The stored threads.
    Listed(Result<ThreadPage, String>),
    /// The thread was let go of.
    Removed,
    /// Why the model stopped.
    Stopped(Result<H::StopReason, Error>),
    /// Whether the title was in the state database.
    TitleUpdated(Result<bool, String>),
    /// The thread, or the client, did what it was told.
    Handled(Result<(), Error>),
    /// The configuration options of a thread.
    ConfigOptions(Result<H::ConfigOptions, Error>),
}

/// The model of [`Reply`].
pub enum ReplyView<H: Host> {
    Auth(Option<CodexAuth>),
    Reloaded(bool),
    Done(Result<(), Seq<char>>),
    ApiKey(Option<Seq<char>>),
    Resolved(Result<Seq<char>, Seq<char>>),
    Started(Result<Seq<char>, Seq<char>>),
    Opened(Arc<H::Thread>),
    Loaded(Result<SessionState<H>, ErrorView>),
    Rollout(Result<Option<Seq<char>>, Seq<char>>),
    History(Result<InitialHistoryView<H>, Seq<char>>),
    Listed(Result<ThreadPageView, Seq<char>>),
    Removed,
    Stopped(Result<H::StopReason, ErrorView>),
    TitleUpdated(Result<bool, Seq<char>>),
    Handled(Result<(), ErrorView>),
    ConfigOptions(Result<H::ConfigOptions, ErrorView>),
}

/// The model of an outcome whose failure is told as a text.
pub open spec fn told<T>(outcome: Result<T, String>) -> Result<T, Seq<char>> {
    match outcome {
        Ok(value) => Ok(value),
        Err(reason) => Err(reason@),
    }
}

/// The model of an outcome whose failure is told as an error.
pub open spec fn answered<T>(outcome: Result<T, Error>) -> Result<T, ErrorView> {
    match outcome {
        Ok(value) => Ok(value),
        Err(error) => Err(error@),
    }
}

/// The model of a search for a text.
pub open spec fn found_text(found: Result<Option<String>, String>) -> Result<
    Option<Seq<char>>,
    Seq<char>,
> {
    match found {
        Ok(text) => Ok(optional_text(text)),
        Err(reason) => Err(reason@),
    }
}

/// The model of a history that was to be read.
pub open spec fn read_history<H: Host>(history: Result<InitialHistory<H>, String>) -> Result<
    InitialHistoryView<H>,
    Seq<char>,
> {
    match history {
        Ok(history) => Ok(history@),
        Err(reason) => Err(reason@),
    }
}

/// The model of a page that was to be listed.
pub open spec fn listed_page(page: Result<ThreadPage, String>) -> Result<
    ThreadPageView,
    Seq<char>,
> {
    match page {
        Ok(page) => Ok(page@),
        Err(reason) => Err(reason@),
    }
}

impl<H: Host> View for Reply<H> {
    type V = ReplyView<H>;

    open spec fn view(&self) -> ReplyView<H> {
        match *self {
            Reply::Auth(auth) => ReplyView::Auth(auth),
            Reply::Reloaded(changed) => ReplyView::Reloaded(changed),
            Reply::Done(outcome) => ReplyView::Done(told(outcome)),
            Reply::ApiKey(api_key) => ReplyView::ApiKey(optional_text(api_key)),
            Reply::Resolved(path) => ReplyView::Resolved(text_outcome(path)),
            Reply::Started(thread_id) => ReplyView::Started(text_outcome(thread_id)),
            Reply::Opened(thread) => ReplyView::Opened(thread),
            Reply::Loaded(state) => ReplyView::Loaded(answered(state)),
            Reply::Rollout(found) => ReplyView::Rollout(found_text(found)),
            Reply::History(history) => ReplyView::History(read_history(history)),
            Reply::Listed(page) => ReplyView::Listed(listed_page(page)),
            Reply::Removed => ReplyView::Removed,
            Reply::Stopped(reason) => ReplyView::Stopped(answered(reason)),
            Reply::TitleUpdated(outcome) => ReplyView::TitleUpdated(told(outcome)),
            Reply::Handled(outcome) => ReplyView::Handled(answered(outcome)),
            Reply::ConfigOptions(options) => ReplyView::ConfigOptions(answered(options)),
        }
    }
}

} // verus!
