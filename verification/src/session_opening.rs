//! Opening sessions: new ones, and ones that were recorded.

use crate::action::{
    answered, found_text, history_items, read_history, told, Action, ActionView, InitialHistory,
    InitialHistoryView,
};
use crate::agent::{with_root, with_session, AgentView, CodexAgent};
use crate::config::{
    make_session_config, server_views, session_config, text_outcome, McpServer, McpServerView,
    SessionConfig, SessionConfigView,
};
use crate::error::{
    internal_error_with, not_found_error, plain_internal_error, Error, ErrorView,
};
use crate::protocol::{Host, Response, ResponseView, SessionState};
use crate::task::{
    fail, optional_items, succeed, Opening, OpeningView, Progress, ProgressView, Task, TaskView,
};
use std::sync::Arc;
use vstd::prelude::*;

verus! {

/// The working directory of a session to be opened is made absolute.
pub open spec fn resolve_cwd<H: Host>(
    opening: OpeningView<H>,
    cwd: Seq<char>,
    mcp_servers: Seq<McpServerView>,
) -> ProgressView<H> {
    ProgressView::Pending {
        task: TaskView::ResolvingCwd { opening, mcp_servers },
        action: ActionView::ResolveCwd { cwd },
    }
}

/// The record of a session to be restored is looked for.
pub open spec fn restore_requested<H: Host>(
    session_id: Seq<char>,
    cwd: Seq<char>,
    mcp_servers: Seq<McpServerView>,
    replay_history: bool,
) -> ProgressView<H> {
    ProgressView::Pending {
        task: TaskView::FindingRecord { session_id, cwd, mcp_servers, replay_history },
        action: ActionView::FindRollout { session_id },
    }
}

/// The record has been looked for; where the history is to be shown, it is
/// read next.
pub open spec fn record_found<H: Host>(
    session_id: Seq<char>,
    cwd: Seq<char>,
    mcp_servers: Seq<McpServerView>,
    replay_history: bool,
    found: Result<Option<Seq<char>>, Seq<char>>,
) -> ProgressView<H> {
    match found {
        Ok(Some(rollout_path)) => if replay_history {
            ProgressView::Pending {
                task: TaskView::ReadingHistory { session_id, cwd, mcp_servers, rollout_path },
                action: ActionView::ReadHistory { rollout_path },
            }
        } else {
            resolve_cwd(
                OpeningView::Recorded { session_id, rollout_path, history: None },
                cwd,
                mcp_servers,
            )
        },
        Ok(None) => fail(not_found_error()),
        Err(reason) => fail(internal_error_with(reason)),
    }
}

/// The history has been read.
pub open spec fn history_found<H: Host>(
    session_id: Seq<char>,
    cwd: Seq<char>,
    mcp_servers: Seq<McpServerView>,
    rollout_path: Seq<char>,
    history: Result<InitialHistoryView<H>, Seq<char>>,
) -> ProgressView<H> {
    match history {
        Ok(history) => resolve_cwd(
            OpeningView::Recorded {
                session_id,
                rollout_path,
                history: Some(history_items(history)),
            },
            cwd,
            mcp_servers,
        ),
        Err(reason) => fail(internal_error_with(reason)),
    }
}

/// The working directory has been made absolute: the session is configured.
pub open spec fn cwd_resolved<H: Host>(
    agent: AgentView<H>,
    opening: OpeningView<H>,
    mcp_servers: Seq<McpServerView>,
    cwd: Result<Seq<char>, Seq<char>>,
) -> ProgressView<H> {
    match session_config(agent.settings, cwd, mcp_servers) {
        Ok(config) => ProgressView::Pending {
            task: TaskView::InstallingServers { opening, config },
            action: ActionView::InstallServers { config },
        },
        Err(error) => fail(error),
    }
}

/// The session has been configured: its thread is started.
pub open spec fn servers_installed<H: Host>(
    opening: OpeningView<H>,
    config: SessionConfigView,
    outcome: Result<(), Seq<char>>,
) -> ProgressView<H> {
    match outcome {
        Ok(()) => match opening {
            OpeningView::New => ProgressView::Pending {
                task: TaskView::StartingThread { config },
                action: ActionView::StartThread { config },
            },
            OpeningView::Recorded { session_id, rollout_path, history } => ProgressView::Pending {
                task: TaskView::ResumingThread { session_id, config, history },
                action: ActionView::ResumeThread { config, rollout_path },
            },
        },
        Err(reason) => fail(internal_error_with(reason)),
    }
}

/// The thread of a new session has been started. The session has the thread's
/// identifier, and its working directory goes on record.
pub open spec fn thread_started<H: Host>(
    agent: AgentView<H>,
    config: SessionConfigView,
    thread_id: Result<Seq<char>, Seq<char>>,
) -> (AgentView<H>, ProgressView<H>) {
    match thread_id {
        Ok(session_id) => (
            with_root(agent, session_id, config.cwd),
            ProgressView::Pending {
                task: TaskView::OpeningNew { session_id },
                action: ActionView::OpenThread { session_id, config },
            },
        ),
        Err(_) => (agent, fail(plain_internal_error())),
    }
}

/// The thread of a new session has been tied to it.
pub open spec fn new_session_opened<H: Host>(
    session_id: Seq<char>,
    thread: Arc<H::Thread>,
) -> ProgressView<H> {
    ProgressView::Pending {
        task: TaskView::LoadingNew { session_id, thread },
        action: ActionView::LoadThread { thread },
    }
}

/// The thread of a new session is ready: the session is open.
pub open spec fn new_session_loaded<H: Host>(
    agent: AgentView<H>,
    session_id: Seq<char>,
    thread: Arc<H::Thread>,
    state: Result<SessionState<H>, ErrorView>,
) -> (AgentView<H>, ProgressView<H>) {
    match state {
        Ok(state) => (
            with_session(agent, session_id, thread),
            succeed(ResponseView::NewSession { session_id, state }),
        ),
        Err(error) => (agent, fail(error)),
    }
}

/// The thread of a recorded session has been started.
pub open spec fn thread_resumed<H: Host>(
    session_id: Seq<char>,
    config: SessionConfigView,
    history: Option<Seq<H::HistoryItem>>,
    outcome: Result<(), Seq<char>>,
) -> ProgressView<H> {
    match outcome {
        Ok(()) => ProgressView::Pending {
            task: TaskView::OpeningRecorded { session_id, cwd: config.cwd, history },
            action: ActionView::OpenThread { session_id, config },
        },
        Err(reason) => fail(internal_error_with(reason)),
    }
}

/// The thread of a recorded session has been tied to it: its history, where
/// it is to be shown, is shown before the thread is made ready.
pub open spec fn recorded_session_opened<H: Host>(
    session_id: Seq<char>,
    cwd: Seq<char>,
    history: Option<Seq<H::HistoryItem>>,
    thread: Arc<H::Thread>,
) -> ProgressView<H> {
    match history {
        Some(items) => ProgressView::Pending {
            task: TaskView::ReplayingHistory { session_id, cwd, thread },
            action: ActionView::ReplayHistory { thread, items },
        },
        None => ProgressView::Pending {
            task: TaskView::LoadingRecorded { session_id, cwd, thread, replay_history: false },
            action: ActionView::LoadThread { thread },
        },
    }
}

/// The history has been shown.
pub open spec fn history_replayed<H: Host>(
    session_id: Seq<char>,
    cwd: Seq<char>,
    thread: Arc<H::Thread>,
    outcome: Result<(), ErrorView>,
) -> ProgressView<H> {
    match outcome {
        Ok(()) => ProgressView::Pending {
            task: TaskView::LoadingRecorded { session_id, cwd, thread, replay_history: true },
            action: ActionView::LoadThread { thread },
        },
        Err(error) => fail(error),
    }
}

/// The thread of a recorded session is ready: the session is open, and its
/// working directory is on record.
pub open spec fn recorded_session_loaded<H: Host>(
    agent: AgentView<H>,
    session_id: Seq<char>,
    cwd: Seq<char>,
    thread: Arc<H::Thread>,
    replay_history: bool,
    state: Result<SessionState<H>, ErrorView>,
) -> (AgentView<H>, ProgressView<H>) {
    match state {
        Ok(state) => (
            with_session(with_root(agent, session_id, cwd), session_id, thread),
            if replay_history {
                succeed(ResponseView::LoadSession { state })
            } else {
                succeed(ResponseView::ResumeSession { state })
            },
        ),
        Err(error) => (agent, fail(error)),
    }
}

fn resolve<H: Host>(opening: Opening<H>, cwd: String, mcp_servers: Vec<McpServer>) -> (progress:
    Progress<H>)
    ensures
        progress@ == resolve_cwd(opening@, cwd@, server_views(mcp_servers@)),
{
    Progress::Pending {
        task: Task::ResolvingCwd { opening, mcp_servers },
        action: Action::ResolveCwd { cwd },
    }
}

pub(crate) fn find_record<H: Host>(
    session_id: String,
    cwd: String,
    mcp_servers: Vec<McpServer>,
    replay_history: bool,
    found: Result<Option<String>, String>,
) -> (progress: Progress<H>)
    ensures
        progress@ == record_found::<H>(
            session_id@,
            cwd@,
            server_views(mcp_servers@),
            replay_history,
            found_text(found),
        ),
{
    match found {
        Ok(Some(rollout_path)) => if replay_history {
            Progress::Pending {
                task: Task::ReadingHistory {
                    session_id,
                    cwd,
                    mcp_servers,
                    rollout_path: rollout_path.clone(),
                },
                action: Action::ReadHistory { rollout_path },
            }
        } else {
            resolve(
                Opening::Recorded { session_id, rollout_path, history: None },
                cwd,
                mcp_servers,
            )
        },
        Ok(None) => Progress::fail(Error::resource_not_found()),
        Err(reason) => Progress::fail(Error::into_internal_error(reason)),
    }
}

pub(crate) fn keep_history<H: Host>(
    session_id: String,
    cwd: String,
    mcp_servers: Vec<McpServer>,
    rollout_path: String,
    history: Result<InitialHistory<H>, String>,
) -> (progress: Progress<H>)
    ensures
        progress@ == history_found::<H>(
            session_id@,
            cwd@,
            server_views(mcp_servers@),
            rollout_path@,
            read_history(history),
        ),
{
    match history {
        Ok(history) => resolve(
            Opening::Recorded { session_id, rollout_path, history: Some(history.into_items()) },
            cwd,
            mcp_servers,
        ),
        Err(reason) => Progress::fail(Error::into_internal_error(reason)),
    }
}

pub(crate) fn start_thread<H: Host>(
    opening: Opening<H>,
    config: Arc<SessionConfig>,
    outcome: Result<(), String>,
) -> (progress: Progress<H>)
    ensures
        progress@ == servers_installed(opening@, (*config)@, told(outcome)),
{
    match outcome {
        Ok(()) => match opening {
            Opening::New => Progress::Pending {
                task: Task::StartingThread { config: Arc::clone(&config) },
                action: Action::StartThread { config },
            },
            Opening::Recorded { session_id, rollout_path, history } => Progress::Pending {
                task: Task::ResumingThread { session_id, config: Arc::clone(&config), history },
                action: Action::ResumeThread { config, rollout_path },
            },
        },
        Err(reason) => Progress::fail(Error::into_internal_error(reason)),
    }
}

pub(crate) fn load_new_session<H: Host>(session_id: String, thread: Arc<H::Thread>) -> (progress:
    Progress<H>)
    ensures
        progress@ == new_session_opened::<H>(session_id@, thread),
{
    Progress::Pending {
        task: Task::LoadingNew { session_id, thread: Arc::clone(&thread) },
        action: Action::LoadThread { thread },
    }
}

pub(crate) fn open_resumed<H: Host>(
    session_id: String,
    config: Arc<SessionConfig>,
    history: Option<Vec<H::HistoryItem>>,
    outcome: Result<(), String>,
) -> (progress: Progress<H>)
    ensures
        progress@ == thread_resumed::<H>(
            session_id@,
            (*config)@,
            optional_items(history),
            told(outcome),
        ),
{
    match outcome {
        Ok(()) => Progress::Pending {
            task: Task::OpeningRecorded {
                session_id: session_id.clone(),
                cwd: config.cwd.clone(),
                history,
            },
            action: Action::OpenThread { session_id, config },
        },
        Err(reason) => Progress::fail(Error::into_internal_error(reason)),
    }
}

pub(crate) fn replay_or_load<H: Host>(
    session_id: String,
    cwd: String,
    history: Option<Vec<H::HistoryItem>>,
    thread: Arc<H::Thread>,
) -> (progress: Progress<H>)
    ensures
        progress@ == recorded_session_opened::<H>(
            session_id@,
            cwd@,
            optional_items(history),
            thread,
        ),
{
    match history {
        Some(items) => Progress::Pending {
            task: Task::ReplayingHistory { session_id, cwd, thread: Arc::clone(&thread) },
            action: Action::ReplayHistory { thread, items },
        },
        None => Progress::Pending {
            task: Task::LoadingRecorded {
                session_id,
                cwd,
                thread: Arc::clone(&thread),
                replay_history: false,
            },
            action: Action::LoadThread { thread },
        },
    }
}

pub(crate) fn load_replayed<H: Host>(
    session_id: String,
    cwd: String,
    thread: Arc<H::Thread>,
    outcome: Result<(), Error>,
) -> (progress: Progress<H>)
    ensures
        progress@ == history_replayed::<H>(session_id@, cwd@, thread, answered(outcome)),
{
    match outcome {
        Ok(()) => Progress::Pending {
            task: Task::LoadingRecorded {
                session_id,
                cwd,
                thread: Arc::clone(&thread),
                replay_history: true,
            },
            action: Action::LoadThread { thread },
        },
        Err(error) => Progress::fail(error),
    }
}

impl<H: Host> CodexAgent<H> {
    /// Opens a new session.
    pub fn new_session(cwd: String, mcp_servers: Vec<McpServer>) -> (progress: Progress<H>)
        ensures
            progress@ == resolve_cwd::<H>(OpeningView::New, cwd@, server_views(mcp_servers@)),
    {
        resolve(Opening::New, cwd, mcp_servers)
    }

    /// Opens a session that was recorded, and shows its history.
    pub fn load_session(session_id: String, cwd: String, mcp_servers: Vec<McpServer>) -> (progress:
        Progress<H>)
        ensures
            progress@ == restore_requested::<H>(
                session_id@,
                cwd@,
                server_views(mcp_servers@),
                true,
            ),
    {
        Self::restore_session(session_id, cwd, mcp_servers, true)
    }

    /// Opens a session that was recorded, without showing its history.
    pub fn resume_session(
        session_id: String,
        cwd: String,
        mcp_servers: Vec<McpServer>,
    ) -> (progress: Progress<H>)
        ensures
            progress@ == restore_requested::<H>(
                session_id@,
                cwd@,
                server_views(mcp_servers@),
                false,
            ),
    {
        Self::restore_session(session_id, cwd, mcp_servers, false)
    }

    fn restore_session(
        session_id: String,
        cwd: String,
        mcp_servers: Vec<McpServer>,
        replay_history: bool,
    ) -> (progress: Progress<H>)
        ensures
            progress@ == restore_requested::<H>(
                session_id@,
                cwd@,
                server_views(mcp_servers@),
                replay_history,
            ),
    {
        Progress::Pending {
            task: Task::FindingRecord {
                session_id: session_id.clone(),
                cwd,
                mcp_servers,
                replay_history,
            },
            action: Action::FindRollout { session_id },
        }
    }

    /// The configuration of a session: what is configured for every session,
    /// the absolute path of its working directory, or why there is none, and
    /// the MCP servers that the client asks for.
    pub fn build_session_config(
        &self,
        cwd: Result<String, String>,
        mcp_servers: &Vec<McpServer>,
    ) -> (config: Result<SessionConfig, Error>)
        ensures
            match config {
                Ok(config) => session_config(
                    self@.settings,
                    text_outcome(cwd),
                    server_views(mcp_servers@),
                ) == Ok::<SessionConfigView, ErrorView>(config@),
                Err(error) => session_config(
                    self@.settings,
                    text_outcome(cwd),
                    server_views(mcp_servers@),
                ) == Err::<SessionConfigView, ErrorView>(error@),
            },
    {
        make_session_config(self.settings(), cwd, mcp_servers)
    }

    pub(crate) fn configure_session(
        &self,
        opening: Opening<H>,
        mcp_servers: Vec<McpServer>,
        cwd: Result<String, String>,
    ) -> (progress: Progress<H>)
        ensures
            progress@ == cwd_resolved(
                self@,
                opening@,
                server_views(mcp_servers@),
                text_outcome(cwd),
            ),
    {
        match self.build_session_config(cwd, &mcp_servers) {
            Ok(config) => {
                let config: Arc<SessionConfig> = Arc::new(config);
                Progress::Pending {
                    task: Task::InstallingServers { opening, config: Arc::clone(&config) },
                    action: Action::InstallServers { config },
                }
            },
            Err(error) => Progress::fail(error),
        }
    }

    pub(crate) fn open_started(
        &mut self,
        config: Arc<SessionConfig>,
        thread_id: Result<String, String>,
    ) -> (progress: Progress<H>)
        ensures
            (final(self)@, progress@) == thread_started(
                old(self)@,
                (*config)@,
                text_outcome(thread_id),
            ),
    {
        match thread_id {
            Ok(thread_id) => {
                let session_id: String = Self::session_id_from_thread_id(thread_id);
                self.record_root(session_id.clone(), config.cwd.clone());
                Progress::Pending {
                    task: Task::OpeningNew { session_id: session_id.clone() },
                    action: Action::OpenThread { session_id, config },
                }
            },
            Err(_) => Progress::fail(Error::internal_error()),
        }
    }

    pub(crate) fn finish_new_session(
        &mut self,
        session_id: String,
        thread: Arc<H::Thread>,
        state: Result<SessionState<H>, Error>,
    ) -> (progress: Progress<H>)
        ensures
            (final(self)@, progress@) == new_session_loaded(
                old(self)@,
                session_id@,
                thread,
                answered(state),
            ),
    {
        match state {
            Ok(state) => {
                self.record_session(session_id.clone(), thread);
                Progress::succeed(Response::NewSession { session_id, state })
            },
            Err(error) => Progress::fail(error),
        }
    }

    pub(crate) fn finish_recorded_session(
        &mut self,
        session_id: String,
        cwd: String,
        thread: Arc<H::Thread>,
        replay_history: bool,
        state: Result<SessionState<H>, Error>,
    ) -> (progress: Progress<H>)
        ensures
            (final(self)@, progress@) == recorded_session_loaded(
                old(self)@,
                session_id@,
                cwd@,
                thread,
                replay_history,
                answered(state),
            ),
    {
        match state {
            Ok(state) => {
                self.record_root(session_id.clone(), cwd);
                self.record_session(session_id, thread);
                if replay_history {
                    Progress::succeed(Response::LoadSession { state })
                } else {
                    Progress::succeed(Response::ResumeSession { state })
                }
            },
            Err(error) => Progress::fail(error),
        }
    }
}

} // verus!
