//! Serving requests: what a request begins with, and how it goes on with what
//! came of the actions that it waited for.

use crate::action::{Action, ActionView, Reply, ReplyView};
use crate::agent::{AgentView, CodexAgent};
use crate::auth::CodexAuth;
use crate::authentication::{
    adopt_credentials, api_key_read, auth_read, authentication_requested, await_login,
    credentials_stored, finish_logout, introduction, log_in_unless_authenticated, logged_out,
    login_started, logout_requested,
};
use crate::error::{auth_required_error, Error};
use crate::protocol::{Host, Request, RequestView, Response, ResponseView};
use crate::session_opening::{
    cwd_resolved, find_record, history_found, history_replayed, keep_history, load_new_session,
    load_replayed, new_session_loaded, new_session_opened, open_resumed,
    record_found, recorded_session_loaded, recorded_session_opened, replay_or_load, resolve_cwd,
    restore_requested, servers_installed, start_thread, thread_resumed,
    thread_started,
};
use crate::session_title::{
    finish_title, located_title_updated, record_located, show_indexed_title,
    shows_fitting_title, title_indexed,
    title_requested, title_shown, title_updated, update_located_title, update_title,
};
use crate::session_use::{
    cancel_requested, close_requested, finish_handled, finish_listing, finish_option,
    finish_prompt, handled, listing_requested, lists_fitting_titles, mode_requested, option_requested,
    option_set, options_read, page_listed, prompt_requested, prompt_stopped, read_options,
    release_ended, session_closed, thread_ended,
};
use crate::task::{fail, succeed, OpeningView, Progress, ProgressView, Task, TaskView};
use crate::thread_id::thread_id_in;
use vstd::prelude::*;

verus! {

/// The requests that are for authenticated clients.
pub open spec fn is_guarded<H: Host>(request: RequestView<H>) -> bool {
    match request {
        RequestView::NewSession { .. }
        | RequestView::LoadSession { .. }
        | RequestView::ResumeSession { .. }
        | RequestView::ListSessions { .. }
        | RequestView::Prompt { .. }
        | RequestView::SetSessionTitle { .. } => true,
        RequestView::Initialize { .. }
        | RequestView::Authenticate { .. }
        | RequestView::Logout
        | RequestView::CloseSession { .. }
        | RequestView::Cancel { .. }
        | RequestView::SetSessionMode { .. }
        | RequestView::SetSessionConfigOption { .. } => false,
    }
}

/// The model provider wants the client to be authenticated.
pub open spec fn needs_auth<H: Host>(agent: AgentView<H>) -> bool {
    agent.settings.model_provider_id == "openai"@
}

/// What a request begins with that may be served.
pub open spec fn dispatched<H: Host>(agent: AgentView<H>, request: RequestView<H>) -> (
    AgentView<H>,
    ProgressView<H>,
) {
    match request {
        RequestView::Initialize { client_capabilities, no_browser } => (
            AgentView { client_capabilities, ..agent },
            succeed(ResponseView::Initialize(introduction(agent.settings, no_browser))),
        ),
        RequestView::Authenticate { method_id } => (agent, authentication_requested(method_id)),
        RequestView::Logout => (agent, logout_requested()),
        RequestView::NewSession { cwd, mcp_servers } => (
            agent,
            resolve_cwd(OpeningView::New, cwd, mcp_servers),
        ),
        RequestView::LoadSession { session_id, cwd, mcp_servers } => (
            agent,
            restore_requested(session_id, cwd, mcp_servers, true),
        ),
        RequestView::ResumeSession { session_id, cwd, mcp_servers } => (
            agent,
            restore_requested(session_id, cwd, mcp_servers, false),
        ),
        RequestView::ListSessions { cwd, cursor } => (agent, listing_requested(cwd, cursor)),
        RequestView::CloseSession { session_id } => (agent, close_requested(agent, session_id)),
        RequestView::Prompt { session_id, prompt } => (
            agent,
            prompt_requested(agent, session_id, prompt),
        ),
        RequestView::Cancel { session_id } => (agent, cancel_requested(agent, session_id)),
        RequestView::SetSessionMode { session_id, mode_id } => (
            agent,
            mode_requested(agent, session_id, mode_id),
        ),
        RequestView::SetSessionTitle { session_id, title } => (
            agent,
            title_requested(agent, session_id, title, thread_id_in(session_id)),
        ),
        RequestView::SetSessionConfigOption { session_id, config_id, value } => (
            agent,
            option_requested(agent, session_id, config_id, value),
        ),
    }
}

/// What a request begins with. A request for authenticated clients waits until
/// it is known that the client is, where the model provider wants that.
pub open spec fn served<H: Host>(agent: AgentView<H>, request: RequestView<H>) -> (
    AgentView<H>,
    ProgressView<H>,
) {
    if is_guarded(request) && needs_auth(agent) {
        (
            agent,
            ProgressView::Pending {
                task: TaskView::CheckingAuth { request },
                action: ActionView::ReadAuth,
            },
        )
    } else {
        dispatched(agent, request)
    }
}

/// It is known how the agent is authenticated. Where it is not, the stored
/// credentials may have changed.
pub open spec fn auth_checked<H: Host>(
    agent: AgentView<H>,
    request: RequestView<H>,
    auth: Option<CodexAuth>,
) -> (AgentView<H>, ProgressView<H>) {
    match auth {
        Some(_) => dispatched(agent, request),
        None => (
            agent,
            ProgressView::Pending {
                task: TaskView::RecheckingAuth { request },
                action: ActionView::ReloadAuth,
            },
        ),
    }
}

/// The stored credentials have been read again.
pub open spec fn auth_rechecked<H: Host>(
    agent: AgentView<H>,
    request: RequestView<H>,
    changed: bool,
) -> (AgentView<H>, ProgressView<H>) {
    if changed {
        dispatched(agent, request)
    } else {
        (agent, fail(auth_required_error()))
    }
}

/// With the reply, the task takes the agent from one state to another and
/// comes this far.
pub open spec fn step<H: Host>(
    agent: AgentView<H>,
    task: TaskView<H>,
    reply: ReplyView<H>,
    after: AgentView<H>,
    progress: ProgressView<H>,
) -> bool {
    match (task, reply) {
        (TaskView::CheckingAuth { request }, ReplyView::Auth(auth)) => (after, progress)
            == auth_checked(agent, request, auth),
        (TaskView::RecheckingAuth { request }, ReplyView::Reloaded(changed)) => (after, progress)
            == auth_rechecked(agent, request, changed),
        (TaskView::ReadingAuth { method }, ReplyView::Auth(auth)) => after == agent && progress
            == auth_read::<H>(method, auth),
        (TaskView::StartingLogin, ReplyView::Done(outcome)) => after == agent && progress
            == login_started::<H>(outcome),
        (TaskView::AwaitingLogin, ReplyView::Done(outcome)) => after == agent && progress
            == credentials_stored::<H>(outcome),
        (TaskView::ReadingApiKey { method }, ReplyView::ApiKey(api_key)) => after == agent
            && progress == api_key_read(agent, method, api_key),
        (TaskView::StoringApiKey, ReplyView::Done(outcome)) => after == agent && progress
            == credentials_stored::<H>(outcome),
        (TaskView::AdoptingAuth, ReplyView::Reloaded(_)) => after == agent && progress == succeed(
            ResponseView::<H>::Authenticate,
        ),
        (TaskView::LoggingOut, ReplyView::Done(outcome)) => after == agent && progress
            == logged_out::<H>(outcome),
        (
            TaskView::FindingRecord { session_id, cwd, mcp_servers, replay_history },
            ReplyView::Rollout(found),
        ) => after == agent && progress == record_found::<H>(
            session_id,
            cwd,
            mcp_servers,
            replay_history,
            found,
        ),
        (
            TaskView::ReadingHistory { session_id, cwd, mcp_servers, rollout_path },
            ReplyView::History(history),
        ) => after == agent && progress == history_found(
            session_id,
            cwd,
            mcp_servers,
            rollout_path,
            history,
        ),
        (TaskView::ResolvingCwd { opening, mcp_servers }, ReplyView::Resolved(cwd)) => after
            == agent && progress == cwd_resolved(agent, opening, mcp_servers, cwd),
        (TaskView::InstallingServers { opening, config }, ReplyView::Done(outcome)) => after
            == agent && progress == servers_installed(opening, config, outcome),
        (TaskView::StartingThread { config }, ReplyView::Started(thread_id)) => (after, progress)
            == thread_started(agent, config, thread_id),
        (TaskView::OpeningNew { session_id }, ReplyView::Opened(thread)) => after == agent
            && progress == new_session_opened::<H>(session_id, thread),
        (TaskView::LoadingNew { session_id, thread }, ReplyView::Loaded(state)) => (after, progress)
            == new_session_loaded(agent, session_id, thread, state),
        (TaskView::ResumingThread { session_id, config, history }, ReplyView::Done(outcome)) => after
            == agent && progress == thread_resumed::<H>(session_id, config, history, outcome),
        (TaskView::OpeningRecorded { session_id, cwd, history }, ReplyView::Opened(thread)) => after
            == agent && progress == recorded_session_opened::<H>(session_id, cwd, history, thread),
        (TaskView::ReplayingHistory { session_id, cwd, thread }, ReplyView::Handled(outcome)) => after
            == agent && progress == history_replayed::<H>(session_id, cwd, thread, outcome),
        (
            TaskView::LoadingRecorded { session_id, cwd, thread, replay_history },
            ReplyView::Loaded(state),
        ) => (after, progress) == recorded_session_loaded(
            agent,
            session_id,
            cwd,
            thread,
            replay_history,
            state,
        ),
        (TaskView::ListingThreads { cwd }, ReplyView::Listed(page)) => after == agent
            && page_listed(cwd, page, progress),
        (TaskView::ShuttingDown { session_id }, ReplyView::Handled(outcome)) => after == agent
            && progress == thread_ended::<H>(session_id, outcome),
        (TaskView::RemovingThread { session_id }, ReplyView::Removed) => (after, progress)
            == session_closed(agent, session_id),
        (TaskView::Prompting, ReplyView::Stopped(reason)) => after == agent && progress
            == prompt_stopped::<H>(reason),
        (TaskView::Cancelling, ReplyView::Handled(outcome)) => after == agent && progress
            == handled::<H>(outcome, ResponseView::Cancel),
        (TaskView::SettingMode, ReplyView::Handled(outcome)) => after == agent && progress
            == handled::<H>(outcome, ResponseView::SetSessionMode),
        (
            TaskView::UpdatingTitle { session_id, thread_id, title, thread },
            ReplyView::TitleUpdated(outcome),
        ) => after == agent && progress == title_updated::<H>(
            session_id,
            thread_id,
            title,
            thread,
            outcome,
        ),
        (TaskView::TitlingThread, ReplyView::Handled(outcome)) => after == agent && progress
            == title_shown::<H>(outcome),
        (
            TaskView::LocatingRecord { session_id, thread_id, title },
            ReplyView::Rollout(found),
        ) => after == agent && progress == record_located(
            agent,
            session_id,
            thread_id,
            title,
            found,
        ),
        (
            TaskView::UpdatingLocatedTitle { session_id, thread_id, title },
            ReplyView::TitleUpdated(outcome),
        ) => after == agent && progress == located_title_updated::<H>(
            session_id,
            thread_id,
            title,
            outcome,
        ),
        (TaskView::IndexingTitle { session_id, title }, ReplyView::Done(outcome)) => after == agent
            && progress == title_indexed::<H>(session_id, title, outcome),
        (TaskView::NotifyingTitle, ReplyView::Handled(outcome)) => after == agent && progress
            == title_shown::<H>(outcome),
        (TaskView::SettingConfigOption { thread }, ReplyView::Handled(outcome)) => after == agent
            && progress == option_set::<H>(thread, outcome),
        (TaskView::ReadingConfigOptions, ReplyView::ConfigOptions(options)) => after == agent
            && progress == options_read::<H>(options),
        _ => after == agent && progress == (ProgressView::Unanswered { task }),
    }
}

impl<H: Host> CodexAgent<H> {
    /// Begins to serve a request.
    pub fn serve(&mut self, request: Request<H>) -> (progress: Progress<H>)
        ensures
            (final(self)@, progress@) == served(old(self)@, request@),
            shows_fitting_title(None, progress@),
    {
        let guarded: bool = match &request {
            Request::NewSession { .. } => true,
            Request::LoadSession { .. } => true,
            Request::ResumeSession { .. } => true,
            Request::ListSessions { .. } => true,
            Request::Prompt { .. } => true,
            Request::SetSessionTitle { .. } => true,
            _ => false,
        };
        if guarded && self.needs_auth() {
            Progress::Pending { task: Task::CheckingAuth { request }, action: Action::ReadAuth }
        } else {
            self.dispatch(request)
        }
    }

    /// Tells whether the model provider wants the client to be authenticated.
    pub fn needs_auth(&self) -> (needed: bool)
        ensures
            needed == needs_auth(self@),
    {
        self.settings().model_provider_id == "openai".to_string()
    }

    /// Goes on with a request for authenticated clients, once it is known how
    /// the agent is authenticated.
    pub fn check_auth(&mut self, request: Request<H>, auth: Option<CodexAuth>) -> (progress:
        Progress<H>)
        ensures
            (final(self)@, progress@) == auth_checked(old(self)@, request@, auth),
            shows_fitting_title(None, progress@),
    {
        match auth {
            Some(_) => self.dispatch(request),
            None => Progress::Pending {
                task: Task::RecheckingAuth { request },
                action: Action::ReloadAuth,
            },
        }
    }

    fn recheck_auth(&mut self, request: Request<H>, changed: bool) -> (progress: Progress<H>)
        ensures
            (final(self)@, progress@) == auth_rechecked(old(self)@, request@, changed),
            shows_fitting_title(None, progress@),
    {
        if changed {
            self.dispatch(request)
        } else {
            Progress::fail(Error::auth_required())
        }
    }

    fn dispatch(&mut self, request: Request<H>) -> (progress: Progress<H>)
        ensures
            (final(self)@, progress@) == dispatched(old(self)@, request@),
            shows_fitting_title(None, progress@),
    {
        match request {
            Request::Initialize { client_capabilities, no_browser } => Progress::succeed(
                Response::Initialize(self.initialize(client_capabilities, no_browser)),
            ),
            Request::Authenticate { method_id } => Self::authenticate(&method_id),
            Request::Logout => Self::logout(),
            Request::NewSession { cwd, mcp_servers } => Self::new_session(cwd, mcp_servers),
            Request::LoadSession { session_id, cwd, mcp_servers } => Self::load_session(
                session_id,
                cwd,
                mcp_servers,
            ),
            Request::ResumeSession { session_id, cwd, mcp_servers } => Self::resume_session(
                session_id,
                cwd,
                mcp_servers,
            ),
            Request::ListSessions { cwd, cursor } => Self::list_sessions(cwd, cursor),
            Request::CloseSession { session_id } => self.close_session(session_id),
            Request::Prompt { session_id, prompt } => self.prompt(&session_id, prompt),
            Request::Cancel { session_id } => self.cancel(&session_id),
            Request::SetSessionMode { session_id, mode_id } => self.set_session_mode(
                &session_id,
                mode_id,
            ),
            Request::SetSessionTitle { session_id, title } => self.set_session_title(
                session_id,
                title,
            ),
            Request::SetSessionConfigOption { session_id, config_id, value } =>
            self.set_session_config_option(&session_id, config_id, value),
        }
    }

    /// Goes on with a request, with what came of the action that it waited for.
    pub fn advance(&mut self, task: Task<H>, reply: Reply<H>) -> (progress: Progress<H>)
        ensures
            step(old(self)@, task@, reply@, final(self)@, progress@),
            shows_fitting_title(
                match task@ {
                    TaskView::IndexingTitle { title, .. } => Some(title),
                    _ => None,
                },
                progress@,
            ),
            lists_fitting_titles(reply@, progress@),
    {
        match (task, reply) {
            (Task::CheckingAuth { request }, Reply::Auth(auth)) => self.check_auth(request, auth),
            (Task::RecheckingAuth { request }, Reply::Reloaded(changed)) => self.recheck_auth(
                request,
                changed,
            ),
            (Task::ReadingAuth { method }, Reply::Auth(auth)) => log_in_unless_authenticated(
                method,
                auth,
            ),
            (Task::StartingLogin, Reply::Done(outcome)) => await_login(outcome),
            (Task::AwaitingLogin, Reply::Done(outcome)) => adopt_credentials(outcome),
            (Task::ReadingApiKey { method }, Reply::ApiKey(api_key)) => self.store_api_key(
                method,
                api_key,
            ),
            (Task::StoringApiKey, Reply::Done(outcome)) => adopt_credentials(outcome),
            (Task::AdoptingAuth, Reply::Reloaded(_)) => Progress::succeed(Response::Authenticate),
            (Task::LoggingOut, Reply::Done(outcome)) => finish_logout(outcome),
            (
                Task::FindingRecord { session_id, cwd, mcp_servers, replay_history },
                Reply::Rollout(found),
            ) => find_record(session_id, cwd, mcp_servers, replay_history, found),
            (
                Task::ReadingHistory { session_id, cwd, mcp_servers, rollout_path },
                Reply::History(history),
            ) => keep_history(session_id, cwd, mcp_servers, rollout_path, history),
            (Task::ResolvingCwd { opening, mcp_servers }, Reply::Resolved(cwd)) =>
            self.configure_session(opening, mcp_servers, cwd),
            (Task::InstallingServers { opening, config }, Reply::Done(outcome)) => start_thread(
                opening,
                config,
                outcome,
            ),
            (Task::StartingThread { config }, Reply::Started(thread_id)) => self.open_started(
                config,
                thread_id,
            ),
            (Task::OpeningNew { session_id }, Reply::Opened(thread)) => load_new_session(
                session_id,
                thread,
            ),
            (Task::LoadingNew { session_id, thread }, Reply::Loaded(state)) =>
            self.finish_new_session(session_id, thread, state),
            (Task::ResumingThread { session_id, config, history }, Reply::Done(outcome)) =>
            open_resumed(session_id, config, history, outcome),
            (Task::OpeningRecorded { session_id, cwd, history }, Reply::Opened(thread)) =>
            replay_or_load(session_id, cwd, history, thread),
            (Task::ReplayingHistory { session_id, cwd, thread }, Reply::Handled(outcome)) =>
            load_replayed(session_id, cwd, thread, outcome),
            (
                Task::LoadingRecorded { session_id, cwd, thread, replay_history },
                Reply::Loaded(state),
            ) => self.finish_recorded_session(session_id, cwd, thread, replay_history, state),
            (Task::ListingThreads { cwd }, Reply::Listed(page)) => finish_listing(&cwd, page),
            (Task::ShuttingDown { session_id }, Reply::Handled(outcome)) => release_ended(
                session_id,
                outcome,
            ),
            (Task::RemovingThread { session_id }, Reply::Removed) => self.finish_close(session_id),
            (Task::Prompting, Reply::Stopped(reason)) => finish_prompt(reason),
            (Task::Cancelling, Reply::Handled(outcome)) => finish_handled(
                outcome,
                Response::Cancel,
            ),
            (Task::SettingMode, Reply::Handled(outcome)) => finish_handled(
                outcome,
                Response::SetSessionMode,
            ),
            (
                Task::UpdatingTitle { session_id, thread_id, title, thread },
                Reply::TitleUpdated(outcome),
            ) => update_title(session_id, thread_id, title, thread, outcome),
            (Task::TitlingThread, Reply::Handled(outcome)) => finish_title(outcome),
            (
                Task::LocatingRecord { session_id, thread_id, title },
                Reply::Rollout(found),
            ) => self.locate_record(session_id, thread_id, title, found),
            (
                Task::UpdatingLocatedTitle { session_id, thread_id, title },
                Reply::TitleUpdated(outcome),
            ) => update_located_title(session_id, thread_id, title, outcome),
            (Task::IndexingTitle { session_id, title }, Reply::Done(outcome)) =>
            show_indexed_title(session_id, title, outcome),
            (Task::NotifyingTitle, Reply::Handled(outcome)) => finish_title(outcome),
            (Task::SettingConfigOption { thread }, Reply::Handled(outcome)) => read_options(
                thread,
                outcome,
            ),
            (Task::ReadingConfigOptions, Reply::ConfigOptions(options)) => finish_option(options),
            (task, _) => Progress::Unanswered { task },
        }
    }
}

} // verus!
