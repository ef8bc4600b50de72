//! Using the sessions that are open, listing those that are stored, and
//! closing them.

use crate::action::{answered, listed_page, Action, ActionView, ReplyView};
use crate::agent::{thread_of, without_session, AgentView, CodexAgent};
use crate::config::text_outcome;
use crate::error::{internal_error_with, not_found_error, Error, ErrorView};
use crate::listing::{
    are_listed, have_fitting_titles, list_threads_params, listing_params, session_views, sessions_on_page,
    ListThreadsParams, SessionInfo, SessionInfoView, ThreadPage, ThreadPageView,
};
use crate::protocol::{Host, Response, ResponseView};
use crate::task::{fail, succeed, Progress, ProgressView, Task, TaskView};
use crate::thread_id::{read_thread_id, thread_id_in};
use crate::title::optional_text;
use std::sync::Arc;
use vstd::prelude::*;

verus! {

/// Whatever the request, the session has to be open.
pub open spec fn with_thread<H: Host>(
    agent: AgentView<H>,
    session_id: Seq<char>,
    go_on: spec_fn(Arc<H::Thread>) -> ProgressView<H>,
) -> ProgressView<H> {
    match thread_of(agent, session_id) {
        Some(thread) => go_on(thread),
        None => fail(not_found_error()),
    }
}

/// A prompt goes to the session's thread.
pub open spec fn prompt_requested<H: Host>(
    agent: AgentView<H>,
    session_id: Seq<char>,
    prompt: H::Prompt,
) -> ProgressView<H> {
    with_thread(
        agent,
        session_id,
        |thread: Arc<H::Thread>|
            ProgressView::Pending {
                task: TaskView::Prompting,
                action: ActionView::PromptThread { thread, prompt },
            },
    )
}

/// The model has stopped.
pub open spec fn prompt_stopped<H: Host>(reason: Result<H::StopReason, ErrorView>) -> ProgressView<
    H,
> {
    match reason {
        Ok(stop_reason) => succeed(ResponseView::Prompt { stop_reason }),
        Err(error) => fail(error),
    }
}

/// The session's thread stops what it is doing.
pub open spec fn cancel_requested<H: Host>(
    agent: AgentView<H>,
    session_id: Seq<char>,
) -> ProgressView<H> {
    with_thread(
        agent,
        session_id,
        |thread: Arc<H::Thread>|
            ProgressView::Pending {
                task: TaskView::Cancelling,
                action: ActionView::CancelThread { thread },
            },
    )
}

/// The session's thread takes a mode.
pub open spec fn mode_requested<H: Host>(
    agent: AgentView<H>,
    session_id: Seq<char>,
    mode_id: Seq<char>,
) -> ProgressView<H> {
    with_thread(
        agent,
        session_id,
        |thread: Arc<H::Thread>|
            ProgressView::Pending {
                task: TaskView::SettingMode,
                action: ActionView::SetThreadMode { thread, mode_id },
            },
    )
}

/// The session's thread takes a configuration option.
pub open spec fn option_requested<H: Host>(
    agent: AgentView<H>,
    session_id: Seq<char>,
    config_id: Seq<char>,
    value: H::ConfigValue,
) -> ProgressView<H> {
    with_thread(
        agent,
        session_id,
        |thread: Arc<H::Thread>|
            ProgressView::Pending {
                task: TaskView::SettingConfigOption { thread },
                action: ActionView::SetThreadConfigOption { thread, config_id, value },
            },
    )
}

/// The option has been set: the client is told all options.
pub open spec fn option_set<H: Host>(
    thread: Arc<H::Thread>,
    outcome: Result<(), ErrorView>,
) -> ProgressView<H> {
    match outcome {
        Ok(()) => ProgressView::Pending {
            task: TaskView::ReadingConfigOptions,
            action: ActionView::ReadThreadConfigOptions { thread },
        },
        Err(error) => fail(error),
    }
}

/// All options are known.
pub open spec fn options_read<H: Host>(options: Result<H::ConfigOptions, ErrorView>) -> ProgressView<
    H,
> {
    match options {
        Ok(config_options) => succeed(ResponseView::SetSessionConfigOption { config_options }),
        Err(error) => fail(error),
    }
}

/// The thread has done what it was told.
pub open spec fn handled<H: Host>(
    outcome: Result<(), ErrorView>,
    response: ResponseView<H>,
) -> ProgressView<H> {
    match outcome {
        Ok(()) => succeed(response),
        Err(error) => fail(error),
    }
}

/// The session's thread ends.
pub open spec fn close_requested<H: Host>(
    agent: AgentView<H>,
    session_id: Seq<char>,
) -> ProgressView<H> {
    with_thread(
        agent,
        session_id,
        |thread: Arc<H::Thread>|
            ProgressView::Pending {
                task: TaskView::ShuttingDown { session_id },
                action: ActionView::ShutdownThread { thread },
            },
    )
}

/// The thread of a session is let go of, once the session's identifier has
/// been read.
pub open spec fn thread_released<H: Host>(
    session_id: Seq<char>,
    thread_id: Result<Seq<char>, Seq<char>>,
) -> ProgressView<H> {
    match thread_id {
        Ok(thread_id) => ProgressView::Pending {
            task: TaskView::RemovingThread { session_id },
            action: ActionView::RemoveThread { thread_id },
        },
        Err(reason) => fail(internal_error_with(reason)),
    }
}

/// The thread has ended.
pub open spec fn thread_ended<H: Host>(
    session_id: Seq<char>,
    outcome: Result<(), ErrorView>,
) -> ProgressView<H> {
    match outcome {
        Ok(()) => thread_released(session_id, thread_id_in(session_id)),
        Err(error) => fail(error),
    }
}

/// The thread has been let go of: the session is closed.
pub open spec fn session_closed<H: Host>(agent: AgentView<H>, session_id: Seq<char>) -> (
    AgentView<H>,
    ProgressView<H>,
) {
    (without_session(agent, session_id), succeed(ResponseView::CloseSession))
}

/// Stored threads are listed.
pub open spec fn listing_requested<H: Host>(
    cwd: Option<Seq<char>>,
    cursor: Option<Seq<char>>,
) -> ProgressView<H> {
    ProgressView::Pending {
        task: TaskView::ListingThreads { cwd },
        action: ActionView::ListThreads { params: listing_params(cwd, cursor) },
    }
}

/// The client is told of the sessions on a page of stored threads.
pub open spec fn page_listed<H: Host>(
    cwd: Option<Seq<char>>,
    page: Result<ThreadPageView, Seq<char>>,
    progress: ProgressView<H>,
) -> bool {
    match page {
        Ok(page) => exists|sessions: Seq<SessionInfoView>| #[trigger]
            are_listed(page.items, cwd, sessions) && progress == succeed(
                ResponseView::<H>::ListSessions { sessions, next_cursor: page.next_cursor },
            ),
        Err(reason) => progress == fail::<H>(
            internal_error_with("failed to list sessions: "@ + reason),
        ),
    }
}

/// Where the client is told of sessions, they are those of the page that came
/// as the reply, with titles that are what titles are to be.
pub open spec fn lists_fitting_titles<H: Host>(
    reply: ReplyView<H>,
    progress: ProgressView<H>,
) -> bool {
    progress matches ProgressView::Finished {
        answer: Ok(ResponseView::ListSessions { sessions, .. }),
    } ==> (reply matches ReplyView::Listed(Ok(page)) && have_fitting_titles(page.items, sessions))
}

impl<H: Host> CodexAgent<H> {
    /// Hands a prompt to a session.
    pub fn prompt(&self, session_id: &String, prompt: H::Prompt) -> (progress: Progress<H>)
        ensures
            progress@ == prompt_requested(self@, session_id@, prompt),
    {
        match self.get_thread(session_id) {
            Ok(thread) => Progress::Pending {
                task: Task::Prompting,
                action: Action::PromptThread { thread, prompt },
            },
            Err(error) => Progress::fail(error),
        }
    }

    /// Stops what a session is doing.
    pub fn cancel(&self, session_id: &String) -> (progress: Progress<H>)
        ensures
            progress@ == cancel_requested(self@, session_id@),
    {
        match self.get_thread(session_id) {
            Ok(thread) => Progress::Pending {
                task: Task::Cancelling,
                action: Action::CancelThread { thread },
            },
            Err(error) => Progress::fail(error),
        }
    }

    /// Puts a session into a mode.
    pub fn set_session_mode(&self, session_id: &String, mode_id: String) -> (progress: Progress<H>)
        ensures
            progress@ == mode_requested(self@, session_id@, mode_id@),
    {
        match self.get_thread(session_id) {
            Ok(thread) => Progress::Pending {
                task: Task::SettingMode,
                action: Action::SetThreadMode { thread, mode_id },
            },
            Err(error) => Progress::fail(error),
        }
    }

    /// Sets a configuration option of a session.
    pub fn set_session_config_option(
        &self,
        session_id: &String,
        config_id: String,
        value: H::ConfigValue,
    ) -> (progress: Progress<H>)
        ensures
            progress@ == option_requested(self@, session_id@, config_id@, value),
    {
        match self.get_thread(session_id) {
            Ok(thread) => Progress::Pending {
                task: Task::SettingConfigOption { thread: Arc::clone(&thread) },
                action: Action::SetThreadConfigOption { thread, config_id, value },
            },
            Err(error) => Progress::fail(error),
        }
    }

    /// Closes a session.
    pub fn close_session(&self, session_id: String) -> (progress: Progress<H>)
        ensures
            progress@ == close_requested(self@, session_id@),
    {
        match self.get_thread(&session_id) {
            Ok(thread) => Progress::Pending {
                task: Task::ShuttingDown { session_id },
                action: Action::ShutdownThread { thread },
            },
            Err(error) => Progress::fail(error),
        }
    }

    /// Lists the stored sessions.
    pub fn list_sessions(cwd: Option<String>, cursor: Option<String>) -> (progress: Progress<H>)
        ensures
            progress@ == listing_requested::<H>(optional_text(cwd), optional_text(cursor)),
    {
        let params: ListThreadsParams = list_threads_params(&cwd, cursor);
        Progress::Pending {
            task: Task::ListingThreads { cwd },
            action: Action::ListThreads { params },
        }
    }

    pub(crate) fn finish_close(&mut self, session_id: String) -> (progress: Progress<H>)
        ensures
            (final(self)@, progress@) == session_closed(old(self)@, session_id@),
    {
        self.forget_session(&session_id);
        Progress::succeed(Response::CloseSession)
    }
}

/// Lets go of the thread of a session whose identifier has been read.
pub fn release_thread<H: Host>(session_id: String, thread_id: Result<String, String>) -> (progress:
    Progress<H>)
    ensures
        progress@ == thread_released::<H>(session_id@, text_outcome(thread_id)),
{
    match thread_id {
        Ok(thread_id) => Progress::Pending {
            task: Task::RemovingThread { session_id },
            action: Action::RemoveThread { thread_id },
        },
        Err(reason) => Progress::fail(Error::into_internal_error(reason)),
    }
}

pub(crate) fn release_ended<H: Host>(session_id: String, outcome: Result<(), Error>) -> (progress:
    Progress<H>)
    ensures
        progress@ == thread_ended::<H>(session_id@, answered(outcome)),
{
    match outcome {
        Ok(()) => {
            let thread_id: Result<String, String> = read_thread_id(&session_id);
            release_thread(session_id, thread_id)
        },
        Err(error) => Progress::fail(error),
    }
}

pub(crate) fn finish_prompt<H: Host>(reason: Result<H::StopReason, Error>) -> (progress: Progress<
    H,
>)
    ensures
        progress@ == prompt_stopped::<H>(answered(reason)),
{
    match reason {
        Ok(stop_reason) => Progress::succeed(Response::Prompt { stop_reason }),
        Err(error) => Progress::fail(error),
    }
}

pub(crate) fn read_options<H: Host>(thread: Arc<H::Thread>, outcome: Result<(), Error>) -> (progress:
    Progress<H>)
    ensures
        progress@ == option_set::<H>(thread, answered(outcome)),
{
    match outcome {
        Ok(()) => Progress::Pending {
            task: Task::ReadingConfigOptions,
            action: Action::ReadThreadConfigOptions { thread },
        },
        Err(error) => Progress::fail(error),
    }
}

pub(crate) fn finish_option<H: Host>(options: Result<H::ConfigOptions, Error>) -> (progress: Progress<
    H,
>)
    ensures
        progress@ == options_read::<H>(answered(options)),
{
    match options {
        Ok(config_options) => Progress::succeed(
            Response::SetSessionConfigOption { config_options },
        ),
        Err(error) => Progress::fail(error),
    }
}

pub(crate) fn finish_handled<H: Host>(outcome: Result<(), Error>, response: Response<H>) -> (progress:
    Progress<H>)
    ensures
        progress@ == handled(answered(outcome), response@),
{
    match outcome {
        Ok(()) => Progress::succeed(response),
        Err(error) => Progress::fail(error),
    }
}

pub(crate) fn finish_listing<H: Host>(cwd: &Option<String>, page: Result<ThreadPage, String>) -> (progress:
    Progress<H>)
    ensures
        page_listed::<H>(optional_text(*cwd), listed_page(page), progress@),
        lists_fitting_titles::<H>(ReplyView::Listed(listed_page(page)), progress@),
{
    match page {
        Ok(page) => {
            let sessions: Vec<SessionInfo> = sessions_on_page(&page.items, cwd);
            assert(are_listed(page@.items, optional_text(*cwd), session_views(sessions@)));
            Progress::succeed(Response::ListSessions { sessions, next_cursor: page.next_cursor })
        },
        Err(reason) => Progress::fail(Error::failed("failed to list sessions: ", &reason)),
    }
}

} // verus!
