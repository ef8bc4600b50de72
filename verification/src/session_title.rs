//! Giving a session a new title.

use crate::action::{answered, found_text, told, Action, ActionView};
use crate::agent::{thread_of, AgentView, CodexAgent};
use crate::config::text_outcome;
use crate::error::{internal_error_with, not_found_error, Error, ErrorView};
use crate::protocol::{Host, Response, ResponseView};
use crate::task::{fail, succeed, Progress, ProgressView, Task, TaskView};
use crate::thread_id::{read_thread_id, thread_id_in};
use crate::title::{fits_message, notification_title_for_update, session_title};
use std::sync::Arc;
use vstd::prelude::*;

verus! {

/// The title goes to the index of names.
pub open spec fn index_title<H: Host>(
    session_id: Seq<char>,
    thread_id: Seq<char>,
    title: Seq<char>,
) -> ProgressView<H> {
    ProgressView::Pending {
        task: TaskView::IndexingTitle { session_id, title },
        action: ActionView::AppendThreadName { thread_id, title },
    }
}

/// The thread of an open session takes the title. Otherwise the title goes to
/// the index of names, once it is known that there is such a session: the
/// state database knows it, or there is a record of it.
pub open spec fn title_known_to_state<H: Host>(
    session_id: Seq<char>,
    thread_id: Seq<char>,
    title: Seq<char>,
    thread: Option<Arc<H::Thread>>,
    known: bool,
) -> ProgressView<H> {
    match thread {
        Some(thread) => ProgressView::Pending {
            task: TaskView::TitlingThread,
            action: ActionView::SetThreadTitle { thread, title, shown: session_title(title) },
        },
        None => if known {
            index_title(session_id, thread_id, title)
        } else {
            ProgressView::Pending {
                task: TaskView::LocatingRecord { session_id, thread_id, title },
                action: ActionView::FindRollout { session_id },
            }
        },
    }
}

/// How a session gets a new title, once its identifier has been read: first of
/// all the state database, if there is one, takes the title.
pub open spec fn title_requested<H: Host>(
    agent: AgentView<H>,
    session_id: Seq<char>,
    title: Seq<char>,
    thread_id: Result<Seq<char>, Seq<char>>,
) -> ProgressView<H> {
    match thread_id {
        Ok(thread_id) => {
            let thread = thread_of(agent, session_id);
            if agent.settings.has_state_db {
                ProgressView::Pending {
                    task: TaskView::UpdatingTitle { session_id, thread_id, title, thread },
                    action: ActionView::UpdateStateTitle { thread_id, title },
                }
            } else {
                title_known_to_state(session_id, thread_id, title, thread, false)
            }
        },
        Err(reason) => fail(internal_error_with(reason)),
    }
}

/// The state database has, or has not, taken the title.
pub open spec fn title_updated<H: Host>(
    session_id: Seq<char>,
    thread_id: Seq<char>,
    title: Seq<char>,
    thread: Option<Arc<H::Thread>>,
    outcome: Result<bool, Seq<char>>,
) -> ProgressView<H> {
    match outcome {
        Ok(known) => title_known_to_state(session_id, thread_id, title, thread, known),
        Err(reason) => fail(internal_error_with("failed to update thread title: "@ + reason)),
    }
}

/// The record of the session has been looked for.
pub open spec fn record_located<H: Host>(
    agent: AgentView<H>,
    session_id: Seq<char>,
    thread_id: Seq<char>,
    title: Seq<char>,
    found: Result<Option<Seq<char>>, Seq<char>>,
) -> ProgressView<H> {
    match found {
        Ok(Some(_)) => if agent.settings.has_state_db {
            ProgressView::Pending {
                task: TaskView::UpdatingLocatedTitle { session_id, thread_id, title },
                action: ActionView::UpdateStateTitle { thread_id, title },
            }
        } else {
            index_title(session_id, thread_id, title)
        },
        Ok(None) => fail(not_found_error()),
        Err(reason) => fail(
            internal_error_with("failed to locate thread before title update: "@ + reason),
        ),
    }
}

/// The state database has taken the title of a session with a record.
pub open spec fn located_title_updated<H: Host>(
    session_id: Seq<char>,
    thread_id: Seq<char>,
    title: Seq<char>,
    outcome: Result<bool, Seq<char>>,
) -> ProgressView<H> {
    match outcome {
        Ok(_) => index_title(session_id, thread_id, title),
        Err(reason) => fail(internal_error_with("failed to update thread title: "@ + reason)),
    }
}

/// The index of names has taken the title: the client is shown it.
pub open spec fn title_indexed<H: Host>(
    session_id: Seq<char>,
    title: Seq<char>,
    outcome: Result<(), Seq<char>>,
) -> ProgressView<H> {
    match outcome {
        Ok(()) => ProgressView::Pending {
            task: TaskView::NotifyingTitle,
            action: ActionView::NotifyTitle { session_id, shown: session_title(title) },
        },
        Err(reason) => fail(internal_error_with("failed to index thread title: "@ + reason)),
    }
}

/// The title has been shown.
pub open spec fn title_shown<H: Host>(outcome: Result<(), ErrorView>) -> ProgressView<H> {
    match outcome {
        Ok(()) => succeed(ResponseView::SetSessionTitle),
        Err(error) => fail(error),
    }
}

/// Where the request goes on to show a title, that is what a title is to be: of
/// the title that a thread takes, or of the given one that has been indexed.
pub open spec fn shows_fitting_title<H: Host>(
    indexed: Option<Seq<char>>,
    progress: ProgressView<H>,
) -> bool {
    match progress {
        ProgressView::Pending { action: ActionView::SetThreadTitle { title, shown, .. }, .. } =>
        fits_message(title, shown),
        ProgressView::Pending { action: ActionView::NotifyTitle { shown, .. }, .. } =>
        indexed matches Some(title) ==> fits_message(title, shown),
        _ => true,
    }
}

fn index<H: Host>(session_id: String, thread_id: String, title: String) -> (progress: Progress<H>)
    ensures
        progress@ == index_title::<H>(session_id@, thread_id@, title@),
{
    Progress::Pending {
        task: Task::IndexingTitle { session_id, title: title.clone() },
        action: Action::AppendThreadName { thread_id, title },
    }
}

fn retitle_known_to_state<H: Host>(
    session_id: String,
    thread_id: String,
    title: String,
    thread: Option<Arc<H::Thread>>,
    known: bool,
) -> (progress: Progress<H>)
    ensures
        progress@ == title_known_to_state::<H>(session_id@, thread_id@, title@, thread, known),
        shows_fitting_title(None, progress@),
{
    match thread {
        Some(thread) => {
            let shown: Option<String> = notification_title_for_update(title.as_str());
            Progress::Pending {
                task: Task::TitlingThread,
                action: Action::SetThreadTitle { thread, title, shown },
            }
        },
        None => if known {
            index(session_id, thread_id, title)
        } else {
            Progress::Pending {
                task: Task::LocatingRecord { session_id: session_id.clone(), thread_id, title },
                action: Action::FindRollout { session_id },
            }
        },
    }
}

impl<H: Host> CodexAgent<H> {
    /// Gives a session a new title.
    pub fn set_session_title(&self, session_id: String, title: String) -> (progress: Progress<H>)
        ensures
            progress@ == title_requested(self@, session_id@, title@, thread_id_in(session_id@)),
            shows_fitting_title(None, progress@),
    {
        let thread_id: Result<String, String> = read_thread_id(&session_id);
        self.retitle(session_id, title, thread_id)
    }

    /// Gives a session a new title, once its identifier has been read.
    pub fn retitle(
        &self,
        session_id: String,
        title: String,
        thread_id: Result<String, String>,
    ) -> (progress: Progress<H>)
        ensures
            progress@ == title_requested(
                self@,
                session_id@,
                title@,
                text_outcome(thread_id),
            ),
            shows_fitting_title(None, progress@),
    {
        let thread_id: String = match thread_id {
            Ok(thread_id) => thread_id,
            Err(reason) => {
                return Progress::fail(Error::into_internal_error(reason));
            },
        };
        let thread: Option<Arc<H::Thread>> = self.loaded_thread(&session_id);
        if self.settings().has_state_db {
            Progress::Pending {
                task: Task::UpdatingTitle {
                    session_id,
                    thread_id: thread_id.clone(),
                    title: title.clone(),
                    thread,
                },
                action: Action::UpdateStateTitle { thread_id, title },
            }
        } else {
            retitle_known_to_state(session_id, thread_id, title, thread, false)
        }
    }

    pub(crate) fn locate_record(
        &self,
        session_id: String,
        thread_id: String,
        title: String,
        found: Result<Option<String>, String>,
    ) -> (progress: Progress<H>)
        ensures
            progress@ == record_located(
                self@,
                session_id@,
                thread_id@,
                title@,
                found_text(found),
            ),
    {
        match found {
            Ok(Some(_)) => if self.settings().has_state_db {
                Progress::Pending {
                    task: Task::UpdatingLocatedTitle {
                        session_id,
                        thread_id: thread_id.clone(),
                        title: title.clone(),
                    },
                    action: Action::UpdateStateTitle { thread_id, title },
                }
            } else {
                index(session_id, thread_id, title)
            },
            Ok(None) => Progress::fail(Error::resource_not_found()),
            Err(reason) => Progress::fail(
                Error::failed("failed to locate thread before title update: ", &reason),
            ),
        }
    }
}

pub(crate) fn update_title<H: Host>(
    session_id: String,
    thread_id: String,
    title: String,
    thread: Option<Arc<H::Thread>>,
    outcome: Result<bool, String>,
) -> (progress: Progress<H>)
    ensures
        progress@ == title_updated::<H>(
            session_id@,
            thread_id@,
            title@,
            thread,
            told(outcome),
        ),
        shows_fitting_title(None, progress@),
{
    match outcome {
        Ok(known) => retitle_known_to_state(session_id, thread_id, title, thread, known),
        Err(reason) => Progress::fail(Error::failed("failed to update thread title: ", &reason)),
    }
}

pub(crate) fn update_located_title<H: Host>(
    session_id: String,
    thread_id: String,
    title: String,
    outcome: Result<bool, String>,
) -> (progress: Progress<H>)
    ensures
        progress@ == located_title_updated::<H>(
            session_id@,
            thread_id@,
            title@,
            told(outcome),
        ),
{
    match outcome {
        Ok(_) => index(session_id, thread_id, title),
        Err(reason) => Progress::fail(Error::failed("failed to update thread title: ", &reason)),
    }
}

pub(crate) fn show_indexed_title<H: Host>(
    session_id: String,
    title: String,
    outcome: Result<(), String>,
) -> (progress: Progress<H>)
    ensures
        progress@ == title_indexed::<H>(session_id@, title@, told(outcome)),
        shows_fitting_title(Some(title@), progress@),
{
    match outcome {
        Ok(()) => {
            let shown: Option<String> = notification_title_for_update(title.as_str());
            Progress::Pending {
                task: Task::NotifyingTitle,
                action: Action::NotifyTitle { session_id, shown },
            }
        },
        Err(reason) => Progress::fail(Error::failed("failed to index thread title: ", &reason)),
    }
}

pub(crate) fn finish_title<H: Host>(outcome: Result<(), Error>) -> (progress: Progress<H>)
    ensures
        progress@ == title_shown::<H>(answered(outcome)),
{
    match outcome {
        Ok(()) => Progress::succeed(Response::SetSessionTitle),
        Err(error) => Progress::fail(error),
    }
}

} // verus!
