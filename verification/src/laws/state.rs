//! What holds of the agent's state, whatever requests it serves at the same
//! time.

use crate::action::{ActionView, ReplyView};
use crate::agent::{fresh_agent, thread_of, AgentView};
use crate::error::not_found_error;
use crate::protocol::{Host, RequestView};
use crate::serve::{dispatched, served, step};
use crate::settings::SettingsView;
use crate::task::{fail, ProgressView, TaskView};
use vstd::prelude::*;

verus! {

/// What the agent was told when it was made stays, and only an initialization
/// changes what is known of the client. Beginning to serve a request changes
/// nothing else.
pub proof fn beginning_keeps_sessions<H: Host>(agent: AgentView<H>, request: RequestView<H>)
    ensures
        served(agent, request).0.settings == agent.settings,
        served(agent, request).0.sessions == agent.sessions,
        served(agent, request).0.session_roots == agent.session_roots,
        !(request is Initialize) ==> served(agent, request).0 == agent,
        request matches RequestView::Initialize { client_capabilities, no_browser }
            ==> served(agent, request).0.client_capabilities == client_capabilities,
        served(agent, request).1 matches ProgressView::Pending { task, action } ==> is_plausible(
            task,
        ),
{
}

/// The session that a step of a task may change.
pub open spec fn changed_session<H: Host>(task: TaskView<H>, reply: ReplyView<H>) -> Option<
    Seq<char>,
> {
    match (task, reply) {
        (TaskView::StartingThread { .. }, ReplyView::Started(Ok(session_id))) => Some(session_id),
        (TaskView::LoadingNew { session_id, .. }, ReplyView::Loaded(Ok(_))) => Some(session_id),
        (TaskView::LoadingRecorded { session_id, .. }, ReplyView::Loaded(Ok(_))) => Some(
            session_id,
        ),
        (TaskView::RemovingThread { session_id }, ReplyView::Removed) => Some(session_id),
        _ => None,
    }
}

/// The agent knows the same of a session in both states.
pub open spec fn same_session<H: Host>(
    agent: AgentView<H>,
    after: AgentView<H>,
    session_id: Seq<char>,
) -> bool {
    &&& thread_of(after, session_id) == thread_of(agent, session_id)
    &&& after.session_roots.contains_key(session_id) == agent.session_roots.contains_key(session_id)
    &&& after.session_roots.contains_key(session_id) ==> after.session_roots[session_id]
        == agent.session_roots[session_id]
}

/// A request that waits for the authentication of its client is not an
/// initialization.
pub open spec fn is_plausible<H: Host>(task: TaskView<H>) -> bool {
    match task {
        TaskView::CheckingAuth { request } => !(request is Initialize),
        TaskView::RecheckingAuth { request } => !(request is Initialize),
        _ => true,
    }
}

/// A step changes one session at most, and nothing else.
pub proof fn steps_change_one_session<H: Host>(
    agent: AgentView<H>,
    task: TaskView<H>,
    reply: ReplyView<H>,
    after: AgentView<H>,
    progress: ProgressView<H>,
    session_id: Seq<char>,
)
    requires
        step(agent, task, reply, after, progress),
        is_plausible(task),
        changed_session(task, reply) != Some(session_id),
    ensures
        same_session(agent, after, session_id),
        after.settings == agent.settings,
        after.client_capabilities == agent.client_capabilities,
        progress matches ProgressView::Pending { task: next, action } ==> is_plausible(next),
{
}

/// Every open session has its working directory on record.
pub open spec fn roots_cover_sessions<H: Host>(agent: AgentView<H>) -> bool {
    forall|session_id: Seq<char>| #[trigger]
        agent.sessions.contains_key(session_id) ==> agent.session_roots.contains_key(session_id)
}

/// The working directory of a new session that is not open yet is on record.
pub open spec fn is_rooted<H: Host>(agent: AgentView<H>, task: TaskView<H>) -> bool {
    match task {
        TaskView::OpeningNew { session_id } => agent.session_roots.contains_key(session_id),
        TaskView::LoadingNew { session_id, .. } => agent.session_roots.contains_key(session_id),
        _ => true,
    }
}

/// An agent without sessions has all their working directories on record.
pub proof fn fresh_agents_are_covered<H: Host>(
    settings: SettingsView,
    client_capabilities: H::Capabilities,
)
    ensures
        roots_cover_sessions(fresh_agent::<H>(settings, client_capabilities)),
{
}

/// A request begins without a claim to a working directory.
pub proof fn requests_begin_rooted<H: Host>(agent: AgentView<H>, request: RequestView<H>)
    requires
        roots_cover_sessions(agent),
    ensures
        roots_cover_sessions(served(agent, request).0),
        served(agent, request).1 matches ProgressView::Pending { task, action } ==> is_rooted(
            served(agent, request).0,
            task,
        ),
{
}

/// Open sessions keep their working directories on record, with every step of
/// every request. A new session has its own on record before it is open.
pub proof fn steps_keep_roots<H: Host>(
    agent: AgentView<H>,
    task: TaskView<H>,
    reply: ReplyView<H>,
    after: AgentView<H>,
    progress: ProgressView<H>,
)
    requires
        step(agent, task, reply, after, progress),
        roots_cover_sessions(agent),
        is_rooted(agent, task),
    ensures
        roots_cover_sessions(after),
        progress matches ProgressView::Pending { task: next, action } ==> is_rooted(after, next),
{
}

/// A working directory stays on record until its session is closed.
pub proof fn roots_stay_until_closed<H: Host>(
    agent: AgentView<H>,
    task: TaskView<H>,
    reply: ReplyView<H>,
    after: AgentView<H>,
    progress: ProgressView<H>,
    waiting: TaskView<H>,
)
    requires
        step(agent, task, reply, after, progress),
        is_rooted(agent, waiting),
        task matches TaskView::RemovingThread { session_id } ==> match waiting {
            TaskView::OpeningNew { session_id: opening } => opening != session_id,
            TaskView::LoadingNew { session_id: opening, .. } => opening != session_id,
            _ => true,
        },
    ensures
        is_rooted(after, waiting),
{
}

/// A session stays open, on the same thread, until it is opened anew or closed.
pub proof fn sessions_stay_open<H: Host>(
    agent: AgentView<H>,
    task: TaskView<H>,
    reply: ReplyView<H>,
    after: AgentView<H>,
    progress: ProgressView<H>,
    session_id: Seq<char>,
)
    requires
        step(agent, task, reply, after, progress),
        thread_of(agent, session_id) is Some,
        task matches TaskView::RemovingThread { session_id: closing } ==> closing != session_id,
    ensures
        thread_of(after, session_id) is Some,
        changed_session(task, reply) != Some(session_id) ==> thread_of(after, session_id)
            == thread_of(agent, session_id),
{
}

/// The session that a request has to find open.
pub open spec fn session_to_use<H: Host>(request: RequestView<H>) -> Option<Seq<char>> {
    match request {
        RequestView::CloseSession { session_id } => Some(session_id),
        RequestView::Prompt { session_id, .. } => Some(session_id),
        RequestView::Cancel { session_id } => Some(session_id),
        RequestView::SetSessionMode { session_id, .. } => Some(session_id),
        RequestView::SetSessionConfigOption { session_id, .. } => Some(session_id),
        _ => None,
    }
}

/// A session that is not open cannot be used.
pub proof fn closed_sessions_are_not_found<H: Host>(agent: AgentView<H>, request: RequestView<H>)
    requires
        session_to_use(request) is Some,
        thread_of(agent, session_to_use(request)->0) is None,
    ensures
        dispatched(agent, request) == (agent, fail::<H>(not_found_error())),
        !(request is Prompt) ==> served(agent, request) == (agent, fail::<H>(not_found_error())),
{
}

/// A session that is open is used by way of its thread.
pub proof fn open_sessions_are_used<H: Host>(agent: AgentView<H>, request: RequestView<H>)
    requires
        session_to_use(request) is Some,
        thread_of(agent, session_to_use(request)->0) is Some,
    ensures
        ({
            let thread = thread_of(agent, session_to_use(request)->0)->0;
            let (after, progress) = dispatched(agent, request);
            &&& after == agent
            &&& progress is Pending
            &&& match request {
                RequestView::CloseSession { .. } => progress->Pending_action
                    == ActionView::<H>::ShutdownThread { thread },
                RequestView::Prompt { prompt, .. } => progress->Pending_action
                    == ActionView::<H>::PromptThread { thread, prompt },
                RequestView::Cancel { .. } => progress->Pending_action
                    == ActionView::<H>::CancelThread { thread },
                RequestView::SetSessionMode { mode_id, .. } => progress->Pending_action
                    == ActionView::<H>::SetThreadMode { thread, mode_id },
                RequestView::SetSessionConfigOption { config_id, value, .. } =>
                progress->Pending_action
                    == ActionView::<H>::SetThreadConfigOption {
                    thread,
                    config_id,
                    value,
                },
                _ => true,
            }
        }),
{
}

} // verus!
