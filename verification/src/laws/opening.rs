//! What holds of a request that opens a session.

use crate::action::{history_items, ActionView, ReplyView};
use crate::agent::thread_of;
use crate::config::{session_config, McpServerView, SessionConfigView};
use crate::error::{not_found_error, ErrorView};
use crate::laws::run::{
    asks, is_run, lemma_goes_on, lemma_remaining_falls, outcome, went_well, Run,
};
use crate::protocol::{Host, RequestView, ResponseView};
use crate::task::{fail, succeed, OpeningView, ProgressView, TaskView};
use std::sync::Arc;
use vstd::prelude::*;

verus! {

/// The request opens a session.
pub open spec fn opens_session<H: Host>(request: RequestView<H>) -> bool {
    request is NewSession || request is LoadSession || request is ResumeSession
}

/// The recorded session that a request opens.
pub open spec fn recorded_session<H: Host>(request: RequestView<H>) -> Option<Seq<char>> {
    match request {
        RequestView::LoadSession { session_id, .. } => Some(session_id),
        RequestView::ResumeSession { session_id, .. } => Some(session_id),
        _ => None,
    }
}

/// The MCP servers that are asked for with a session.
pub open spec fn requested_servers<H: Host>(request: RequestView<H>) -> Seq<McpServerView> {
    match request {
        RequestView::NewSession { mcp_servers, .. } => mcp_servers,
        RequestView::LoadSession { mcp_servers, .. } => mcp_servers,
        RequestView::ResumeSession { mcp_servers, .. } => mcp_servers,
        _ => Seq::empty(),
    }
}

/// The working directory that is asked for with a session.
pub open spec fn requested_cwd<H: Host>(request: RequestView<H>) -> Seq<char> {
    match request {
        RequestView::NewSession { cwd, .. } => cwd,
        RequestView::LoadSession { cwd, .. } => cwd,
        RequestView::ResumeSession { cwd, .. } => cwd,
        _ => Seq::empty(),
    }
}

/// Before the step `i` it was known that this is the absolute path of the
/// working directory that was asked for.
pub open spec fn has_resolved_cwd<H: Host>(run: Run<H>, i: int, cwd: Seq<char>) -> bool {
    exists|j: int|
        0 <= j < i && j < run.replies.len() && asks(
            run,
            j,
            ActionView::ResolveCwd { cwd: requested_cwd(run.request) },
        ) && #[trigger] run.replies[j] == ReplyView::<H>::Resolved(Ok(cwd))
}

/// The configuration is made of the settings, the absolute path of the working
/// directory that was asked for, and the MCP servers that were asked for.
pub open spec fn is_configured<H: Host>(run: Run<H>, i: int, config: SessionConfigView) -> bool {
    &&& has_resolved_cwd(run, i, config.cwd)
    &&& session_config(
        run.before[0].settings,
        Ok(config.cwd),
        requested_servers(run.request),
    ) == Ok::<SessionConfigView, ErrorView>(config)
}

/// Before the step `i` the history with these items was read.
pub open spec fn has_read_history<H: Host>(run: Run<H>, i: int, items: Seq<H::HistoryItem>) -> bool {
    exists|j: int|
        0 <= j < i && j < run.replies.len() && (#[trigger] run.replies[j] matches ReplyView::History(
            Ok(history),
        ) && items == history_items(history))
}

/// Before the step `i` the history was shown.
pub open spec fn has_shown_history<H: Host>(run: Run<H>, i: int) -> bool {
    exists|j: int, thread: Arc<H::Thread>, items: Seq<H::HistoryItem>|
        0 <= j < i && j < run.replies.len() && #[trigger] asks(
            run,
            j,
            ActionView::ReplayHistory { thread, items },
        ) && went_well(run.replies[j]) && has_read_history(run, j, items)
}

/// Before the step `i` the thread of this identifier was started, and the
/// working directory went on record.
pub open spec fn has_started<H: Host>(run: Run<H>, i: int, session_id: Seq<char>) -> bool {
    exists|j: int, config: SessionConfigView|
        0 <= j < i && j < run.replies.len() && #[trigger] asks(
            run,
            j,
            ActionView::StartThread { config },
        ) && run.replies[j] == ReplyView::<H>::Started(Ok(session_id)) && is_configured(
            run,
            j,
            config,
        ) && run.after[j + 1].session_roots.contains_key(session_id)
            && run.after[j + 1].session_roots[session_id] == config.cwd
}

/// What is known of the session matches the request.
spec fn matches_request<H: Host>(run: Run<H>, i: int, opening: OpeningView<H>) -> bool {
    match opening {
        OpeningView::New => run.request is NewSession,
        OpeningView::Recorded { session_id, rollout_path, history } => {
            &&& recorded_session(run.request) == Some(session_id)
            &&& history_matches(run, i, history)
        },
    }
}

spec fn history_matches<H: Host>(
    run: Run<H>,
    i: int,
    history: Option<Seq<H::HistoryItem>>,
) -> bool {
    match history {
        Some(items) => run.request is LoadSession && has_read_history(run, i, items),
        None => run.request is ResumeSession,
    }
}

/// Where a request that opens a session can stand.
spec fn is_opening_stage<H: Host>(run: Run<H>, i: int) -> bool {
    match run.progress[i] {
        ProgressView::Pending { task, action } => match task {
            TaskView::CheckingAuth { request } => request == run.request && action is ReadAuth,
            TaskView::RecheckingAuth { request } => request == run.request && action is ReloadAuth,
            TaskView::FindingRecord { session_id, cwd, mcp_servers, replay_history } => {
                &&& recorded_session(run.request) == Some(session_id)
                &&& cwd == requested_cwd(run.request)
                &&& mcp_servers == requested_servers(run.request)
                &&& replay_history == (run.request is LoadSession)
                &&& action == (ActionView::<H>::FindRollout { session_id })
            },
            TaskView::ReadingHistory { session_id, cwd, mcp_servers, rollout_path } => {
                &&& recorded_session(run.request) == Some(session_id)
                &&& cwd == requested_cwd(run.request)
                &&& mcp_servers == requested_servers(run.request)
                &&& run.request is LoadSession
                &&& action == (ActionView::<H>::ReadHistory { rollout_path })
            },
            TaskView::ResolvingCwd { opening, mcp_servers } => {
                &&& matches_request(run, i, opening)
                &&& mcp_servers == requested_servers(run.request)
                &&& action == (ActionView::<H>::ResolveCwd { cwd: requested_cwd(run.request) })
            },
            TaskView::InstallingServers { opening, config } => {
                &&& matches_request(run, i, opening)
                &&& is_configured(run, i, config)
                &&& action == (ActionView::<H>::InstallServers { config })
            },
            TaskView::StartingThread { config } => {
                &&& run.request is NewSession
                &&& is_configured(run, i, config)
                &&& action == (ActionView::<H>::StartThread { config })
            },
            TaskView::OpeningNew { session_id } => {
                &&& run.request is NewSession
                &&& has_started(run, i, session_id)
                &&& action matches ActionView::OpenThread { session_id: s, config } && s
                    == session_id && is_configured(run, i, config)
            },
            TaskView::LoadingNew { session_id, thread } => {
                &&& run.request is NewSession
                &&& has_started(run, i, session_id)
                &&& action == (ActionView::<H>::LoadThread { thread })
            },
            TaskView::ResumingThread { session_id, config, history } => {
                &&& recorded_session(run.request) == Some(session_id)
                &&& history_matches(run, i, history)
                &&& is_configured(run, i, config)
                &&& action matches ActionView::ResumeThread { config: c, rollout_path } && c
                    == config
            },
            TaskView::OpeningRecorded { session_id, cwd, history } => {
                &&& recorded_session(run.request) == Some(session_id)
                &&& history_matches(run, i, history)
                &&& has_resolved_cwd(run, i, cwd)
                &&& action matches ActionView::OpenThread { session_id: s, config } && s
                    == session_id && is_configured(run, i, config)
            },
            TaskView::ReplayingHistory { session_id, cwd, thread } => {
                &&& recorded_session(run.request) == Some(session_id)
                &&& run.request is LoadSession
                &&& has_resolved_cwd(run, i, cwd)
                &&& action matches ActionView::ReplayHistory { thread: t, items } && t == thread
                    && has_read_history(run, i, items)
            },
            TaskView::LoadingRecorded { session_id, cwd, thread, replay_history } => {
                &&& recorded_session(run.request) == Some(session_id)
                &&& replay_history == (run.request is LoadSession)
                &&& replay_history ==> has_shown_history(run, i)
                &&& has_resolved_cwd(run, i, cwd)
                &&& action == (ActionView::<H>::LoadThread { thread })
            },
            _ => false,
        },
        ProgressView::Unanswered { .. } => true,
        ProgressView::Finished { answer } => answer is Ok ==> i > 0 && match answer->Ok_0 {
            ResponseView::NewSession { .. } => run.request is NewSession,
            ResponseView::LoadSession { .. } => run.request is LoadSession,
            ResponseView::ResumeSession { .. } => run.request is ResumeSession,
            _ => false,
        },
    }
}

proof fn lemma_later<H: Host>(run: Run<H>, i: int)
    ensures
        forall|cwd: Seq<char>| #[trigger]
            has_resolved_cwd(run, i, cwd) ==> has_resolved_cwd(run, i + 1, cwd),
        forall|items: Seq<H::HistoryItem>| #[trigger]
            has_read_history(run, i, items) ==> has_read_history(run, i + 1, items),
        forall|session_id: Seq<char>| #[trigger]
            has_started(run, i, session_id) ==> has_started(run, i + 1, session_id),
{
}

proof fn lemma_opening_stage<H: Host>(run: Run<H>, i: int)
    requires
        is_run(run),
        opens_session(run.request),
        0 <= i < run.progress.len(),
    ensures
        is_opening_stage(run, i),
    decreases i,
{
    if i > 0 {
        lemma_opening_stage(run, i - 1);
        lemma_goes_on(run, i - 1);
        lemma_later(run, i - 1);
        let task = run.progress[i - 1]->Pending_task;
        let action = run.progress[i - 1]->Pending_action;
        assert(asks(run, i - 1, action));
        match task {
            TaskView::ResolvingCwd { opening, mcp_servers } => {
                if run.progress[i] is Pending {
                    assert(run.replies[i - 1] is Resolved);
                    let cwd = run.replies[i - 1]->Resolved_0->Ok_0;
                    assert(run.replies[i - 1] == ReplyView::<H>::Resolved(Ok(cwd)));
                    assert(has_resolved_cwd(run, i, cwd));
                }
            },
            TaskView::ReadingHistory { .. } => {
                if run.progress[i] is Pending {
                    let history = run.replies[i - 1]->History_0->Ok_0;
                    assert(has_read_history(run, i, history_items(history)));
                }
            },
            TaskView::StartingThread { config } => {
                if run.progress[i] is Pending {
                    let session_id = run.replies[i - 1]->Started_0->Ok_0;
                    assert(run.replies[i - 1] == ReplyView::<H>::Started(Ok(session_id)));
                    assert(asks(run, i - 1, ActionView::StartThread { config }));
                    assert(has_started(run, i, session_id));
                }
            },
            TaskView::ReplayingHistory { thread, .. } => {
                if run.progress[i] is Pending {
                    let items = action->ReplayHistory_items;
                    assert(asks(run, i - 1, ActionView::ReplayHistory { thread, items }));
                    assert(has_shown_history(run, i));
                }
            },
            _ => {},
        }
    }
}

/// Which session a request has opened, if it has come to that.
pub open spec fn opened_session<H: Host>(run: Run<H>) -> Option<Seq<char>> {
    match outcome(run) {
        ProgressView::Finished { answer: Ok(ResponseView::NewSession { session_id, .. }) } => Some(
            session_id,
        ),
        ProgressView::Finished { answer: Ok(ResponseView::LoadSession { .. }) } => recorded_session(
            run.request,
        ),
        ProgressView::Finished { answer: Ok(ResponseView::ResumeSession { .. }) } =>
        recorded_session(run.request),
        _ => None,
    }
}

/// A session that was opened is in use, on the thread that was made ready last.
pub proof fn opened_sessions_are_in_use<H: Host>(run: Run<H>)
    requires
        is_run(run),
        opens_session(run.request),
        outcome(run) is Finished,
        outcome(run)->answer is Ok,
    ensures
        opened_session(run) is Some,
        run.replies.len() >= 1,
        exists|thread: Arc<H::Thread>| #[trigger]
            asks(run, run.replies.len() - 1, ActionView::LoadThread { thread }) && thread_of(
                run.after.last(),
                opened_session(run)->0,
            ) == Some(thread),
{
    let n = run.replies.len() as int;
    lemma_opening_stage(run, n);
    lemma_opening_stage(run, n - 1);
    lemma_goes_on(run, n - 1);
    match run.progress[n - 1]->Pending_task {
        TaskView::LoadingNew { session_id, thread } => {
            assert(asks(run, n - 1, ActionView::LoadThread { thread }));
        },
        TaskView::LoadingRecorded { session_id, cwd, thread, replay_history } => {
            assert(asks(run, n - 1, ActionView::LoadThread { thread }));
        },
        _ => {
            assert(false);
        },
    }
}

/// The client is told of the session what its thread said when it was ready.
pub proof fn opened_sessions_are_described<H: Host>(run: Run<H>)
    requires
        is_run(run),
        opens_session(run.request),
        outcome(run) is Finished,
        outcome(run)->answer is Ok,
    ensures
        run.replies.len() >= 1,
        run.replies.last() matches ReplyView::Loaded(Ok(state)) && outcome(run) == succeed(
            match run.request {
                RequestView::LoadSession { .. } => ResponseView::<H>::LoadSession { state },
                RequestView::ResumeSession { .. } => ResponseView::ResumeSession { state },
                _ => ResponseView::NewSession { session_id: opened_session(run)->0, state },
            },
        ),
{
    let n = run.replies.len() as int;
    lemma_opening_stage(run, n);
    lemma_opening_stage(run, n - 1);
    lemma_goes_on(run, n - 1);
}

/// A new session has the identifier of the thread that was started for it, and
/// its working directory went on record when the thread was started.
pub proof fn new_sessions_belong_to_their_thread<H: Host>(run: Run<H>)
    requires
        is_run(run),
        run.request is NewSession,
        outcome(run) is Finished,
        outcome(run)->answer is Ok,
    ensures
        opened_session(run) is Some,
        has_started(run, run.replies.len() as int, opened_session(run)->0),
{
    let n = run.replies.len() as int;
    lemma_opening_stage(run, n);
    lemma_opening_stage(run, n - 1);
    lemma_goes_on(run, n - 1);
    lemma_later(run, n - 1);
}

/// A recorded session that was opened has the absolute path of the working
/// directory that was asked for on record.
pub proof fn recorded_sessions_have_their_cwd<H: Host>(run: Run<H>)
    requires
        is_run(run),
        recorded_session(run.request) is Some,
        outcome(run) is Finished,
        outcome(run)->answer is Ok,
    ensures
        ({
            let session_id = recorded_session(run.request)->0;
            let roots = run.after.last().session_roots;
            roots.contains_key(session_id) && has_resolved_cwd(
                run,
                run.replies.len() as int,
                roots[session_id],
            )
        }),
{
    let n = run.replies.len() as int;
    lemma_opening_stage(run, n);
    lemma_opening_stage(run, n - 1);
    lemma_goes_on(run, n - 1);
    lemma_later(run, n - 1);
}

/// The configuration that an action hands on.
pub open spec fn handed_config<H: Host>(action: ActionView<H>) -> Option<SessionConfigView> {
    match action {
        ActionView::InstallServers { config } => Some(config),
        ActionView::StartThread { config } => Some(config),
        ActionView::ResumeThread { config, .. } => Some(config),
        ActionView::OpenThread { config, .. } => Some(config),
        _ => None,
    }
}

/// Every thread of a session is started with the configuration that was asked
/// for with the session.
pub proof fn threads_are_configured_as_asked<H: Host>(run: Run<H>, i: int, action: ActionView<H>)
    requires
        is_run(run),
        opens_session(run.request),
        asks(run, i, action),
        handed_config(action) is Some,
    ensures
        is_configured(run, i, handed_config(action)->0),
{
    lemma_opening_stage(run, i);
}

/// Loading a session shows its history before the session is open.
pub proof fn loaded_sessions_show_their_history<H: Host>(run: Run<H>)
    requires
        is_run(run),
        run.request is LoadSession,
        outcome(run) is Finished,
        outcome(run)->answer is Ok,
    ensures
        has_shown_history(run, run.replies.len() as int),
{
    let n = run.replies.len() as int;
    lemma_opening_stage(run, n);
    lemma_opening_stage(run, n - 1);
    lemma_goes_on(run, n - 1);
    let (j, thread, items) = choose|j: int, thread: Arc<H::Thread>, items: Seq<H::HistoryItem>|
        0 <= j < n - 1 && j < run.replies.len() && #[trigger] asks(
            run,
            j,
            ActionView::ReplayHistory { thread, items },
        ) && went_well(run.replies[j]) && has_read_history(run, j, items);
    assert(asks(run, j, ActionView::ReplayHistory { thread, items }));
}

/// Resuming a session neither reads nor shows its history.
pub proof fn resumed_sessions_show_no_history<H: Host>(run: Run<H>, i: int, action: ActionView<H>)
    requires
        is_run(run),
        run.request is ResumeSession,
        asks(run, i, action),
    ensures
        !(action is ReadHistory),
        !(action is ReplayHistory),
{
    lemma_opening_stage(run, i);
}

/// A session without a record is not found, and nothing has changed.
pub proof fn sessions_without_record_are_not_found<H: Host>(run: Run<H>, i: int)
    requires
        is_run(run),
        recorded_session(run.request) is Some,
        0 <= i < run.replies.len(),
        asks(run, i, ActionView::FindRollout { session_id: recorded_session(run.request)->0 }),
        run.replies[i] == ReplyView::<H>::Rollout(Ok(None)),
    ensures
        outcome(run) == fail::<H>(not_found_error()),
        run.replies.len() == i + 1,
        forall|j: int| 0 <= j < run.after.len() ==> #[trigger] run.after[j] == run.before[j],
{
    lemma_opening_stage(run, i);
    lemma_goes_on(run, i);
    if run.replies.len() > i + 1 {
        lemma_goes_on(run, i + 1);
    }
    assert forall|j: int| 0 <= j < run.after.len() implies #[trigger] run.after[j]
        == run.before[j] by {
        if j > 0 {
            lemma_goes_on(run, j - 1);
            lemma_opening_stage(run, j - 1);
            if j - 1 < i {
                lemma_remaining_falls(run, j - 1, i);
            }
        }
    }
}

/// A session is open only when the client has its answer: no earlier step, and
/// no request that fails, opens one. A request for a recorded session changes
/// nothing at all until then.
pub proof fn failed_requests_open_no_session<H: Host>(run: Run<H>, i: int)
    requires
        is_run(run),
        opens_session(run.request),
        0 <= i < run.after.len(),
        i < run.replies.len() || opened_session(run) is None,
    ensures
        run.after[i].sessions == run.before[i].sessions,
        recorded_session(run.request) is Some ==> run.after[i] == run.before[i],
{
    lemma_opening_stage(run, i);
    if i > 0 {
        lemma_opening_stage(run, i - 1);
        lemma_goes_on(run, i - 1);
        if i < run.replies.len() {
            lemma_goes_on(run, i);
        }
    }
}

} // verus!
