//! The course that each request takes: what is asked for, in which order and
//! with what, what each reply leads to, how the client is answered, and what
//! changes.

use crate::action::{ActionView, ReplyView};
use crate::agent::AgentView;
use crate::error::{ErrorDataView, ErrorView};
use crate::laws::run::{asks, is_run, lemma_goes_on, lemma_remaining_falls, Run};
use crate::protocol::{Host, RequestView, ResponseView};
use crate::serve::{dispatched, step};
use crate::session_title::title_requested;
use crate::session_use::thread_released;
use crate::task::{ProgressView, TaskView};
use crate::thread_id::thread_id_in;
use crate::title::session_title;
use vstd::prelude::*;

verus! {

/// The agent failed, and says why.
pub open spec fn failure_of(reason: Seq<char>) -> ErrorView {
    ErrorView {
        code: (-32603) as i32,
        message: "Internal error"@,
        data: Some(ErrorDataView::Text(reason)),
    }
}

/// The agent failed, and does not say why.
pub open spec fn bare_failure() -> ErrorView {
    ErrorView { code: (-32603) as i32, message: "Internal error"@, data: None }
}

/// There is no such thing.
pub open spec fn missing() -> ErrorView {
    ErrorView { code: (-32002) as i32, message: "Resource not found"@, data: None }
}

/// The client has to authenticate first.
pub open spec fn unauthenticated() -> ErrorView {
    ErrorView { code: (-32000) as i32, message: "Authentication required"@, data: None }
}

/// The client is answered this with the step `i`, and that is the end.
pub open spec fn ends<H: Host>(
    run: Run<H>,
    i: int,
    answer: Result<ResponseView<H>, ErrorView>,
) -> bool {
    run.replies.len() == i && run.progress.len() == i + 1 && run.progress[i] == (
    ProgressView::Finished { answer })
}

/// The step `i` leaves the agent as it was.
pub open spec fn keeps_agent<H: Host>(run: Run<H>, i: int) -> bool {
    i < run.after.len() ==> run.after[i] == run.before[i]
}

/// Only authenticated clients may ask for this.
pub open spec fn wants_auth<H: Host>(agent: AgentView<H>, request: RequestView<H>) -> bool {
    &&& agent.settings.model_provider_id == "openai"@
    &&& request is NewSession || request is LoadSession || request is ResumeSession
        || request is ListSessions || request is Prompt || request is SetSessionTitle
}

/// The step with which a request is taken up: the first where the client need
/// not be authenticated, and otherwise the one after it is known to be. There
/// may be none.
pub open spec fn start<H: Host>(run: Run<H>) -> Option<int> {
    if !wants_auth(run.before[0], run.request) {
        Some(0)
    } else if run.replies.len() >= 1 && (run.replies[0] matches ReplyView::Auth(auth)
        && auth is Some) {
        Some(1)
    } else if run.replies.len() >= 2 && (run.replies[0] matches ReplyView::Auth(auth)
        && auth is None) && run.replies[1] == ReplyView::<H>::Reloaded(true) {
        Some(2)
    } else {
        None
    }
}

/// A request that only authenticated clients may make asks how the agent is
/// authenticated, then, if it is not, for changed credentials, and without
/// these it is refused. Nothing else is asked for, and nothing changes. No
/// other request asks for that.
pub proof fn clients_are_checked_first<H: Host>(run: Run<H>)
    requires
        is_run(run),
        wants_auth(run.before[0], run.request),
    ensures
        asks(run, 0, ActionView::ReadAuth),
        keeps_agent(run, 0),
        run.replies.len() > 0 && run.replies[0] == ReplyView::<H>::Auth(None) ==> asks(
            run,
            1,
            ActionView::ReloadAuth,
        ) && keeps_agent(run, 1),
        run.replies.len() > 1 && run.replies[0] == ReplyView::<H>::Auth(None) && run.replies[1]
            == ReplyView::<H>::Reloaded(false) ==> ends(run, 2, Err(unauthenticated()))
            && keeps_agent(run, 2),
        start(run) is None && run.replies.len() > 1 ==> run.replies.len() == 2,
{
    if run.replies.len() > 0 {
        lemma_goes_on(run, 0);
    }
    if run.replies.len() > 1 {
        lemma_goes_on(run, 1);
    }
    if run.replies.len() > 2 {
        lemma_goes_on(run, 2);
    }
}

/// A request that is taken up begins as it is to begin.
pub proof fn lemma_start<H: Host>(run: Run<H>)
    requires
        is_run(run),
    ensures
        start(run) matches Some(s) ==> {
            &&& 0 <= s < run.progress.len()
            &&& (run.after[s], run.progress[s]) == dispatched(run.before[s], run.request)
            &&& run.before[s].settings == run.before[0].settings
        },
{
    if wants_auth(run.before[0], run.request) && start(run) is Some {
        lemma_goes_on(run, 0);
        if start(run) == Some(2int) {
            lemma_goes_on(run, 1);
        }
    }
}

/// Goes from one step to the next, if there is one.
pub proof fn lemma_next<H: Host>(run: Run<H>, i: int)
    requires
        is_run(run),
        0 <= i,
    ensures
        i < run.replies.len() ==> run.progress[i] is Pending && step(
            run.before[i + 1],
            run.progress[i]->Pending_task,
            run.replies[i],
            run.after[i + 1],
            run.progress[i + 1],
        ) && run.before[i + 1].settings == run.before[0].settings,
{
    if i < run.replies.len() {
        lemma_goes_on(run, i);
    }
}

/// A rename first gives the title to the state database, if there is one. Then
/// the thread of an open session takes it, whether the database knew the
/// session or not. Where the session is not open, the title goes to the index
/// if the database knew it, and otherwise the session's record is looked for.
/// Only an identifier that cannot be read, or a database that fails, ends it
/// here.
pub proof fn renames_reach_the_session<H: Host>(
    run: Run<H>,
    session_id: Seq<char>,
    title: Seq<char>,
    s: int,
)
    requires
        is_run(run),
        run.request == (RequestView::<H>::SetSessionTitle { session_id, title }),
        start(run) == Some(s),
    ensures
        keeps_agent(run, s),
        thread_id_in(session_id) matches Err(reason) ==> ends(run, s, Err(failure_of(reason))),
        thread_id_in(session_id) matches Ok(thread_id) ==> {
            let agent = run.before[s];
            let open = agent.sessions.contains_key(session_id);
            let thread = agent.sessions[session_id];
            let shown = session_title(title);
            &&& !agent.settings.has_state_db && open ==> asks(
                run,
                s,
                ActionView::SetThreadTitle { thread, title, shown },
            )
            &&& !agent.settings.has_state_db && !open ==> asks(
                run,
                s,
                ActionView::FindRollout { session_id },
            )
            &&& agent.settings.has_state_db ==> {
                &&& asks(run, s, ActionView::UpdateStateTitle { thread_id, title })
                &&& run.replies.len() > s ==> keeps_agent(run, s + 1) && match run.replies[s] {
                    ReplyView::TitleUpdated(Ok(known)) => if open {
                        asks(run, s + 1, ActionView::SetThreadTitle { thread, title, shown })
                    } else if known {
                        asks(run, s + 1, ActionView::AppendThreadName { thread_id, title })
                    } else {
                        asks(run, s + 1, ActionView::FindRollout { session_id })
                    },
                    ReplyView::TitleUpdated(Err(reason)) => ends(
                        run,
                        s + 1,
                        Err(failure_of("failed to update thread title: "@ + reason)),
                    ),
                    _ => true,
                }
            }
        },
{
    lemma_start(run);
    lemma_next(run, s);
    lemma_next(run, s + 1);
}

/// Where a rename has come once it has reached the session.
spec fn is_late_rename<H: Host>(
    run: Run<H>,
    session_id: Seq<char>,
    title: Seq<char>,
    i: int,
) -> bool {
    &&& run.progress[i] is Pending
    &&& match run.progress[i]->Pending_action {
        ActionView::SetThreadTitle { .. } => run.progress[i]->Pending_task is TitlingThread,
        ActionView::FindRollout { .. } => thread_id_in(session_id) is Ok
            && run.progress[i]->Pending_task == (TaskView::<H>::LocatingRecord {
            session_id,
            thread_id: thread_id_in(session_id)->Ok_0,
            title,
        }),
        ActionView::AppendThreadName { .. } => run.progress[i]->Pending_task == (TaskView::<
            H,
        >::IndexingTitle { session_id, title }),
        ActionView::NotifyTitle { .. } => run.progress[i]->Pending_task is NotifyingTitle,
        _ => true,
    }
}

proof fn lemma_late_rename<H: Host>(
    run: Run<H>,
    session_id: Seq<char>,
    title: Seq<char>,
    i: int,
)
    requires
        is_run(run),
        run.request == (RequestView::<H>::SetSessionTitle { session_id, title }),
        0 <= i < run.progress.len(),
        run.progress[i] is Pending,
    ensures
        is_late_rename(run, session_id, title, i),
        match run.progress[i]->Pending_task {
            TaskView::CheckingAuth { request } => request == run.request,
            TaskView::RecheckingAuth { request } => request == run.request,
            TaskView::UpdatingTitle { session_id: id, thread_id, title: t, .. } => id == session_id
                && t == title && thread_id_in(session_id) == Ok::<Seq<char>, Seq<char>>(thread_id),
            TaskView::UpdatingLocatedTitle { session_id: id, thread_id, title: t } => id
                == session_id && t == title && thread_id_in(session_id) == Ok::<
                Seq<char>,
                Seq<char>,
            >(thread_id) && i > 0 && run.progress[i - 1] is Pending
                && run.progress[i - 1]->Pending_task is LocatingRecord,
            TaskView::LocatingRecord { .. } => run.progress[i]->Pending_action is FindRollout,
            TaskView::IndexingTitle { .. } => run.progress[i]->Pending_action is AppendThreadName,
            TaskView::NotifyingTitle => run.progress[i]->Pending_action is NotifyTitle,
            TaskView::TitlingThread => run.progress[i]->Pending_action is SetThreadTitle,
            _ => false,
        },
    decreases i,
{
    if i > 0 {
        lemma_goes_on(run, i - 1);
        lemma_late_rename(run, session_id, title, i - 1);
    }
}

/// A rename of a session that is not open goes on once the session is known: a
/// record that is found lets the title go to the state database, if there is
/// one, and then to the index; after the index the client is shown the title;
/// and then, or when the session's thread has taken the title, the client is
/// answered. Only a record that is not there is missing. Every failure is told.
pub proof fn renames_are_completed<H: Host>(
    run: Run<H>,
    session_id: Seq<char>,
    title: Seq<char>,
    i: int,
    action: ActionView<H>,
)
    requires
        is_run(run),
        run.request == (RequestView::<H>::SetSessionTitle { session_id, title }),
        0 <= i < run.replies.len(),
        asks(run, i, action),
    ensures
        keeps_agent(run, i + 1),
        action is FindRollout ==> thread_id_in(session_id) is Ok && match run.replies[i] {
            ReplyView::Rollout(Ok(Some(_))) => if run.before[0].settings.has_state_db {
                asks(
                    run,
                    i + 1,
                    ActionView::UpdateStateTitle {
                        thread_id: thread_id_in(session_id)->Ok_0,
                        title,
                    },
                )
            } else {
                asks(
                    run,
                    i + 1,
                    ActionView::AppendThreadName {
                        thread_id: thread_id_in(session_id)->Ok_0,
                        title,
                    },
                )
            },
            ReplyView::Rollout(Ok(None)) => ends(run, i + 1, Err(missing())),
            ReplyView::Rollout(Err(reason)) => ends(
                run,
                i + 1,
                Err(failure_of("failed to locate thread before title update: "@ + reason)),
            ),
            _ => true,
        },
        action is UpdateStateTitle && i > 0 && run.progress[i - 1]->Pending_action is FindRollout
            ==> thread_id_in(session_id) is Ok && match run.replies[i] {
            ReplyView::TitleUpdated(Ok(_)) => asks(
                run,
                i + 1,
                ActionView::AppendThreadName { thread_id: thread_id_in(session_id)->Ok_0, title },
            ),
            ReplyView::TitleUpdated(Err(reason)) => ends(
                run,
                i + 1,
                Err(failure_of("failed to update thread title: "@ + reason)),
            ),
            _ => true,
        },
        action is AppendThreadName ==> match run.replies[i] {
            ReplyView::Done(Ok(_)) => asks(
                run,
                i + 1,
                ActionView::NotifyTitle { session_id, shown: session_title(title) },
            ),
            ReplyView::Done(Err(reason)) => ends(
                run,
                i + 1,
                Err(failure_of("failed to index thread title: "@ + reason)),
            ),
            _ => true,
        },
        action is NotifyTitle || action is SetThreadTitle ==> match run.replies[i] {
            ReplyView::Handled(Ok(_)) => ends(run, i + 1, Ok(ResponseView::SetSessionTitle)),
            ReplyView::Handled(Err(error)) => ends(run, i + 1, Err(error)),
            _ => true,
        },
{
    lemma_late_rename(run, session_id, title, i);
    lemma_goes_on(run, i);
    lemma_next(run, i + 1);
    if i > 0 {
        lemma_goes_on(run, i - 1);
        lemma_late_rename(run, session_id, title, i - 1);
    }
}

/// A rename tells that a session is missing only where its record was looked
/// for and is not there, or where what shows the title says so: never of a
/// session that is open or that the state database knows, and never of one that
/// has a record.
pub proof fn renames_miss_only_what_is_not_there<H: Host>(
    run: Run<H>,
    session_id: Seq<char>,
    title: Seq<char>,
    s: int,
)
    requires
        is_run(run),
        run.request == (RequestView::<H>::SetSessionTitle { session_id, title }),
        start(run) == Some(s),
        ends(run, run.replies.len() as int, Err(missing())),
    ensures
        run.replies.len() > s,
        run.replies.last() == ReplyView::<H>::Rollout(Ok(None)) || run.replies.last()
            == ReplyView::<H>::Handled(Err(missing())),
        run.replies.last() == ReplyView::<H>::Rollout(Ok(None)) ==> {
            &&& !run.before[s].sessions.contains_key(session_id)
            &&& forall|i: int|
                s <= i < run.replies.len() ==> #[trigger] run.replies[i] != ReplyView::<
                    H,
                >::TitleUpdated(Ok(true)) && !(run.replies[i] matches ReplyView::Rollout(Ok(found))
                    && found is Some)
        },
{
    let n = run.replies.len() as int;
    reveal_strlit("Internal error");
    reveal_strlit("Resource not found");
    lemma_start(run);
    lemma_next(run, s);
    lemma_next(run, s + 1);
    if n == s {
        assert(false);
    }
    lemma_goes_on(run, n - 1);
    lemma_late_rename(run, session_id, title, n - 1);
    if run.replies[n - 1] is Rollout {
        assert(run.progress[n - 1]->Pending_task is LocatingRecord);
        if n - 1 > s {
            lemma_goes_on(run, n - 2);
            lemma_late_rename(run, session_id, title, n - 2);
            lemma_remaining_falls(run, s, n - 1);
            if n - 2 > s {
                lemma_remaining_falls(run, s, n - 2);
                lemma_remaining_falls(run, n - 2, n - 1);
            }
        }
    }
}

/// What a rename and a closing go on with is the identifier of the thread that
/// was read, whatever it is; where none was read, the client is told why.
pub proof fn identifiers_are_used_as_read<H: Host>(
    agent: AgentView<H>,
    session_id: Seq<char>,
    title: Seq<char>,
    thread_id: Result<Seq<char>, Seq<char>>,
)
    ensures
        ({
            let renaming = title_requested(agent, session_id, title, thread_id);
            let closing = thread_released::<H>(session_id, thread_id);
            let open = agent.sessions.contains_key(session_id);
            let shown = session_title(title);
            match thread_id {
                Ok(thread_id) => {
                    &&& renaming is Pending
                    &&& renaming->Pending_action == if agent.settings.has_state_db {
                        ActionView::<H>::UpdateStateTitle { thread_id, title }
                    } else if open {
                        ActionView::SetThreadTitle {
                            thread: agent.sessions[session_id],
                            title,
                            shown,
                        }
                    } else {
                        ActionView::FindRollout { session_id }
                    }
                    &&& closing is Pending
                    &&& closing->Pending_action == (ActionView::<H>::RemoveThread { thread_id })
                },
                Err(reason) => {
                    let answer = Err(failure_of(reason));
                    &&& renaming == (ProgressView::<H>::Finished { answer })
                    &&& closing == (ProgressView::<H>::Finished { answer })
                },
            }
        }),
{
}

} // verus!
