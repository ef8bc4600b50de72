//! What holds of a request that gives a session a new title.

use crate::action::{ActionView, ReplyView};
use crate::agent::thread_of;
use crate::error::not_found_error;
use crate::laws::run::{
    asks, is_run, lemma_goes_on, lemma_remaining_falls, outcome, remaining, went_well, Run,
};
use crate::protocol::{Host, RequestView, ResponseView};
use crate::task::{fail, succeed, ProgressView, TaskView};
use crate::text::is_blank;
use crate::thread_id::thread_id_in;
use crate::title::{
    listed_title_is_notified_title, session_title, session_title_of_blank, stored_title,
};
use std::sync::Arc;
use vstd::prelude::*;

verus! {

/// Where a request for a new title can stand: what it knows is what was asked
/// for, and what it asks for fits that.
spec fn is_title_stage<H: Host>(
    session_id: Seq<char>,
    title: Seq<char>,
    progress: ProgressView<H>,
) -> bool {
    match progress {
        ProgressView::Pending { task, action } => match task {
            TaskView::CheckingAuth { request } => request == (RequestView::<
                H,
            >::SetSessionTitle { session_id, title }) && action is ReadAuth,
            TaskView::RecheckingAuth { request } => request == (RequestView::<
                H,
            >::SetSessionTitle { session_id, title }) && action is ReloadAuth,
            TaskView::UpdatingTitle { session_id: s, thread_id, title: t, thread } => s
                == session_id && t == title && thread_id_in(session_id) == Ok::<
                Seq<char>,
                Seq<char>,
            >(thread_id) && action == (ActionView::<H>::UpdateStateTitle { thread_id, title }),
            TaskView::LocatingRecord { session_id: s, thread_id, title: t } => s == session_id && t
                == title && thread_id_in(session_id) == Ok::<Seq<char>, Seq<char>>(thread_id)
                && action == (ActionView::<H>::FindRollout { session_id }),
            TaskView::UpdatingLocatedTitle { session_id: s, thread_id, title: t } => s == session_id
                && t == title && thread_id_in(session_id) == Ok::<Seq<char>, Seq<char>>(thread_id)
                && action == (ActionView::<H>::UpdateStateTitle { thread_id, title }),
            TaskView::IndexingTitle { session_id: s, title: t } => s == session_id && t == title
                && thread_id_in(session_id) is Ok && action == (ActionView::<H>::AppendThreadName {
                thread_id: thread_id_in(session_id)->Ok_0,
                title,
            }),
            TaskView::NotifyingTitle => action == (ActionView::<H>::NotifyTitle {
                session_id,
                shown: session_title(title),
            }),
            TaskView::TitlingThread => action matches ActionView::SetThreadTitle {
                thread,
                title: t,
                shown,
            } && t == title && shown == session_title(title),
            _ => false,
        },
        ProgressView::Unanswered { .. } => true,
        ProgressView::Finished { answer } => answer is Ok ==> answer->Ok_0 == ResponseView::<
            H,
        >::SetSessionTitle,
    }
}

proof fn lemma_title_stage<H: Host>(run: Run<H>, session_id: Seq<char>, title: Seq<char>, i: int)
    requires
        is_run(run),
        run.request == (RequestView::<H>::SetSessionTitle { session_id, title }),
        0 <= i < run.progress.len(),
    ensures
        is_title_stage(session_id, title, run.progress[i]),
    decreases i,
{
    if i > 0 {
        lemma_title_stage(run, session_id, title, i - 1);
        lemma_goes_on(run, i - 1);
    }
}

/// A session that was given a new title shows it. Either its thread has taken
/// the title, with the title to show; or the index of names has taken it, and
/// then the client was shown it.
pub proof fn new_titles_are_kept_and_shown<H: Host>(
    run: Run<H>,
    session_id: Seq<char>,
    title: Seq<char>,
)
    requires
        is_run(run),
        run.request == (RequestView::<H>::SetSessionTitle { session_id, title }),
        outcome(run) == succeed(ResponseView::<H>::SetSessionTitle),
    ensures
        ({
            let n = run.replies.len() as int;
            ||| {
                &&& n >= 1
                &&& exists|thread: Arc<H::Thread>| #[trigger]
                    asks(
                        run,
                        n - 1,
                        ActionView::SetThreadTitle { thread, title, shown: session_title(title) },
                    )
                &&& went_well(run.replies[n - 1])
            }
            ||| {
                &&& n >= 2
                &&& thread_id_in(session_id) is Ok
                &&& asks(
                    run,
                    n - 2,
                    ActionView::AppendThreadName {
                        thread_id: thread_id_in(session_id)->Ok_0,
                        title,
                    },
                )
                &&& went_well(run.replies[n - 2])
                &&& asks(
                    run,
                    n - 1,
                    ActionView::NotifyTitle { session_id, shown: session_title(title) },
                )
                &&& went_well(run.replies[n - 1])
            }
        }),
{
    let n = run.replies.len() as int;
    assert(n > 0);
    lemma_title_stage(run, session_id, title, n - 1);
    lemma_goes_on(run, n - 1);
    match run.progress[n - 1]->Pending_task {
        TaskView::TitlingThread => {
            let thread = run.progress[n - 1]->Pending_action->SetThreadTitle_thread;
            assert(asks(
                run,
                n - 1,
                ActionView::SetThreadTitle { thread, title, shown: session_title(title) },
            ));
        },
        _ => {
            assert(run.progress[n - 1]->Pending_task is NotifyingTitle);
            assert(n > 1);
            lemma_title_stage(run, session_id, title, n - 2);
            lemma_goes_on(run, n - 2);
        },
    }
}

/// The title that a rename shows is the title that a later listing shows,
/// whatever the preview.
pub proof fn shown_titles_are_listed<H: Host>(
    run: Run<H>,
    session_id: Seq<char>,
    title: Seq<char>,
    i: int,
    shown: Option<Seq<char>>,
    preview: Seq<char>,
)
    requires
        is_run(run),
        run.request == (RequestView::<H>::SetSessionTitle { session_id, title }),
        asks(run, i, ActionView::NotifyTitle { session_id, shown }),
    ensures
        shown == stored_title(Some(title), preview),
{
    lemma_title_stage(run, session_id, title, i);
    listed_title_is_notified_title(title, preview);
}

/// A blank title is kept as it is, and shown as no title.
pub proof fn blank_titles_are_shown_as_none<H: Host>(
    run: Run<H>,
    session_id: Seq<char>,
    title: Seq<char>,
    i: int,
    shown: Option<Seq<char>>,
)
    requires
        is_run(run),
        run.request == (RequestView::<H>::SetSessionTitle { session_id, title }),
        is_blank(title),
        asks(run, i, ActionView::NotifyTitle { session_id, shown }),
    ensures
        shown is None,
        i >= 1,
        thread_id_in(session_id) is Ok,
        asks(
            run,
            i - 1,
            ActionView::AppendThreadName { thread_id: thread_id_in(session_id)->Ok_0, title },
        ),
{
    lemma_title_stage(run, session_id, title, i);
    session_title_of_blank(title);
    assert(i > 0);
    lemma_title_stage(run, session_id, title, i - 1);
    lemma_goes_on(run, i - 1);
}

/// The request has learnt that there is such a session: the state database
/// knew it, or a record was found.
pub open spec fn knows_session<H: Host>(reply: ReplyView<H>) -> bool {
    match reply {
        ReplyView::TitleUpdated(Ok(known)) => known,
        ReplyView::Rollout(Ok(Some(_))) => true,
        _ => false,
    }
}

/// The index of names takes a title only for a session that is known.
pub proof fn only_known_sessions_are_indexed<H: Host>(
    run: Run<H>,
    session_id: Seq<char>,
    title: Seq<char>,
    i: int,
    thread_id: Seq<char>,
    indexed: Seq<char>,
)
    requires
        is_run(run),
        run.request == (RequestView::<H>::SetSessionTitle { session_id, title }),
        asks(run, i, ActionView::AppendThreadName { thread_id, title: indexed }),
    ensures
        indexed == title,
        thread_id_in(session_id) == Ok::<Seq<char>, Seq<char>>(thread_id),
        exists|j: int| 0 <= j < i && knows_session(#[trigger] run.replies[j]),
{
    lemma_title_stage(run, session_id, title, i);
    assert(i > 0);
    lemma_title_stage(run, session_id, title, i - 1);
    lemma_goes_on(run, i - 1);
    if run.progress[i - 1]->Pending_task is UpdatingLocatedTitle {
        assert(i > 1);
        lemma_title_stage(run, session_id, title, i - 2);
        lemma_goes_on(run, i - 2);
        assert(knows_session(run.replies[i - 2]));
    } else {
        assert(knows_session(run.replies[i - 1]));
    }
}

/// The action keeps or shows a title.
pub open spec fn leaves_trace<H: Host>(action: ActionView<H>) -> bool {
    action is AppendThreadName || action is NotifyTitle || action is SetThreadTitle
}

/// A session that is neither open nor known is not found. Nothing is kept of
/// the title, and nothing is shown.
pub proof fn missing_sessions_are_not_renamed<H: Host>(
    run: Run<H>,
    session_id: Seq<char>,
    title: Seq<char>,
    i: int,
)
    requires
        is_run(run),
        run.request == (RequestView::<H>::SetSessionTitle { session_id, title }),
        0 <= i < run.replies.len(),
        asks(run, i, ActionView::FindRollout { session_id }),
        run.replies[i] == ReplyView::<H>::Rollout(Ok(None)),
    ensures
        outcome(run) == fail::<H>(not_found_error()),
        forall|j: int, action: ActionView<H>| #[trigger]
            asks(run, j, action) ==> !leaves_trace(action),
{
    lemma_title_stage(run, session_id, title, i);
    lemma_goes_on(run, i);
    let n = run.replies.len() as int;
    assert(n == i + 1) by {
        if n > i + 1 {
            lemma_goes_on(run, i + 1);
        }
    }
    assert forall|j: int, action: ActionView<H>| #[trigger]
        asks(run, j, action) implies !leaves_trace(action) by {
        lemma_title_stage(run, session_id, title, j);
        if j < i {
            lemma_remaining_falls(run, j, i);
            assert(remaining(run.progress[i]) == 4);
        }
    }
}

/// At some point up to the step `i`, this was the thread of the session.
pub open spec fn had_thread<H: Host>(
    run: Run<H>,
    i: int,
    session_id: Seq<char>,
    thread: Option<Arc<H::Thread>>,
) -> bool {
    exists|d: int|
        0 <= d <= i && d < run.before.len() && thread == thread_of(
            #[trigger] run.before[d],
            session_id,
        )
}

spec fn is_founded<H: Host>(run: Run<H>, session_id: Seq<char>, i: int) -> bool {
    run.progress[i] matches ProgressView::Pending { task, action } ==> match task {
        TaskView::UpdatingTitle { thread, .. } => had_thread(run, i, session_id, thread),
        TaskView::LocatingRecord { .. }
        | TaskView::UpdatingLocatedTitle { .. }
        | TaskView::IndexingTitle { .. }
        | TaskView::NotifyingTitle => had_thread(run, i, session_id, None),
        TaskView::TitlingThread => action matches ActionView::SetThreadTitle { thread, .. }
            && had_thread(run, i, session_id, Some(thread)),
        _ => true,
    }
}

proof fn lemma_founded<H: Host>(run: Run<H>, session_id: Seq<char>, title: Seq<char>, i: int)
    requires
        is_run(run),
        run.request == (RequestView::<H>::SetSessionTitle { session_id, title }),
        0 <= i < run.progress.len(),
    ensures
        is_founded(run, session_id, i),
    decreases i,
{
    assert(had_thread(run, i, session_id, thread_of(run.before[i], session_id)));
    if i > 0 {
        lemma_founded(run, session_id, title, i - 1);
        lemma_title_stage(run, session_id, title, i - 1);
        lemma_goes_on(run, i - 1);
        assert forall|thread: Option<Arc<H::Thread>>| #[trigger]
            had_thread(run, i - 1, session_id, thread) implies had_thread(
            run,
            i,
            session_id,
            thread,
        ) by {
            let d = choose|d: int|
                0 <= d <= i - 1 && d < run.before.len() && thread == thread_of(
                    #[trigger] run.before[d],
                    session_id,
                );
            assert(thread == thread_of(run.before[d], session_id));
        }
    }
}

/// The thread that takes a title is the thread of the session; the index of
/// names takes a title, and the client is shown one, only where the session
/// was not open.
pub proof fn titles_go_where_the_session_is<H: Host>(
    run: Run<H>,
    session_id: Seq<char>,
    title: Seq<char>,
    i: int,
    action: ActionView<H>,
)
    requires
        is_run(run),
        run.request == (RequestView::<H>::SetSessionTitle { session_id, title }),
        asks(run, i, action),
    ensures
        action matches ActionView::SetThreadTitle { thread, .. } ==> had_thread(
            run,
            i,
            session_id,
            Some(thread),
        ),
        action is AppendThreadName || action is NotifyTitle ==> had_thread(
            run,
            i,
            session_id,
            None,
        ),
{
    lemma_title_stage(run, session_id, title, i);
    lemma_founded(run, session_id, title, i);
}

/// A rename changes no session of the agent's.
pub proof fn renames_keep_sessions<H: Host>(
    run: Run<H>,
    session_id: Seq<char>,
    title: Seq<char>,
    i: int,
)
    requires
        is_run(run),
        run.request == (RequestView::<H>::SetSessionTitle { session_id, title }),
        0 <= i < run.after.len(),
    ensures
        run.after[i] == run.before[i],
{
    if i > 0 {
        lemma_title_stage(run, session_id, title, i - 1);
        lemma_goes_on(run, i - 1);
    }
}

} // verus!
