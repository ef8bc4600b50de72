//! What holds of requests that use a session, close it, or list what is
//! stored.

use crate::action::{ActionView, ReplyView};
use crate::agent::{thread_of, without_session};
use crate::laws::run::{asks, is_run, lemma_goes_on, outcome, went_well, Run};
use crate::listing::{are_listed, listing_params};
use crate::protocol::{Host, RequestView, ResponseView};
use crate::task::{succeed, ProgressView, TaskView};
use crate::thread_id::thread_id_in;
use vstd::prelude::*;

verus! {

spec fn is_closing_stage<H: Host>(run: Run<H>, session_id: Seq<char>, i: int) -> bool {
    match run.progress[i] {
        ProgressView::Pending { task, action } => match task {
            TaskView::ShuttingDown { session_id: s } => i == 0 && s == session_id && (
            action matches ActionView::ShutdownThread { thread } && thread_of(
                run.before[0],
                session_id,
            ) == Some(thread)),
            TaskView::RemovingThread { session_id: s } => i == 1 && s == session_id && went_well(
                run.replies[0],
            ) && thread_id_in(session_id) is Ok && action == (ActionView::<H>::RemoveThread {
                thread_id: thread_id_in(session_id)->Ok_0,
            }),
            _ => false,
        },
        ProgressView::Unanswered { .. } => true,
        ProgressView::Finished { answer } => answer is Ok ==> i == 2 && answer->Ok_0
            == ResponseView::<H>::CloseSession,
    }
}

proof fn lemma_closing_stage<H: Host>(run: Run<H>, session_id: Seq<char>, i: int)
    requires
        is_run(run),
        run.request == (RequestView::<H>::CloseSession { session_id }),
        0 <= i < run.progress.len(),
    ensures
        is_closing_stage(run, session_id, i),
    decreases i,
{
    if i > 0 {
        lemma_closing_stage(run, session_id, i - 1);
        lemma_goes_on(run, i - 1);
    }
}

/// Closing a session ends its thread, lets go of it, and forgets the session
/// and its working directory, and nothing else.
pub proof fn closed_sessions_are_forgotten<H: Host>(run: Run<H>, session_id: Seq<char>)
    requires
        is_run(run),
        run.request == (RequestView::<H>::CloseSession { session_id }),
        outcome(run) == succeed(ResponseView::<H>::CloseSession),
    ensures
        run.replies.len() == 2,
        thread_of(run.before[0], session_id) is Some,
        asks(
            run,
            0,
            ActionView::ShutdownThread { thread: thread_of(run.before[0], session_id)->0 },
        ),
        went_well(run.replies[0]),
        thread_id_in(session_id) is Ok,
        asks(run, 1, ActionView::RemoveThread { thread_id: thread_id_in(session_id)->Ok_0 }),
        run.after[2] == without_session(run.before[2], session_id),
        thread_of(run.after[2], session_id) is None,
        !run.after[2].session_roots.contains_key(session_id),
{
    let n = run.replies.len() as int;
    lemma_closing_stage(run, session_id, n);
    assert(n == 2);
    lemma_closing_stage(run, session_id, 0);
    lemma_closing_stage(run, session_id, 1);
    lemma_goes_on(run, 0);
    lemma_goes_on(run, 1);
}

/// A session stays as it is unless closing it succeeds.
pub proof fn failed_closings_change_nothing<H: Host>(run: Run<H>, session_id: Seq<char>, i: int)
    requires
        is_run(run),
        run.request == (RequestView::<H>::CloseSession { session_id }),
        outcome(run) != succeed(ResponseView::<H>::CloseSession),
        0 <= i < run.after.len(),
    ensures
        run.after[i] == run.before[i],
{
    if i > 0 {
        lemma_closing_stage(run, session_id, i - 1);
        lemma_goes_on(run, i - 1);
        if i < run.replies.len() {
            lemma_goes_on(run, i);
        }
    }
}

spec fn is_listing_stage<H: Host>(
    run: Run<H>,
    cwd: Option<Seq<char>>,
    cursor: Option<Seq<char>>,
    i: int,
) -> bool {
    match run.progress[i] {
        ProgressView::Pending { task, action } => match task {
            TaskView::CheckingAuth { request } => request == run.request,
            TaskView::RecheckingAuth { request } => request == run.request,
            TaskView::ListingThreads { cwd: c } => c == cwd && action == (ActionView::<
                H,
            >::ListThreads { params: listing_params(cwd, cursor) }),
            _ => false,
        },
        ProgressView::Unanswered { .. } => true,
        ProgressView::Finished { answer } => answer is Ok ==> i > 0,
    }
}

proof fn lemma_listing_stage<H: Host>(
    run: Run<H>,
    cwd: Option<Seq<char>>,
    cursor: Option<Seq<char>>,
    i: int,
)
    requires
        is_run(run),
        run.request == (RequestView::<H>::ListSessions { cwd, cursor }),
        0 <= i < run.progress.len(),
    ensures
        is_listing_stage(run, cwd, cursor, i),
    decreases i,
{
    if i > 0 {
        lemma_listing_stage(run, cwd, cursor, i - 1);
        lemma_goes_on(run, i - 1);
    }
}

/// A listing tells of the sessions on the page that the store gave, and where
/// the next page begins. Nothing has changed.
pub proof fn listings_tell_what_is_stored<H: Host>(
    run: Run<H>,
    cwd: Option<Seq<char>>,
    cursor: Option<Seq<char>>,
)
    requires
        is_run(run),
        run.request == (RequestView::<H>::ListSessions { cwd, cursor }),
        outcome(run) is Finished,
        outcome(run)->answer is Ok,
    ensures
        run.replies.len() >= 1,
        asks(
            run,
            run.replies.len() - 1,
            ActionView::ListThreads { params: listing_params(cwd, cursor) },
        ),
        run.replies.last() matches ReplyView::Listed(Ok(page)) && (outcome(run)->answer->Ok_0
            matches ResponseView::ListSessions { sessions, next_cursor } && are_listed(
            page.items,
            cwd,
            sessions,
        ) && next_cursor == page.next_cursor),
        run.after.last() == run.before.last(),
{
    let n = run.replies.len() as int;
    lemma_listing_stage(run, cwd, cursor, n);
    lemma_listing_stage(run, cwd, cursor, n - 1);
    lemma_goes_on(run, n - 1);
}

/// A prompt is answered with why the model stopped, by the thread that the
/// session had when the prompt was handed to it.
pub proof fn prompts_are_answered<H: Host>(run: Run<H>, session_id: Seq<char>, prompt: H::Prompt)
    requires
        is_run(run),
        run.request == (RequestView::<H>::Prompt { session_id, prompt }),
        outcome(run) is Finished,
        outcome(run)->answer is Ok,
    ensures
        ({
            let n = run.replies.len() as int;
            &&& n >= 1
            &&& thread_of(run.before[n - 1], session_id) is Some
            &&& asks(
                run,
                n - 1,
                ActionView::PromptThread {
                    thread: thread_of(run.before[n - 1], session_id)->0,
                    prompt,
                },
            )
            &&& run.replies[n - 1] matches ReplyView::Stopped(Ok(stop_reason)) && outcome(run)
                == succeed(ResponseView::<H>::Prompt { stop_reason })
        }),
{
    let n = run.replies.len() as int;
    lemma_prompt_stage(run, session_id, prompt, n);
    lemma_prompt_stage(run, session_id, prompt, n - 1);
    lemma_goes_on(run, n - 1);
}

spec fn is_prompt_stage<H: Host>(
    run: Run<H>,
    session_id: Seq<char>,
    prompt: H::Prompt,
    i: int,
) -> bool {
    match run.progress[i] {
        ProgressView::Pending { task, action } => match task {
            TaskView::CheckingAuth { request } => request == run.request,
            TaskView::RecheckingAuth { request } => request == run.request,
            TaskView::Prompting => thread_of(run.before[i], session_id) is Some && action == (
            ActionView::<H>::PromptThread {
                thread: thread_of(run.before[i], session_id)->0,
                prompt,
            }),
            _ => false,
        },
        ProgressView::Unanswered { .. } => true,
        ProgressView::Finished { answer } => answer is Ok ==> i > 0,
    }
}

proof fn lemma_prompt_stage<H: Host>(
    run: Run<H>,
    session_id: Seq<char>,
    prompt: H::Prompt,
    i: int,
)
    requires
        is_run(run),
        run.request == (RequestView::<H>::Prompt { session_id, prompt }),
        0 <= i < run.progress.len(),
    ensures
        is_prompt_stage(run, session_id, prompt, i),
    decreases i,
{
    if i > 0 {
        lemma_prompt_stage(run, session_id, prompt, i - 1);
        lemma_goes_on(run, i - 1);
    }
}

/// A configuration option is answered with all options of the same thread,
/// read after the option was set.
pub proof fn config_options_are_read_after_setting<H: Host>(
    run: Run<H>,
    session_id: Seq<char>,
    config_id: Seq<char>,
    value: H::ConfigValue,
)
    requires
        is_run(run),
        run.request == (RequestView::<H>::SetSessionConfigOption { session_id, config_id, value }),
        outcome(run) is Finished,
        outcome(run)->answer is Ok,
    ensures
        run.replies.len() == 2,
        thread_of(run.before[0], session_id) is Some,
        ({
            let thread = thread_of(run.before[0], session_id)->0;
            &&& asks(run, 0, ActionView::SetThreadConfigOption { thread, config_id, value })
            &&& went_well(run.replies[0])
            &&& asks(run, 1, ActionView::ReadThreadConfigOptions { thread })
            &&& run.replies[1] matches ReplyView::ConfigOptions(Ok(config_options)) && outcome(run)
                == succeed(ResponseView::<H>::SetSessionConfigOption { config_options })
        }),
{
    lemma_goes_on(run, 0);
    lemma_goes_on(run, 1);
    if run.replies.len() > 2 {
        lemma_goes_on(run, 2);
    }
}

} // verus!
