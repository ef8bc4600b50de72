//! The course that requests take which open sessions, use them, list them or
//! close them.

use crate::action::{ActionView, InitialHistoryView, ReplyView};
use crate::agent::AgentView;
use crate::config::{McpServerView, SessionConfigView};
use crate::laws::course::{
    bare_failure, ends, failure_of, keeps_agent, lemma_next, lemma_start, missing, start,
};
use crate::laws::listings::{is_selection, is_shown_source, listings_tell_of_the_right_threads};
use crate::laws::run::{asks, is_run, Run};
use crate::laws::servers::{is_what_was_asked_for, sessions_are_configured_as_asked};
use crate::listing::{
    are_listed, is_possibly_same_path, is_surely_same_path, listing_params, SessionInfoView,
};
use crate::protocol::{Host, RequestView, ResponseView};
use crate::thread_id::thread_id_in;
use std::sync::Arc;
use vstd::prelude::*;

verus! {

/// The configuration that is handed on with the step `i`.
pub open spec fn config_at<H: Host>(run: Run<H>, i: int) -> SessionConfigView {
    run.progress[i]->Pending_action->InstallServers_config
}

/// From the step `i` on, the session's directory is made absolute and its
/// servers are installed: the configuration is what was asked for. What fails
/// is told.
pub open spec fn configures_session<H: Host>(
    run: Run<H>,
    i: int,
    cwd: Seq<char>,
    mcp_servers: Seq<McpServerView>,
) -> bool {
    let n = run.replies.len();
    &&& asks(run, i, ActionView::ResolveCwd { cwd })
    &&& keeps_agent(run, i)
    &&& keeps_agent(run, i + 1)
    &&& keeps_agent(run, i + 2)
    &&& n > i ==> match run.replies[i] {
        ReplyView::Resolved(Ok(path)) => {
            &&& asks(run, i + 1, ActionView::InstallServers { config: config_at(run, i + 1) })
            &&& is_what_was_asked_for(
                config_at(run, i + 1),
                run.before[0].settings,
                path,
                mcp_servers,
            )
        },
        ReplyView::Resolved(Err(reason)) => ends(run, i + 1, Err(failure_of(reason))),
        _ => true,
    }
    &&& n > i + 1 ==> match run.replies[i + 1] {
        ReplyView::Done(Err(reason)) => ends(run, i + 2, Err(failure_of(reason))),
        _ => true,
    }
}

/// A new session: its directory is made absolute, its servers are installed, a
/// thread is started with this configuration, the directory goes on record
/// under the thread's identifier, the thread is tied to the session and made
/// ready, and then the session is open on that thread. What fails is told, and
/// only a thread that does not start is told without a reason.
pub proof fn new_sessions_take_their_course<H: Host>(
    run: Run<H>,
    cwd: Seq<char>,
    mcp_servers: Seq<McpServerView>,
    s: int,
)
    requires
        is_run(run),
        run.request == (RequestView::<H>::NewSession { cwd, mcp_servers }),
        start(run) == Some(s),
    ensures
        configures_session(run, s, cwd, mcp_servers),
        ({
            let n = run.replies.len();
            let config = config_at(run, s + 1);
            &&& n > s + 1 ==> match run.replies[s + 1] {
                ReplyView::Done(Ok(_)) => asks(run, s + 2, ActionView::StartThread { config }),
                _ => true,
            }
            &&& n > s + 2 ==> match run.replies[s + 2] {
                ReplyView::Started(Ok(session_id)) => {
                    &&& asks(run, s + 3, ActionView::OpenThread { session_id, config })
                    &&& run.after[s + 3] == (AgentView {
                        session_roots: run.before[s + 3].session_roots.insert(
                            session_id,
                            config.cwd,
                        ),
                        ..run.before[s + 3]
                    })
                },
                ReplyView::Started(Err(_)) => ends(run, s + 3, Err(bare_failure())) && keeps_agent(
                    run,
                    s + 3,
                ),
                _ => true,
            }
            &&& n > s + 3 ==> keeps_agent(run, s + 4) && match run.replies[s + 3] {
                ReplyView::Opened(thread) => asks(run, s + 4, ActionView::LoadThread { thread }),
                _ => true,
            }
            &&& n > s + 4 ==> match run.replies[s + 4] {
                ReplyView::Loaded(Ok(state)) => {
                    let session_id = run.replies[s + 2]->Started_0->Ok_0;
                    &&& ends(run, s + 5, Ok(ResponseView::NewSession { session_id, state }))
                    &&& run.after[s + 5] == (AgentView {
                        sessions: run.before[s + 5].sessions.insert(
                            session_id,
                            run.replies[s + 3]->Opened_0,
                        ),
                        ..run.before[s + 5]
                    })
                },
                ReplyView::Loaded(Err(error)) => ends(run, s + 5, Err(error)) && keeps_agent(
                    run,
                    s + 5,
                ),
                _ => true,
            }
        }),
{
    lemma_start(run);
    lemma_next(run, s);
    lemma_next(run, s + 1);
    lemma_next(run, s + 2);
    lemma_next(run, s + 3);
    lemma_next(run, s + 4);
    lemma_next(run, s + 5);
    if run.replies.len() > s && run.replies[s] is Resolved {
        sessions_are_configured_as_asked(
            run.before[0].settings,
            run.replies[s]->Resolved_0,
            mcp_servers,
        );
    }
}

/// The items that are shown of a history: all of it, and nothing of a thread
/// that is new or was cleared.
pub open spec fn shows_history<H: Host>(
    history: InitialHistoryView<H>,
    items: Seq<H::HistoryItem>,
) -> bool {
    match history {
        InitialHistoryView::Resumed(recorded) => items == recorded,
        InitialHistoryView::Forked(recorded) => items == recorded,
        InitialHistoryView::New => items.len() == 0,
        InitialHistoryView::Cleared => items.len() == 0,
    }
}

/// What comes last of opening a recorded session: with the step `i` its thread
/// is made ready, and then the session is open on it, with its directory on
/// record.
pub open spec fn opens_recorded<H: Host>(
    run: Run<H>,
    i: int,
    session_id: Seq<char>,
    cwd: Seq<char>,
    thread: Arc<H::Thread>,
) -> bool {
    &&& asks(run, i, ActionView::LoadThread { thread })
    &&& run.replies.len() > i ==> match run.replies[i] {
        ReplyView::Loaded(Ok(state)) => {
            &&& ends(
                run,
                i + 1,
                Ok(
                    if run.request is LoadSession {
                        ResponseView::LoadSession { state }
                    } else {
                        ResponseView::ResumeSession { state }
                    },
                ),
            )
            &&& run.after[i + 1] == (AgentView {
                sessions: run.before[i + 1].sessions.insert(session_id, thread),
                session_roots: run.before[i + 1].session_roots.insert(session_id, cwd),
                ..run.before[i + 1]
            })
        },
        ReplyView::Loaded(Err(error)) => ends(run, i + 1, Err(error)) && keeps_agent(run, i + 1),
        _ => true,
    }
}

/// A session to be loaded: its record is looked for, its history is read, the
/// session is configured, a thread goes on where the record ended and is tied
/// to the session, the whole history is shown, the thread is made ready, and
/// then the session is open. Without a record it is missing; what fails is
/// told. Until the session is open nothing changes.
pub proof fn loadings_take_their_course<H: Host>(
    run: Run<H>,
    session_id: Seq<char>,
    cwd: Seq<char>,
    mcp_servers: Seq<McpServerView>,
    s: int,
)
    requires
        is_run(run),
        run.request == (RequestView::<H>::LoadSession { session_id, cwd, mcp_servers }),
        start(run) == Some(s),
    ensures
        ({
            let n = run.replies.len();
            let config = config_at(run, s + 3);
            let rollout_path = run.replies[s]->Rollout_0->Ok_0->0;
            &&& asks(run, s, ActionView::FindRollout { session_id })
            &&& forall|i: int| s <= i <= s + 7 ==> #[trigger] keeps_agent(run, i)
            &&& n > s ==> match run.replies[s] {
                ReplyView::Rollout(Ok(Some(path))) => asks(
                    run,
                    s + 1,
                    ActionView::ReadHistory { rollout_path: path },
                ),
                ReplyView::Rollout(Ok(None)) => ends(run, s + 1, Err(missing())),
                ReplyView::Rollout(Err(reason)) => ends(run, s + 1, Err(failure_of(reason))),
                _ => true,
            }
            &&& n > s + 1 ==> match run.replies[s + 1] {
                ReplyView::History(Ok(_)) => configures_session(run, s + 2, cwd, mcp_servers),
                ReplyView::History(Err(reason)) => ends(run, s + 2, Err(failure_of(reason))),
                _ => true,
            }
            &&& n > s + 3 ==> match run.replies[s + 3] {
                ReplyView::Done(Ok(_)) => asks(
                    run,
                    s + 4,
                    ActionView::ResumeThread { config, rollout_path },
                ),
                _ => true,
            }
            &&& n > s + 4 ==> match run.replies[s + 4] {
                ReplyView::Done(Ok(_)) => asks(
                    run,
                    s + 5,
                    ActionView::OpenThread { session_id, config },
                ),
                ReplyView::Done(Err(reason)) => ends(run, s + 5, Err(failure_of(reason))),
                _ => true,
            }
            &&& n > s + 5 ==> match run.replies[s + 5] {
                ReplyView::Opened(thread) => exists|items: Seq<H::HistoryItem>| #[trigger]
                    asks(run, s + 6, ActionView::ReplayHistory { thread, items }) && shows_history(
                        run.replies[s + 1]->History_0->Ok_0,
                        items,
                    ),
                _ => true,
            }
            &&& n > s + 6 ==> match run.replies[s + 6] {
                ReplyView::Handled(Ok(_)) => opens_recorded(
                    run,
                    s + 7,
                    session_id,
                    config.cwd,
                    run.replies[s + 5]->Opened_0,
                ),
                ReplyView::Handled(Err(error)) => ends(run, s + 7, Err(error)),
                _ => true,
            }
        }),
{
    lemma_start(run);
    lemma_next(run, s);
    lemma_next(run, s + 1);
    lemma_next(run, s + 2);
    lemma_next(run, s + 3);
    lemma_next(run, s + 4);
    lemma_next(run, s + 5);
    lemma_next(run, s + 6);
    lemma_next(run, s + 7);
    lemma_next(run, s + 8);
    if run.replies.len() > s + 2 && run.replies[s + 2] is Resolved {
        sessions_are_configured_as_asked(
            run.before[0].settings,
            run.replies[s + 2]->Resolved_0,
            mcp_servers,
        );
    }
    if run.replies.len() > s + 5 && run.replies[s + 5] is Opened {
        let thread = run.replies[s + 5]->Opened_0;
        let items = run.progress[s + 6]->Pending_action->ReplayHistory_items;
        assert(asks(run, s + 6, ActionView::ReplayHistory { thread, items }));
    }
}

/// A session to be resumed: as for loading, but its history is neither read nor
/// shown.
pub proof fn resumings_take_their_course<H: Host>(
    run: Run<H>,
    session_id: Seq<char>,
    cwd: Seq<char>,
    mcp_servers: Seq<McpServerView>,
    s: int,
)
    requires
        is_run(run),
        run.request == (RequestView::<H>::ResumeSession { session_id, cwd, mcp_servers }),
        start(run) == Some(s),
    ensures
        ({
            let n = run.replies.len();
            let config = config_at(run, s + 2);
            let rollout_path = run.replies[s]->Rollout_0->Ok_0->0;
            &&& asks(run, s, ActionView::FindRollout { session_id })
            &&& forall|i: int| s <= i <= s + 5 ==> #[trigger] keeps_agent(run, i)
            &&& n > s ==> match run.replies[s] {
                ReplyView::Rollout(Ok(Some(_))) => configures_session(run, s + 1, cwd, mcp_servers),
                ReplyView::Rollout(Ok(None)) => ends(run, s + 1, Err(missing())),
                ReplyView::Rollout(Err(reason)) => ends(run, s + 1, Err(failure_of(reason))),
                _ => true,
            }
            &&& n > s + 2 ==> match run.replies[s + 2] {
                ReplyView::Done(Ok(_)) => asks(
                    run,
                    s + 3,
                    ActionView::ResumeThread { config, rollout_path },
                ),
                _ => true,
            }
            &&& n > s + 3 ==> match run.replies[s + 3] {
                ReplyView::Done(Ok(_)) => asks(
                    run,
                    s + 4,
                    ActionView::OpenThread { session_id, config },
                ),
                ReplyView::Done(Err(reason)) => ends(run, s + 4, Err(failure_of(reason))),
                _ => true,
            }
            &&& n > s + 4 ==> match run.replies[s + 4] {
                ReplyView::Opened(thread) => opens_recorded(
                    run,
                    s + 5,
                    session_id,
                    config.cwd,
                    thread,
                ),
                _ => true,
            }
        }),
{
    lemma_start(run);
    lemma_next(run, s);
    lemma_next(run, s + 1);
    lemma_next(run, s + 2);
    lemma_next(run, s + 3);
    lemma_next(run, s + 4);
    lemma_next(run, s + 5);
    lemma_next(run, s + 6);
    if run.replies.len() > s + 1 && run.replies[s + 1] is Resolved {
        sessions_are_configured_as_asked(
            run.before[0].settings,
            run.replies[s + 1]->Resolved_0,
            mcp_servers,
        );
    }
}

/// A listing asks the store for one page, and tells of the threads on it: of
/// each that is to be shown once, in their order, and where the next page
/// begins. A failure is told. Nothing changes.
pub proof fn listings_take_their_course<H: Host>(
    run: Run<H>,
    cwd: Option<Seq<char>>,
    cursor: Option<Seq<char>>,
    s: int,
)
    requires
        is_run(run),
        run.request == (RequestView::<H>::ListSessions { cwd, cursor }),
        start(run) == Some(s),
    ensures
        asks(run, s, ActionView::ListThreads { params: listing_params(cwd, cursor) }),
        keeps_agent(run, s),
        keeps_agent(run, s + 1),
        run.replies.len() > s ==> match run.replies[s] {
            ReplyView::Listed(Ok(page)) => exists|
                sessions: Seq<SessionInfoView>,
                origin: Seq<int>,
            |
                {
                    &&& ends(
                        run,
                        s + 1,
                        Ok(
                            ResponseView::ListSessions { sessions, next_cursor: page.next_cursor },
                        ),
                    )
                    &&& #[trigger] is_selection(page.items, sessions, origin)
                    &&& forall|i: int| #[trigger]
                        origin.contains(i) ==> 0 <= i < page.items.len() && is_shown_source(
                            page.items[i].source,
                        ) && (cwd matches Some(asked) ==> is_possibly_same_path(
                            page.items[i].cwd,
                            asked,
                        ))
                    &&& forall|i: int|
                        0 <= i < page.items.len() && is_shown_source(
                            (#[trigger] page.items[i]).source,
                        ) && (cwd matches Some(asked) ==> is_surely_same_path(
                            page.items[i].cwd,
                            asked,
                        )) ==> origin.contains(i)
                },
            ReplyView::Listed(Err(reason)) => ends(
                run,
                s + 1,
                Err(failure_of("failed to list sessions: "@ + reason)),
            ),
            _ => true,
        },
{
    lemma_start(run);
    lemma_next(run, s);
    lemma_next(run, s + 1);
    if run.replies.len() > s {
        if let ReplyView::Listed(Ok(page)) = run.replies[s] {
            let sessions = run.progress[s + 1]->answer->Ok_0->ListSessions_sessions;
            assert(are_listed(page.items, cwd, sessions));
            let origin = listings_tell_of_the_right_threads(page.items, cwd, sessions);
            assert(is_selection(page.items, sessions, origin));
        }
    }
}

/// Closing a session ends its thread, lets go of the thread with the session's
/// identifier, and then forgets the session and its directory, and nothing
/// else. A session that is not open is missing; what fails is told and changes
/// nothing.
pub proof fn closings_take_their_course<H: Host>(run: Run<H>, session_id: Seq<char>)
    requires
        is_run(run),
        run.request == (RequestView::<H>::CloseSession { session_id }),
    ensures
        ({
            let n = run.replies.len();
            let agent = run.before[0];
            &&& keeps_agent(run, 0)
            &&& keeps_agent(run, 1)
            &&& !agent.sessions.contains_key(session_id) ==> ends(run, 0, Err(missing()))
            &&& agent.sessions.contains_key(session_id) ==> asks(
                run,
                0,
                ActionView::ShutdownThread { thread: agent.sessions[session_id] },
            )
            &&& n > 0 ==> match run.replies[0] {
                ReplyView::Handled(Ok(_)) => match thread_id_in(session_id) {
                    Ok(thread_id) => asks(run, 1, ActionView::RemoveThread { thread_id }),
                    Err(reason) => ends(run, 1, Err(failure_of(reason))),
                },
                ReplyView::Handled(Err(error)) => ends(run, 1, Err(error)),
                _ => true,
            }
            &&& n > 1 ==> match run.replies[1] {
                ReplyView::Removed => {
                    &&& ends(run, 2, Ok(ResponseView::CloseSession))
                    &&& run.after[2] == (AgentView {
                        sessions: run.before[2].sessions.remove(session_id),
                        session_roots: run.before[2].session_roots.remove(session_id),
                        ..run.before[2]
                    })
                },
                _ => true,
            }
        }),
{
    lemma_next(run, 0);
    lemma_next(run, 1);
    lemma_next(run, 2);
}

/// A prompt goes to the thread of its session, and why that stopped is the
/// answer. A session that is not open is missing; a failure is told. Nothing
/// changes.
pub proof fn prompts_take_their_course<H: Host>(
    run: Run<H>,
    session_id: Seq<char>,
    prompt: H::Prompt,
    s: int,
)
    requires
        is_run(run),
        run.request == (RequestView::<H>::Prompt { session_id, prompt }),
        start(run) == Some(s),
    ensures
        keeps_agent(run, s),
        keeps_agent(run, s + 1),
        !run.before[s].sessions.contains_key(session_id) ==> ends(run, s, Err(missing())),
        run.before[s].sessions.contains_key(session_id) ==> asks(
            run,
            s,
            ActionView::PromptThread { thread: run.before[s].sessions[session_id], prompt },
        ),
        run.replies.len() > s ==> match run.replies[s] {
            ReplyView::Stopped(Ok(stop_reason)) => ends(
                run,
                s + 1,
                Ok(ResponseView::Prompt { stop_reason }),
            ),
            ReplyView::Stopped(Err(error)) => ends(run, s + 1, Err(error)),
            _ => true,
        },
{
    lemma_start(run);
    lemma_next(run, s);
    lemma_next(run, s + 1);
}

/// A cancellation, or a new mode, goes to the thread of its session, and the
/// client is answered once the thread has done it. A session that is not open
/// is missing; a failure is told. Nothing changes.
pub proof fn cancellations_and_modes_take_their_course<H: Host>(
    run: Run<H>,
    session_id: Seq<char>,
    mode_id: Seq<char>,
)
    requires
        is_run(run),
        run.request == (RequestView::<H>::Cancel { session_id }) || run.request == (RequestView::<
            H,
        >::SetSessionMode { session_id, mode_id }),
    ensures
        ({
            let thread = run.before[0].sessions[session_id];
            &&& keeps_agent(run, 0)
            &&& keeps_agent(run, 1)
            &&& !run.before[0].sessions.contains_key(session_id) ==> ends(run, 0, Err(missing()))
            &&& run.before[0].sessions.contains_key(session_id) ==> asks(
                run,
                0,
                if run.request is Cancel {
                    ActionView::CancelThread { thread }
                } else {
                    ActionView::SetThreadMode { thread, mode_id }
                },
            )
            &&& run.replies.len() > 0 ==> match run.replies[0] {
                ReplyView::Handled(Ok(_)) => ends(
                    run,
                    1,
                    Ok(
                        if run.request is Cancel {
                            ResponseView::Cancel
                        } else {
                            ResponseView::SetSessionMode
                        },
                    ),
                ),
                ReplyView::Handled(Err(error)) => ends(run, 1, Err(error)),
                _ => true,
            }
        }),
{
    lemma_next(run, 0);
    lemma_next(run, 1);
}

/// A configuration option goes to the thread of its session, then all options
/// of that thread are asked for, and they are the answer. A session that is not
/// open is missing; a failure is told. Nothing changes.
pub proof fn config_options_take_their_course<H: Host>(
    run: Run<H>,
    session_id: Seq<char>,
    config_id: Seq<char>,
    value: H::ConfigValue,
)
    requires
        is_run(run),
        run.request == (RequestView::<H>::SetSessionConfigOption { session_id, config_id, value }),
    ensures
        ({
            let thread = run.before[0].sessions[session_id];
            &&& keeps_agent(run, 0)
            &&& keeps_agent(run, 1)
            &&& keeps_agent(run, 2)
            &&& !run.before[0].sessions.contains_key(session_id) ==> ends(run, 0, Err(missing()))
            &&& run.before[0].sessions.contains_key(session_id) ==> asks(
                run,
                0,
                ActionView::SetThreadConfigOption { thread, config_id, value },
            )
            &&& run.replies.len() > 0 ==> match run.replies[0] {
                ReplyView::Handled(Ok(_)) => asks(
                    run,
                    1,
                    ActionView::ReadThreadConfigOptions { thread },
                ),
                ReplyView::Handled(Err(error)) => ends(run, 1, Err(error)),
                _ => true,
            }
            &&& run.replies.len() > 1 ==> match run.replies[1] {
                ReplyView::ConfigOptions(Ok(config_options)) => ends(
                    run,
                    2,
                    Ok(ResponseView::SetSessionConfigOption { config_options }),
                ),
                ReplyView::ConfigOptions(Err(error)) => ends(run, 2, Err(error)),
                _ => true,
            }
        }),
{
    lemma_next(run, 0);
    lemma_next(run, 1);
    lemma_next(run, 2);
}

} // verus!
