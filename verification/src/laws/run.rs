//! What holds of every request, from when it comes in until it is answered.

use crate::action::{ActionView, ReplyView};
use crate::agent::AgentView;
use crate::protocol::{Host, RequestView};
use crate::serve::{served, step};
use crate::task::{ProgressView, TaskView};
use vstd::prelude::*;

verus! {

/// How a request was served. It began in the first of the states `before`, and
/// each reply took it one step further, from a state `before` to one `after`.
/// In between, other requests may have changed the agent.
pub struct Run<H: Host> {
    pub request: RequestView<H>,
    pub replies: Seq<ReplyView<H>>,
    pub before: Seq<AgentView<H>>,
    pub after: Seq<AgentView<H>>,
    pub progress: Seq<ProgressView<H>>,
}

/// The reply takes a run from one of its steps to the next.
pub open spec fn goes_on<H: Host>(run: Run<H>, i: int) -> bool {
    match run.progress[i] {
        ProgressView::Pending { task, action } => step(
            run.before[i + 1],
            task,
            run.replies[i],
            run.after[i + 1],
            run.progress[i + 1],
        ),
        ProgressView::Unanswered { .. } | ProgressView::Finished { .. } => false,
    }
}

/// This is how an agent may serve a request.
pub open spec fn is_run<H: Host>(run: Run<H>) -> bool {
    &&& run.before.len() == run.replies.len() + 1
    &&& run.after.len() == run.replies.len() + 1
    &&& run.progress.len() == run.replies.len() + 1
    &&& (run.after[0], run.progress[0]) == served(run.before[0], run.request)
    &&& forall|i: int| 0 <= i < run.replies.len() ==> #[trigger] goes_on(run, i)
    &&& forall|i: int|
        0 <= i < run.before.len() ==> (#[trigger] run.before[i]).settings == run.before[0].settings
}

/// The request asked for this action with its step `i`.
pub open spec fn asks<H: Host>(run: Run<H>, i: int, action: ActionView<H>) -> bool {
    0 <= i < run.progress.len() && (run.progress[i] matches ProgressView::Pending {
        task,
        action: asked,
    } && asked == action)
}

/// The action was done.
pub open spec fn went_well<H: Host>(reply: ReplyView<H>) -> bool {
    match reply {
        ReplyView::Done(outcome) => outcome is Ok,
        ReplyView::Handled(outcome) => outcome is Ok,
        _ => false,
    }
}

/// What the request has come to.
pub open spec fn outcome<H: Host>(run: Run<H>) -> ProgressView<H> {
    run.progress.last()
}

/// A step that is followed by another is pending.
pub proof fn lemma_goes_on<H: Host>(run: Run<H>, i: int)
    requires
        is_run(run),
        0 <= i < run.replies.len(),
    ensures
        run.progress[i] is Pending,
        step(
            run.before[i + 1],
            run.progress[i]->Pending_task,
            run.replies[i],
            run.after[i + 1],
            run.progress[i + 1],
        ),
        run.before[i + 1].settings == run.before[0].settings,
{
    assert(goes_on(run, i));
}

/// How many replies a task may still wait for.
pub open spec fn patience<H: Host>(task: TaskView<H>) -> nat {
    match task {
        TaskView::CheckingAuth { .. } => 10,
        TaskView::RecheckingAuth { .. } => 9,
        TaskView::FindingRecord { .. } => 8,
        TaskView::ReadingHistory { .. } => 7,
        TaskView::ResolvingCwd { .. } => 6,
        TaskView::InstallingServers { .. } => 5,
        TaskView::StartingThread { .. } => 3,
        TaskView::OpeningNew { .. } => 2,
        TaskView::LoadingNew { .. } => 1,
        TaskView::ResumingThread { .. } => 4,
        TaskView::OpeningRecorded { .. } => 3,
        TaskView::ReplayingHistory { .. } => 2,
        TaskView::LoadingRecorded { .. } => 1,
        TaskView::ReadingAuth { .. } => 4,
        TaskView::StartingLogin => 3,
        TaskView::AwaitingLogin => 2,
        TaskView::ReadingApiKey { .. } => 3,
        TaskView::StoringApiKey => 2,
        TaskView::AdoptingAuth => 1,
        TaskView::LoggingOut => 1,
        TaskView::ListingThreads { .. } => 1,
        TaskView::ShuttingDown { .. } => 2,
        TaskView::RemovingThread { .. } => 1,
        TaskView::Prompting | TaskView::Cancelling | TaskView::SettingMode => 1,
        TaskView::UpdatingTitle { .. } => 5,
        TaskView::LocatingRecord { .. } => 4,
        TaskView::UpdatingLocatedTitle { .. } => 3,
        TaskView::IndexingTitle { .. } => 2,
        TaskView::NotifyingTitle | TaskView::TitlingThread => 1,
        TaskView::SettingConfigOption { .. } => 2,
        TaskView::ReadingConfigOptions => 1,
    }
}

/// How many replies a request may still wait for.
pub open spec fn remaining<H: Host>(progress: ProgressView<H>) -> nat {
    match progress {
        ProgressView::Pending { task, action } => patience(task),
        ProgressView::Unanswered { .. } | ProgressView::Finished { .. } => 0,
    }
}

/// A request begins with a patience of ten replies at most.
proof fn lemma_served_remaining<H: Host>(agent: AgentView<H>, request: RequestView<H>)
    ensures
        remaining(served(agent, request).1) <= 10,
{
}

/// Each step wears the patience down.
proof fn lemma_step_remaining<H: Host>(
    agent: AgentView<H>,
    task: TaskView<H>,
    reply: ReplyView<H>,
    after: AgentView<H>,
    progress: ProgressView<H>,
)
    requires
        step(agent, task, reply, after, progress),
    ensures
        remaining(progress) < patience(task),
{
}

proof fn lemma_remaining<H: Host>(run: Run<H>, i: int)
    requires
        is_run(run),
        0 <= i < run.progress.len(),
    ensures
        i + remaining(run.progress[i]) <= 10,
    decreases i,
{
    if i == 0 {
        lemma_served_remaining(run.before[0], run.request);
    } else {
        lemma_remaining(run, i - 1);
        lemma_goes_on(run, i - 1);
        lemma_step_remaining(
            run.before[i],
            run.progress[i - 1]->Pending_task,
            run.replies[i - 1],
            run.after[i],
            run.progress[i],
        );
    }
}

/// The patience wears down with every reply.
pub proof fn lemma_remaining_falls<H: Host>(run: Run<H>, i: int, j: int)
    requires
        is_run(run),
        0 <= i < j < run.progress.len(),
    ensures
        remaining(run.progress[j]) < remaining(run.progress[i]),
    decreases j,
{
    lemma_goes_on(run, j - 1);
    lemma_step_remaining(
        run.before[j],
        run.progress[j - 1]->Pending_task,
        run.replies[j - 1],
        run.after[j],
        run.progress[j],
    );
    if i < j - 1 {
        lemma_remaining_falls(run, i, j - 1);
    }
}

/// No request waits for more than ten replies.
pub proof fn requests_end<H: Host>(run: Run<H>)
    requires
        is_run(run),
    ensures
        run.replies.len() <= 10,
        run.replies.len() == 10 ==> !(outcome(run) is Pending),
{
    lemma_remaining(run, run.replies.len() as int);
}

/// The reply is of the kind that the action calls for.
pub open spec fn replies_to<H: Host>(action: ActionView<H>, reply: ReplyView<H>) -> bool {
    match action {
        ActionView::ReadAuth => reply is Auth,
        ActionView::ReloadAuth => reply is Reloaded,
        ActionView::StartLogin
        | ActionView::AwaitLogin
        | ActionView::StoreApiKey { .. }
        | ActionView::Logout
        | ActionView::InstallServers { .. }
        | ActionView::ResumeThread { .. }
        | ActionView::AppendThreadName { .. } => reply is Done,
        ActionView::ReadApiKey { .. } => reply is ApiKey,
        ActionView::ResolveCwd { .. } => reply is Resolved,
        ActionView::StartThread { .. } => reply is Started,
        ActionView::OpenThread { .. } => reply is Opened,
        ActionView::LoadThread { .. } => reply is Loaded,
        ActionView::FindRollout { .. } => reply is Rollout,
        ActionView::ReadHistory { .. } => reply is History,
        ActionView::ListThreads { .. } => reply is Listed,
        ActionView::RemoveThread { .. } => reply is Removed,
        ActionView::PromptThread { .. } => reply is Stopped,
        ActionView::UpdateStateTitle { .. } => reply is TitleUpdated,
        ActionView::ReplayHistory { .. }
        | ActionView::ShutdownThread { .. }
        | ActionView::CancelThread { .. }
        | ActionView::SetThreadMode { .. }
        | ActionView::SetThreadTitle { .. }
        | ActionView::NotifyTitle { .. }
        | ActionView::SetThreadConfigOption { .. } => reply is Handled,
        ActionView::ReadThreadConfigOptions { .. } => reply is ConfigOptions,
    }
}

/// The task waits for replies of the kind that the action calls for.
pub open spec fn awaits<H: Host>(task: TaskView<H>, action: ActionView<H>) -> bool {
    match task {
        TaskView::CheckingAuth { .. } | TaskView::ReadingAuth { .. } => action is ReadAuth,
        TaskView::RecheckingAuth { .. } | TaskView::AdoptingAuth => action is ReloadAuth,
        TaskView::StartingLogin => action is StartLogin,
        TaskView::AwaitingLogin => action is AwaitLogin,
        TaskView::ReadingApiKey { .. } => action is ReadApiKey,
        TaskView::StoringApiKey => action is StoreApiKey,
        TaskView::LoggingOut => action is Logout,
        TaskView::FindingRecord { .. } | TaskView::LocatingRecord { .. } => action is FindRollout,
        TaskView::ReadingHistory { .. } => action is ReadHistory,
        TaskView::ResolvingCwd { .. } => action is ResolveCwd,
        TaskView::InstallingServers { .. } => action is InstallServers,
        TaskView::StartingThread { .. } => action is StartThread,
        TaskView::ResumingThread { .. } => action is ResumeThread,
        TaskView::OpeningNew { .. } | TaskView::OpeningRecorded { .. } => action is OpenThread,
        TaskView::LoadingNew { .. } | TaskView::LoadingRecorded { .. } => action is LoadThread,
        TaskView::ReplayingHistory { .. } => action is ReplayHistory,
        TaskView::ListingThreads { .. } => action is ListThreads,
        TaskView::ShuttingDown { .. } => action is ShutdownThread,
        TaskView::RemovingThread { .. } => action is RemoveThread,
        TaskView::Prompting => action is PromptThread,
        TaskView::Cancelling => action is CancelThread,
        TaskView::SettingMode => action is SetThreadMode,
        TaskView::UpdatingTitle { .. }
        | TaskView::UpdatingLocatedTitle { .. } => action is UpdateStateTitle,
        TaskView::TitlingThread => action is SetThreadTitle,
        TaskView::IndexingTitle { .. } => action is AppendThreadName,
        TaskView::NotifyingTitle => action is NotifyTitle,
        TaskView::SettingConfigOption { .. } => action is SetThreadConfigOption,
        TaskView::ReadingConfigOptions => action is ReadThreadConfigOptions,
    }
}

/// A pending task waits for replies of the kind that its action calls for.
pub open spec fn is_paired<H: Host>(progress: ProgressView<H>) -> bool {
    progress matches ProgressView::Pending { task, action } ==> awaits(task, action)
}

proof fn lemma_served_paired<H: Host>(agent: AgentView<H>, request: RequestView<H>)
    ensures
        is_paired(served(agent, request).1),
        !(served(agent, request).1 is Unanswered),
{
}

proof fn lemma_step_paired<H: Host>(
    agent: AgentView<H>,
    task: TaskView<H>,
    reply: ReplyView<H>,
    after: AgentView<H>,
    progress: ProgressView<H>,
)
    requires
        step(agent, task, reply, after, progress),
    ensures
        is_paired(progress),
        progress matches ProgressView::Unanswered { task: handed_back } ==> {
            &&& handed_back == task
            &&& after == agent
            &&& forall|action: ActionView<H>|
                awaits(task, action) ==> !(#[trigger] replies_to(action, reply))
        },
{
}

proof fn lemma_paired<H: Host>(run: Run<H>, i: int)
    requires
        is_run(run),
        0 <= i < run.progress.len(),
    ensures
        is_paired(run.progress[i]),
    decreases i,
{
    if i == 0 {
        lemma_served_paired(run.before[0], run.request);
    } else {
        lemma_goes_on(run, i - 1);
        lemma_step_paired(
            run.before[i],
            run.progress[i - 1]->Pending_task,
            run.replies[i - 1],
            run.after[i],
            run.progress[i],
        );
    }
}

/// A reply of the kind that was called for takes a request further.
pub proof fn matching_replies_are_understood<H: Host>(run: Run<H>)
    requires
        is_run(run),
        forall|i: int|
            0 <= i < run.replies.len() ==> replies_to(
                (#[trigger] run.progress[i])->Pending_action,
                run.replies[i],
            ),
    ensures
        !(outcome(run) is Unanswered),
{
    let n = run.replies.len() as int;
    lemma_served_paired(run.before[0], run.request);
    if n > 0 {
        lemma_paired(run, n - 1);
        lemma_goes_on(run, n - 1);
        assert(replies_to(run.progress[n - 1]->Pending_action, run.replies[n - 1]));
        lemma_step_paired(
            run.before[n],
            run.progress[n - 1]->Pending_task,
            run.replies[n - 1],
            run.after[n],
            run.progress[n],
        );
    }
}

/// A reply of any other kind changes nothing: the task is handed back.
pub proof fn other_replies_change_nothing<H: Host>(
    agent: AgentView<H>,
    task: TaskView<H>,
    action: ActionView<H>,
    reply: ReplyView<H>,
    after: AgentView<H>,
    progress: ProgressView<H>,
)
    requires
        awaits(task, action),
        !replies_to(action, reply),
        step(agent, task, reply, after, progress),
    ensures
        after == agent,
        progress == (ProgressView::Unanswered { task }),
{
}

} // verus!
