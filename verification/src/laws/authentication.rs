//! What holds of authentication.

use crate::action::{ActionView, ReplyView};
use crate::agent::AgentView;
use crate::auth::{
    already_authenticated, auth_method_id, auth_method_ids_are_read_back, identified_auth_method,
    AuthMethodView, CodexAuth, CodexAuthMethod,
};
use crate::authentication::offered_auth_methods;
use crate::error::{auth_required_error, invalid_params_error, ErrorView};
use crate::laws::run::{asks, is_run, lemma_goes_on, outcome, went_well, Run};
use crate::protocol::{Host, RequestView, ResponseView};
use crate::serve::{dispatched, is_guarded, needs_auth, served};
use crate::settings::SettingsView;
use crate::task::{fail, succeed, ProgressView, TaskView};
use vstd::prelude::*;

verus! {

/// A request for authenticated clients is refused where the agent is not
/// authenticated and the stored credentials have not changed. Nothing was
/// asked for but that, and nothing has changed.
pub proof fn unauthenticated_requests_are_refused<H: Host>(run: Run<H>)
    requires
        is_run(run),
        is_guarded(run.request),
        needs_auth(run.before[0]),
        run.replies.len() >= 2,
        run.replies[0] == ReplyView::<H>::Auth(None),
        run.replies[1] == ReplyView::<H>::Reloaded(false),
    ensures
        run.replies.len() == 2,
        outcome(run) == fail::<H>(auth_required_error()),
        asks(run, 0, ActionView::ReadAuth),
        asks(run, 1, ActionView::ReloadAuth),
        forall|i: int| 0 <= i < 3 ==> #[trigger] run.after[i] == run.before[i],
{
    lemma_goes_on(run, 0);
    lemma_goes_on(run, 1);
    if run.replies.len() > 2 {
        lemma_goes_on(run, 2);
    }
}

/// The request is still being checked, or was not let through.
pub open spec fn is_held_back<H: Host>(progress: ProgressView<H>) -> bool {
    match progress {
        ProgressView::Pending { task, action } => task is CheckingAuth || task is RecheckingAuth,
        ProgressView::Unanswered { .. } => true,
        ProgressView::Finished { answer } => answer == Err::<ResponseView<H>, ErrorView>(
            auth_required_error(),
        ),
    }
}

/// The replies show that the client is authenticated.
pub open spec fn shows_auth<H: Host>(replies: Seq<ReplyView<H>>) -> bool {
    ||| replies.len() >= 1 && (replies[0] matches ReplyView::Auth(auth) && auth is Some)
    ||| replies.len() >= 2 && replies[0] == ReplyView::<H>::Auth(None) && replies[1]
        == ReplyView::<H>::Reloaded(true)
}

/// A request for authenticated clients goes no further unless the client is
/// authenticated.
pub proof fn guarded_requests_need_authentication<H: Host>(run: Run<H>, i: int)
    requires
        is_run(run),
        is_guarded(run.request),
        needs_auth(run.before[0]),
        0 <= i < run.progress.len(),
        !shows_auth(run.replies),
    ensures
        is_held_back(run.progress[i]),
        run.after[i] == run.before[i],
        run.progress[i] matches ProgressView::Pending { task, action } ==> action is ReadAuth
            || action is ReloadAuth,
{
    if i > 0 {
        lemma_goes_on(run, 0);
        if i > 1 {
            lemma_goes_on(run, 1);
            if i > 2 {
                lemma_goes_on(run, 2);
            }
        }
    }
}

/// A request for authenticated clients is served like any other once the
/// client is known to be authenticated.
pub proof fn authenticated_requests_are_served<H: Host>(run: Run<H>)
    requires
        is_run(run),
        is_guarded(run.request),
        needs_auth(run.before[0]),
        shows_auth(run.replies),
    ensures
        run.replies[0] is Auth && run.replies[0]->Auth_0 is Some ==> (
            run.after[1],
            run.progress[1],
        ) == dispatched(run.before[1], run.request),
        run.replies[0] == ReplyView::<H>::Auth(None) ==> (run.after[2], run.progress[2])
            == dispatched(run.before[2], run.request),
{
    lemma_goes_on(run, 0);
    if run.replies[0] == ReplyView::<H>::Auth(None) {
        lemma_goes_on(run, 1);
    }
}

/// Other model providers do not want the client to be authenticated.
pub proof fn other_providers_need_no_authentication<H: Host>(
    agent: AgentView<H>,
    request: RequestView<H>,
)
    requires
        !needs_auth(agent),
    ensures
        served(agent, request) == dispatched(agent, request),
{
}

/// An identifier that no way to authenticate has is refused at once.
pub proof fn unknown_auth_methods_are_refused<H: Host>(agent: AgentView<H>, method_id: Seq<char>)
    requires
        forall|method: CodexAuthMethod| method_id != #[trigger] auth_method_id(method),
    ensures
        served(agent, RequestView::Authenticate { method_id }) == (
            agent,
            fail::<H>(invalid_params_error("unsupported authentication method"@)),
        ),
{
    assert(method_id != auth_method_id(CodexAuthMethod::ChatGpt));
    assert(method_id != auth_method_id(CodexAuthMethod::CodexApiKey));
    assert(method_id != auth_method_id(CodexAuthMethod::OpenAiApiKey));
}

/// Who is authenticated the way that is asked for does not log in again.
pub proof fn authenticated_clients_do_not_log_in_again<H: Host>(
    run: Run<H>,
    method: CodexAuthMethod,
    auth: Option<CodexAuth>,
)
    requires
        is_run(run),
        run.request == (RequestView::<H>::Authenticate { method_id: auth_method_id(method) }),
        already_authenticated(auth, method),
        run.replies.len() >= 1,
        run.replies[0] == ReplyView::<H>::Auth(auth),
    ensures
        run.replies.len() == 1,
        outcome(run) == succeed(ResponseView::<H>::Authenticate),
        asks(run, 0, ActionView::ReadAuth),
{
    auth_method_ids_are_read_back(method);
    lemma_goes_on(run, 0);
    if run.replies.len() > 1 {
        lemma_goes_on(run, 1);
    }
}

spec fn is_authentication_stage<H: Host>(
    method: CodexAuthMethod,
    run: Run<H>,
    i: int,
) -> bool {
    match run.progress[i] {
        ProgressView::Pending { task, action } => match task {
            TaskView::ReadingAuth { method: m } => i == 0 && m == method && action is ReadAuth,
            TaskView::StartingLogin => i == 1 && method == CodexAuthMethod::ChatGpt
                && action is StartLogin,
            TaskView::AwaitingLogin => i == 2 && method == CodexAuthMethod::ChatGpt
                && action is AwaitLogin,
            TaskView::ReadingApiKey { method: m } => i == 1 && m == method && method
                != CodexAuthMethod::ChatGpt && action == (ActionView::<H>::ReadApiKey { method }),
            TaskView::StoringApiKey => i == 2 && method != CodexAuthMethod::ChatGpt && (
            run.replies[1] matches ReplyView::ApiKey(Some(key)) && action == (ActionView::<
                H,
            >::StoreApiKey { api_key: key })),
            TaskView::AdoptingAuth => i == 3 && action is ReloadAuth && went_well(run.replies[2]),
            _ => false,
        },
        ProgressView::Unanswered { .. } => true,
        ProgressView::Finished { answer } => answer is Ok ==> answer->Ok_0 == ResponseView::<
            H,
        >::Authenticate && (i == 1 || i == 4),
    }
}

proof fn lemma_authentication_stage<H: Host>(method: CodexAuthMethod, run: Run<H>, i: int)
    requires
        is_run(run),
        run.request == (RequestView::<H>::Authenticate { method_id: auth_method_id(method) }),
        0 <= i < run.progress.len(),
    ensures
        is_authentication_stage(method, run, i),
    decreases i,
{
    auth_method_ids_are_read_back(method);
    if i > 0 {
        lemma_authentication_stage(method, run, i - 1);
        lemma_goes_on(run, i - 1);
    }
}

/// A client that becomes authenticated has logged in, or its API key was
/// stored; and last of all the agent has taken up the new credentials.
pub proof fn new_credentials_are_taken_up<H: Host>(
    run: Run<H>,
    method: CodexAuthMethod,
    auth: Option<CodexAuth>,
)
    requires
        is_run(run),
        run.request == (RequestView::<H>::Authenticate { method_id: auth_method_id(method) }),
        run.replies.len() >= 1,
        run.replies[0] == ReplyView::<H>::Auth(auth),
        !already_authenticated(auth, method),
        outcome(run) == succeed(ResponseView::<H>::Authenticate),
    ensures
        run.replies.len() == 4,
        went_well(run.replies[2]),
        asks(run, 3, ActionView::ReloadAuth),
        method == CodexAuthMethod::ChatGpt ==> asks(run, 1, ActionView::StartLogin)
            && went_well(run.replies[1]) && asks(
            run,
            2,
            ActionView::AwaitLogin,
        ),
        method != CodexAuthMethod::ChatGpt ==> asks(run, 1, ActionView::ReadApiKey { method }) && (
        run.replies[1] matches ReplyView::ApiKey(Some(api_key)) && asks(
            run,
            2,
            ActionView::StoreApiKey { api_key },
        )),
{
    let n = run.replies.len() as int;
    auth_method_ids_are_read_back(method);
    lemma_authentication_stage(method, run, n);
    lemma_authentication_stage(method, run, n - 1);
    lemma_goes_on(run, n - 1);
    lemma_goes_on(run, 0);
    assert(n == 4);
    lemma_authentication_stage(method, run, 1);
    lemma_goes_on(run, 1);
    lemma_authentication_stage(method, run, 2);
    lemma_goes_on(run, 2);
    lemma_authentication_stage(method, run, 3);
}

/// The identifier of a way to authenticate that the client is told of.
pub open spec fn told_id(method: AuthMethodView) -> Seq<char> {
    match method {
        AuthMethodView::Agent { id, .. } => id,
        AuthMethodView::EnvVar { id, .. } => id,
    }
}

/// Every way to authenticate that the client is offered can be asked for.
pub proof fn offered_auth_methods_are_accepted(
    settings: SettingsView,
    no_browser: bool,
    i: int,
)
    requires
        0 <= i < offered_auth_methods(settings, no_browser).len(),
    ensures
        identified_auth_method(told_id(offered_auth_methods(settings, no_browser)[i])) is Ok,
{
    auth_method_ids_are_read_back(CodexAuthMethod::ChatGpt);
    auth_method_ids_are_read_back(CodexAuthMethod::CodexApiKey);
    auth_method_ids_are_read_back(CodexAuthMethod::OpenAiApiKey);
}

/// The login with ChatGPT is offered exactly where there is a browser.
pub proof fn browser_login_needs_a_browser(settings: SettingsView, no_browser: bool)
    ensures
        (exists|i: int|
            0 <= i < offered_auth_methods(settings, no_browser).len() && told_id(
                #[trigger] offered_auth_methods(settings, no_browser)[i],
            ) == auth_method_id(CodexAuthMethod::ChatGpt)) <==> !no_browser,
{
    auth_method_ids_are_read_back(CodexAuthMethod::ChatGpt);
    auth_method_ids_are_read_back(CodexAuthMethod::CodexApiKey);
    auth_method_ids_are_read_back(CodexAuthMethod::OpenAiApiKey);
    let offered = offered_auth_methods(settings, no_browser);
    if !no_browser {
        assert(told_id(offered[0]) == auth_method_id(CodexAuthMethod::ChatGpt));
    } else {
        assert(offered.len() == 2);
    }
}

} // verus!
