//! The course that requests take which get client and agent to know each other.

use crate::action::{ActionView, ReplyView};
use crate::agent::AgentView;
use crate::auth::{
    already_authenticated, auth_method_id, auth_method_ids_are_read_back, described_auth_method,
    identified_auth_method, missing_key_reason, AuthMethodView, CodexAuth, CodexAuthMethod,
};
use crate::error::{ErrorDataView, ErrorView};
use crate::laws::course::{ends, failure_of, keeps_agent, lemma_next};
use crate::laws::run::{asks, is_run, Run};
use crate::protocol::{Host, IntroductionView, RequestView, ResponseView};
use crate::settings::SettingsView;
use crate::task::ProgressView;
use vstd::prelude::*;

verus! {

/// The client is told to set the variable.
pub open spec fn asks_for_variable(
    method: AuthMethodView,
    id: Seq<char>,
    variable: Seq<char>,
) -> bool {
    method matches AuthMethodView::EnvVar { id: told, name, vars, description } && {
        &&& told == id
        &&& name == "Use "@ + variable
        &&& vars.len() == 1
        &&& vars[0] == variable
        &&& description == Some("Requires setting the `"@ + variable + "` environment variable."@)
    }
}

/// The client is told to log in with ChatGPT.
pub open spec fn asks_for_login(method: AuthMethodView) -> bool {
    method matches AuthMethodView::Agent { id, name, description } && {
        &&& id == "chatgpt"@
        &&& name == "Login with ChatGPT"@
        &&& description == Some(
            "Use your ChatGPT login with Codex CLI (requires a paid ChatGPT subscription)"@,
        )
    }
}

/// Each way to authenticate is described as what it is.
pub proof fn auth_methods_are_described_as_they_are(settings: SettingsView)
    ensures
        asks_for_login(described_auth_method(CodexAuthMethod::ChatGpt, settings)),
        asks_for_variable(
            described_auth_method(CodexAuthMethod::CodexApiKey, settings),
            "codex-api-key"@,
            settings.codex_api_key_env_var,
        ),
        asks_for_variable(
            described_auth_method(CodexAuthMethod::OpenAiApiKey, settings),
            "openai-api-key"@,
            settings.openai_api_key_env_var,
        ),
{
}

/// The agent introduces itself: by name, title and version, with what it can
/// do, and with the ways to authenticate, of which the first needs a browser.
pub open spec fn introduces_agent(
    shown: IntroductionView,
    settings: SettingsView,
    no_browser: bool,
) -> bool {
    let keys = if no_browser {
        0int
    } else {
        1
    };
    &&& shown.protocol_version == 1
    &&& shown.name == "codex-acp"@
    &&& shown.title == "Codex"@
    &&& shown.version == settings.version
    &&& shown.capabilities.load_session
    &&& shown.capabilities.image
    &&& !shown.capabilities.audio
    &&& shown.capabilities.embedded_context
    &&& shown.capabilities.mcp_http
    &&& !shown.capabilities.mcp_sse
    &&& shown.capabilities.logout
    &&& shown.capabilities.close_session
    &&& shown.capabilities.list_sessions
    &&& shown.capabilities.resume_session
    &&& shown.capabilities.set_session_title
    &&& shown.auth_methods.len() == keys + 2
    &&& !no_browser ==> asks_for_login(shown.auth_methods[0])
    &&& asks_for_variable(
        shown.auth_methods[keys],
        "codex-api-key"@,
        settings.codex_api_key_env_var,
    )
    &&& asks_for_variable(
        shown.auth_methods[keys + 1],
        "openai-api-key"@,
        settings.openai_api_key_env_var,
    )
}

/// An initialization is answered at once with the agent's introduction. What
/// the client can do is taken note of, and nothing else changes.
pub proof fn initializations_take_their_course<H: Host>(
    run: Run<H>,
    client_capabilities: H::Capabilities,
    no_browser: bool,
)
    requires
        is_run(run),
        run.request == (RequestView::<H>::Initialize { client_capabilities, no_browser }),
    ensures
        run.replies.len() == 0,
        run.progress[0] matches ProgressView::Finished {
            answer: Ok(ResponseView::Initialize(shown)),
        } && introduces_agent(shown, run.before[0].settings, no_browser),
        run.after[0] == (AgentView { client_capabilities, ..run.before[0] }),
{
    lemma_next(run, 0);
}

/// The identifier stands for a way to authenticate.
pub open spec fn stands_for(id: Seq<char>, method: CodexAuthMethod) -> bool {
    match method {
        CodexAuthMethod::ChatGpt => id == "chatgpt"@,
        CodexAuthMethod::CodexApiKey => id == "codex-api-key"@,
        CodexAuthMethod::OpenAiApiKey => id == "openai-api-key"@,
    }
}

/// The agent is authenticated that way: with ChatGPT, or with some API key.
pub open spec fn has_auth(auth: Option<CodexAuth>, method: CodexAuthMethod) -> bool {
    match method {
        CodexAuthMethod::ChatGpt => auth == Some(CodexAuth::Chatgpt),
        CodexAuthMethod::CodexApiKey => auth == Some(CodexAuth::ApiKey),
        CodexAuthMethod::OpenAiApiKey => auth == Some(CodexAuth::ApiKey),
    }
}

/// An identifier that stands for no way to authenticate is refused at once.
pub proof fn unknown_ways_are_refused<H: Host>(run: Run<H>, method_id: Seq<char>)
    requires
        is_run(run),
        run.request == (RequestView::<H>::Authenticate { method_id }),
        method_id != "chatgpt"@,
        method_id != "codex-api-key"@,
        method_id != "openai-api-key"@,
    ensures
        ends(
            run,
            0,
            Err(
                ErrorView {
                    code: (-32602) as i32,
                    message: "Invalid params"@,
                    data: Some(ErrorDataView::Text("unsupported authentication method"@)),
                },
            ),
        ),
        keeps_agent(run, 0),
{
    lemma_next(run, 0);
}

/// An authentication asks how the agent is authenticated. Where it is that way
/// already, that is all. Otherwise the user logs in at a server, or the API key
/// of that way is read and stored; then the credentials are taken up, and the
/// client is answered. What fails is told, and a variable that is not set is
/// named. Nothing of the agent changes.
pub proof fn authentications_take_their_course<H: Host>(
    run: Run<H>,
    method_id: Seq<char>,
    method: CodexAuthMethod,
)
    requires
        is_run(run),
        run.request == (RequestView::<H>::Authenticate { method_id }),
        stands_for(method_id, method),
    ensures
        ({
            let n = run.replies.len();
            let login = method == CodexAuthMethod::ChatGpt;
            let variable = if method == CodexAuthMethod::CodexApiKey {
                run.before[0].settings.codex_api_key_env_var
            } else {
                run.before[0].settings.openai_api_key_env_var
            };
            &&& asks(run, 0, ActionView::ReadAuth)
            &&& forall|i: int| 0 <= i <= 4 ==> #[trigger] keeps_agent(run, i)
            &&& n > 0 ==> match run.replies[0] {
                ReplyView::Auth(auth) => if has_auth(auth, method) {
                    ends(run, 1, Ok(ResponseView::Authenticate))
                } else if login {
                    asks(run, 1, ActionView::StartLogin)
                } else {
                    asks(run, 1, ActionView::ReadApiKey { method })
                },
                _ => true,
            }
            &&& n > 1 ==> match run.replies[1] {
                ReplyView::Done(Ok(_)) => login ==> asks(run, 2, ActionView::AwaitLogin),
                ReplyView::Done(Err(reason)) => login ==> ends(run, 2, Err(failure_of(reason))),
                ReplyView::ApiKey(Some(api_key)) => !login ==> asks(
                    run,
                    2,
                    ActionView::StoreApiKey { api_key },
                ),
                ReplyView::ApiKey(None) => !login ==> ends(
                    run,
                    2,
                    Err(failure_of(variable + " is not set"@)),
                ),
                _ => true,
            }
            &&& n > 2 ==> match run.replies[2] {
                ReplyView::Done(Ok(_)) => asks(run, 3, ActionView::ReloadAuth),
                ReplyView::Done(Err(reason)) => ends(run, 3, Err(failure_of(reason))),
                _ => true,
            }
            &&& n > 3 ==> match run.replies[3] {
                ReplyView::Reloaded(_) => ends(run, 4, Ok(ResponseView::Authenticate)),
                _ => true,
            }
        }),
{
    auth_method_ids_are_read_back(method);
    lemma_next(run, 0);
    lemma_next(run, 1);
    lemma_next(run, 2);
    lemma_next(run, 3);
    lemma_next(run, 4);
}

/// A logout has the credentials forgotten, and is then answered; a failure is
/// told. Nothing of the agent changes.
pub proof fn logouts_take_their_course<H: Host>(run: Run<H>)
    requires
        is_run(run),
        run.request == RequestView::<H>::Logout,
    ensures
        asks(run, 0, ActionView::Logout),
        keeps_agent(run, 0),
        keeps_agent(run, 1),
        run.replies.len() > 0 ==> match run.replies[0] {
            ReplyView::Done(Ok(_)) => ends(run, 1, Ok(ResponseView::Logout)),
            ReplyView::Done(Err(reason)) => ends(run, 1, Err(failure_of(reason))),
            _ => true,
        },
{
    lemma_next(run, 0);
    lemma_next(run, 1);
}

/// Each way to authenticate has its identifier, and is found by it and by no
/// other.
pub proof fn auth_methods_have_their_identifiers(id: Seq<char>, method: CodexAuthMethod)
    ensures
        stands_for(auth_method_id(method), method),
        identified_auth_method(id) == Ok::<CodexAuthMethod, ErrorView>(method) <==> stands_for(
            id,
            method,
        ),
{
    auth_method_ids_are_read_back(method);
    auth_method_ids_are_read_back(CodexAuthMethod::ChatGpt);
    auth_method_ids_are_read_back(CodexAuthMethod::CodexApiKey);
    auth_method_ids_are_read_back(CodexAuthMethod::OpenAiApiKey);
}

/// Credentials count for the ways to authenticate that they come from, and for
/// no other.
pub proof fn credentials_count_for_their_way(auth: Option<CodexAuth>, method: CodexAuthMethod)
    ensures
        already_authenticated(auth, method) <==> has_auth(auth, method),
{
}

/// Where an API key cannot be had, the client is told which variable is not
/// set.
pub proof fn missing_keys_are_named(settings: SettingsView)
    ensures
        missing_key_reason(CodexAuthMethod::CodexApiKey, settings)
            == settings.codex_api_key_env_var + " is not set"@,
        missing_key_reason(CodexAuthMethod::OpenAiApiKey, settings)
            == settings.openai_api_key_env_var + " is not set"@,
{
}

} // verus!
