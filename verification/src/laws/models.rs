//! What the models say of the values that cross the border of the library: just
//! what these hold.

use crate::action::{Action, ActionView, InitialHistory, InitialHistoryView, Reply, ReplyView};
use crate::auth::{AuthMethod, AuthMethodView};
use crate::config::{
    McpServer, McpServerConfig, McpServerEntry, McpServerEntryView, McpServerTransportConfig,
    McpServerTransportConfigView, McpServerView, SessionConfig,
};
use crate::error::{
    auth_required_error, internal_error_with, invalid_params_error, not_found_error,
    plain_internal_error, Error, ErrorData, ErrorDataView,
};
use crate::listing::{ListThreadsParams, SessionInfo, StoredThread, ThreadPage};
use crate::protocol::{Host, Introduction, Request, RequestView, Response, ResponseView};
use crate::settings::Settings;
use crate::task::{Progress, ProgressView};
use vstd::prelude::*;

verus! {

/// The two have the same text, or both have none.
pub open spec fn same_text(string: Option<String>, text: Option<Seq<char>>) -> bool {
    &&& string is Some <==> text is Some
    &&& string matches Some(own) ==> own@ == text->0
}

/// The two have the same texts in the same order.
pub open spec fn same_texts(strings: Seq<String>, texts: Seq<Seq<char>>) -> bool {
    &&& strings.len() == texts.len()
    &&& forall|i: int| 0 <= i < strings.len() ==> (#[trigger] strings[i])@ == texts[i]
}

/// The two have the same pairs of texts in the same order.
pub open spec fn same_pairs(
    pairs: Seq<(String, String)>,
    texts: Seq<(Seq<char>, Seq<char>)>,
) -> bool {
    &&& pairs.len() == texts.len()
    &&& forall|i: int|
        0 <= i < pairs.len() ==> (#[trigger] pairs[i]).0@ == texts[i].0 && pairs[i].1@ == texts[i].1
}

/// The two have the same texts under the same names.
pub open spec fn same_values(
    values: Map<Seq<char>, String>,
    texts: Map<Seq<char>, Seq<char>>,
) -> bool {
    &&& forall|name: Seq<char>| #[trigger]
        texts.contains_key(name) <==> values.contains_key(name)
    &&& forall|name: Seq<char>| #[trigger]
        texts.contains_key(name) ==> values[name]@ == texts[name]
}

/// A listed session, a stored thread and a page of threads.
pub proof fn listed_values_are_modelled(
    session: SessionInfo,
    thread: StoredThread,
    page: ThreadPage,
    params: ListThreadsParams,
)
    ensures
        session@.session_id == session.session_id@,
        session@.cwd == session.cwd@,
        same_text(session.title, session@.title),
        session@.updated_at == session.updated_at@,
        thread@.thread_id == thread.thread_id@,
        thread@.source == thread.source,
        thread@.cwd == thread.cwd@,
        same_text(thread.name, thread@.name),
        thread@.preview == thread.preview@,
        thread@.updated_at == thread.updated_at@,
        page@.items.len() == page.items@.len(),
        forall|i: int| 0 <= i < page.items@.len() ==> (#[trigger] page.items@[i])@ == page@.items[i],
        same_text(page.next_cursor, page@.next_cursor),
        params@.page_size == params.page_size,
        same_text(params.cursor, params@.cursor),
        params@.sort_key == params.sort_key,
        params@.sort_direction == params.sort_direction,
        params@.allowed_sources == params.allowed_sources@,
        params.model_providers is Some <==> params@.model_providers is Some,
        params.model_providers matches Some(providers) ==> same_texts(
            providers@,
            params@.model_providers->0,
        ),
        params.cwd_filters is Some <==> params@.cwd_filters is Some,
        params.cwd_filters matches Some(filters) ==> same_texts(
            filters@,
            params@.cwd_filters->0,
        ),
        params@.archived == params.archived,
        same_text(params.search_term, params@.search_term),
        params@.use_state_db_only == params.use_state_db_only,
{
}

/// A server that the client asks for.
pub proof fn requested_servers_are_modelled(server: McpServer)
    ensures
        server matches McpServer::Http { name, url, headers } ==> (
        server@ matches McpServerView::Http { name: n, url: u, headers: h } && n == name@ && u
            == url@ && same_pairs(headers@, h)),
        server matches McpServer::Stdio { name, command, args, env } ==> (
        server@ matches McpServerView::Stdio { name: n, command: c, args: a, env: e } && n == name@
            && c == command@ && same_texts(args@, a) && same_pairs(env@, e)),
        server is Sse ==> server@ is Sse,
        server is Other ==> server@ is Other,
{
}

/// How a configured server is reached, and what else is said of it.
pub proof fn configured_servers_are_modelled(
    transport: McpServerTransportConfig,
    config: McpServerConfig,
)
    ensures
        transport matches McpServerTransportConfig::StreamableHttp {
            url,
            bearer_token_env_var,
            http_headers,
            env_http_headers,
        } ==> (transport@ matches McpServerTransportConfigView::StreamableHttp {
            url: u,
            bearer_token_env_var: b,
            http_headers: h,
            env_http_headers: e,
        } && u == url@ && same_text(bearer_token_env_var, b) && (http_headers is Some <==> h is Some)
            && (env_http_headers is Some <==> e is Some) && (http_headers matches Some(headers)
            ==> same_values(headers@, h->0)) && (env_http_headers matches Some(headers)
            ==> same_values(headers@, e->0))),
        transport matches McpServerTransportConfig::Stdio { command, args, env, env_vars, cwd } ==> (
        transport@ matches McpServerTransportConfigView::Stdio {
            command: c,
            args: a,
            env: e,
            env_vars: v,
            cwd: w,
        } && c == command@ && same_texts(args@, a) && (env is Some <==> e is Some) && (
        env matches Some(values) ==> same_values(values@, e->0)) && same_texts(env_vars@, v)
            && same_text(cwd, w)),
        config@.transport == config.transport@,
        config@.required == config.required,
        config@.enabled == config.enabled,
        config@.startup_timeout_sec == config.startup_timeout_sec,
        config@.tool_timeout_sec == config.tool_timeout_sec,
        config.disabled_tools is Some <==> config@.disabled_tools is Some,
        config.enabled_tools is Some <==> config@.enabled_tools is Some,
        same_text(config.disabled_reason, config@.disabled_reason),
        config.scopes is Some <==> config@.scopes is Some,
        same_text(config.oauth, config@.oauth),
        same_text(config.oauth_resource, config@.oauth_resource),
        same_texts(config.tools@, config@.tools),
        config@.environment_id == config.environment_id@,
        config@.supports_parallel_tool_calls == config.supports_parallel_tool_calls,
        same_text(config.default_tools_approval_mode, config@.default_tools_approval_mode),
{
}

/// The configuration of a session.
pub proof fn session_configs_are_modelled(config: SessionConfig, name: Seq<char>)
    ensures
        config@.cwd == config.cwd@,
        config@.mcp_servers.contains_key(name) <==> config.mcp_servers@.contains_key(name),
        config.mcp_servers@.contains_key(name) ==> match config.mcp_servers@[name] {
            McpServerEntry::Configured => config@.mcp_servers[name] is Configured,
            McpServerEntry::Requested(server) => config@.mcp_servers[name]
                == McpServerEntryView::Requested(server@),
        },
{
}

/// What the agent is told when it is made.
pub proof fn settings_are_modelled(settings: Settings)
    ensures
        settings@.model_provider_id == settings.model_provider_id@,
        settings@.codex_api_key_env_var == settings.codex_api_key_env_var@,
        settings@.openai_api_key_env_var == settings.openai_api_key_env_var@,
        settings@.default_mcp_environment_id == settings.default_mcp_environment_id@,
        same_texts(settings.configured_mcp_servers@, settings@.configured_mcp_servers),
        settings@.version == settings.version@,
        settings@.has_state_db == settings.has_state_db,
{
}

/// An error, and the errors that there are.
pub proof fn errors_are_modelled(error: Error, reason: Seq<char>)
    ensures
        error@.code == error.code,
        error@.message == error.message@,
        error.data is Some <==> error@.data is Some,
        error.data matches Some(ErrorData::Text(text)) ==> error@.data == Some(
            ErrorDataView::Text(text@),
        ),
        error.data matches Some(ErrorData::Json(json)) ==> error@.data == Some(
            ErrorDataView::Json(json@),
        ),
        auth_required_error().code == -32000,
        auth_required_error().message == "Authentication required"@,
        auth_required_error().data is None,
        not_found_error().code == -32002,
        not_found_error().message == "Resource not found"@,
        not_found_error().data is None,
        invalid_params_error(reason).code == -32602,
        invalid_params_error(reason).message == "Invalid params"@,
        invalid_params_error(reason).data == Some(ErrorDataView::Text(reason)),
        plain_internal_error().code == -32603,
        plain_internal_error().message == "Internal error"@,
        plain_internal_error().data is None,
        internal_error_with(reason).code == -32603,
        internal_error_with(reason).message == "Internal error"@,
        internal_error_with(reason).data == Some(ErrorDataView::Text(reason)),
{
}

/// What the client asks for.
pub proof fn requests_are_modelled<H: Host>(request: Request<H>)
    ensures
        request matches Request::Initialize { client_capabilities, no_browser } ==> request@ == (
        RequestView::<H>::Initialize { client_capabilities, no_browser }),
        request matches Request::Authenticate { method_id } ==> request@ == (RequestView::<
            H,
        >::Authenticate { method_id: method_id@ }),
        request is Logout ==> request@ is Logout,
        request matches Request::NewSession { cwd, mcp_servers } ==> (
        request@ matches RequestView::NewSession { cwd: c, mcp_servers: m } && c == cwd@ && m.len()
            == mcp_servers@.len() && forall|i: int|
            0 <= i < m.len() ==> #[trigger] m[i] == mcp_servers@[i]@),
        request matches Request::LoadSession { session_id, cwd, mcp_servers } ==> (
        request@ matches RequestView::LoadSession { session_id: s, cwd: c, mcp_servers: m } && s
            == session_id@ && c == cwd@ && m.len() == mcp_servers@.len() && forall|i: int|
            0 <= i < m.len() ==> #[trigger] m[i] == mcp_servers@[i]@),
        request matches Request::ResumeSession { session_id, cwd, mcp_servers } ==> (
        request@ matches RequestView::ResumeSession { session_id: s, cwd: c, mcp_servers: m } && s
            == session_id@ && c == cwd@ && m.len() == mcp_servers@.len() && forall|i: int|
            0 <= i < m.len() ==> #[trigger] m[i] == mcp_servers@[i]@),
        request matches Request::ListSessions { cwd, cursor } ==> (
        request@ matches RequestView::ListSessions { cwd: c, cursor: u } && same_text(cwd, c)
            && same_text(cursor, u)),
        request matches Request::CloseSession { session_id } ==> request@ == (RequestView::<
            H,
        >::CloseSession { session_id: session_id@ }),
        request matches Request::Prompt { session_id, prompt } ==> request@ == (RequestView::<
            H,
        >::Prompt { session_id: session_id@, prompt }),
        request matches Request::Cancel { session_id } ==> request@ == (RequestView::<H>::Cancel {
            session_id: session_id@,
        }),
        request matches Request::SetSessionMode { session_id, mode_id } ==> request@ == (
        RequestView::<H>::SetSessionMode { session_id: session_id@, mode_id: mode_id@ }),
        request matches Request::SetSessionTitle { session_id, title } ==> request@ == (
        RequestView::<H>::SetSessionTitle { session_id: session_id@, title: title@ }),
        request matches Request::SetSessionConfigOption { session_id, config_id, value } ==> request@
            == (RequestView::<H>::SetSessionConfigOption {
            session_id: session_id@,
            config_id: config_id@,
            value,
        }),
{
}

/// What the client is answered, and how the agent introduces itself.
pub proof fn responses_are_modelled<H: Host>(
    response: Response<H>,
    shown: Introduction,
    method: AuthMethod,
)
    ensures
        response matches Response::Initialize(shown) ==> response@ == ResponseView::<
            H,
        >::Initialize(shown@),
        response is Authenticate ==> response@ is Authenticate,
        response is Logout ==> response@ is Logout,
        response matches Response::NewSession { session_id, state } ==> response@ == (
        ResponseView::<H>::NewSession { session_id: session_id@, state }),
        response matches Response::LoadSession { state } ==> response@ == (ResponseView::<
            H,
        >::LoadSession { state }),
        response matches Response::ResumeSession { state } ==> response@ == (ResponseView::<
            H,
        >::ResumeSession { state }),
        response matches Response::ListSessions { sessions, next_cursor } ==> (
        response@ matches ResponseView::ListSessions { sessions: s, next_cursor: c } && same_text(
            next_cursor,
            c,
        ) && s.len() == sessions@.len() && forall|i: int|
            0 <= i < s.len() ==> #[trigger] s[i] == sessions@[i]@),
        response is CloseSession ==> response@ is CloseSession,
        response matches Response::Prompt { stop_reason } ==> response@ == (ResponseView::<
            H,
        >::Prompt { stop_reason }),
        response is Cancel ==> response@ is Cancel,
        response is SetSessionMode ==> response@ is SetSessionMode,
        response is SetSessionTitle ==> response@ is SetSessionTitle,
        response matches Response::SetSessionConfigOption { config_options } ==> response@ == (
        ResponseView::<H>::SetSessionConfigOption { config_options }),
        shown@.protocol_version == shown.protocol_version,
        shown@.capabilities == shown.capabilities,
        shown@.name == shown.name@,
        shown@.title == shown.title@,
        shown@.version == shown.version@,
        shown@.auth_methods.len() == shown.auth_methods@.len(),
        forall|i: int|
            0 <= i < shown.auth_methods@.len() ==> (#[trigger] shown.auth_methods@[i])@
                == shown@.auth_methods[i],
        method matches AuthMethod::Agent { id, name, description } ==> (
        method@ matches AuthMethodView::Agent { id: i, name: n, description: d } && i == id@ && n
            == name@ && same_text(description, d)),
        method matches AuthMethod::EnvVar { id, name, vars, description } ==> (
        method@ matches AuthMethodView::EnvVar { id: i, name: n, vars: v, description: d } && i
            == id@ && n == name@ && same_texts(vars@, v) && same_text(description, d)),
{
}

/// What is to be done next.
pub proof fn actions_are_modelled<H: Host>(action: Action<H>)
    ensures
        action is ReadAuth ==> action@ is ReadAuth,
        action is ReloadAuth ==> action@ is ReloadAuth,
        action is StartLogin ==> action@ is StartLogin,
        action is AwaitLogin ==> action@ is AwaitLogin,
        action is Logout ==> action@ is Logout,
        action matches Action::ReadApiKey { method } ==> action@ == (ActionView::<H>::ReadApiKey {
            method,
        }),
        action matches Action::StoreApiKey { api_key } ==> action@ == (ActionView::<
            H,
        >::StoreApiKey { api_key: api_key@ }),
        action matches Action::ResolveCwd { cwd } ==> action@ == (ActionView::<H>::ResolveCwd {
            cwd: cwd@,
        }),
        action matches Action::InstallServers { config } ==> action@ == (ActionView::<
            H,
        >::InstallServers { config: (*config)@ }),
        action matches Action::StartThread { config } ==> action@ == (ActionView::<
            H,
        >::StartThread { config: (*config)@ }),
        action matches Action::ResumeThread { config, rollout_path } ==> action@ == (ActionView::<
            H,
        >::ResumeThread { config: (*config)@, rollout_path: rollout_path@ }),
        action matches Action::OpenThread { session_id, config } ==> action@ == (ActionView::<
            H,
        >::OpenThread { session_id: session_id@, config: (*config)@ }),
        action matches Action::LoadThread { thread } ==> action@ == (ActionView::<H>::LoadThread {
            thread,
        }),
        action matches Action::FindRollout { session_id } ==> action@ == (ActionView::<
            H,
        >::FindRollout { session_id: session_id@ }),
        action matches Action::ReadHistory { rollout_path } ==> action@ == (ActionView::<
            H,
        >::ReadHistory { rollout_path: rollout_path@ }),
        action matches Action::ReplayHistory { thread, items } ==> action@ == (ActionView::<
            H,
        >::ReplayHistory { thread, items: items@ }),
        action matches Action::ListThreads { params } ==> action@ == (ActionView::<
            H,
        >::ListThreads { params: params@ }),
        action matches Action::ShutdownThread { thread } ==> action@ == (ActionView::<
            H,
        >::ShutdownThread { thread }),
        action matches Action::RemoveThread { thread_id } ==> action@ == (ActionView::<
            H,
        >::RemoveThread { thread_id: thread_id@ }),
        action matches Action::PromptThread { thread, prompt } ==> action@ == (ActionView::<
            H,
        >::PromptThread { thread, prompt }),
        action matches Action::CancelThread { thread } ==> action@ == (ActionView::<
            H,
        >::CancelThread { thread }),
        action matches Action::SetThreadMode { thread, mode_id } ==> action@ == (ActionView::<
            H,
        >::SetThreadMode { thread, mode_id: mode_id@ }),
        action matches Action::UpdateStateTitle { thread_id, title } ==> action@ == (ActionView::<
            H,
        >::UpdateStateTitle { thread_id: thread_id@, title: title@ }),
        action matches Action::SetThreadTitle { thread, title, shown } ==> (
        action@ matches ActionView::SetThreadTitle { thread: h, title: t, shown: s } && h == thread
            && t == title@ && same_text(shown, s)),
        action matches Action::AppendThreadName { thread_id, title } ==> action@ == (ActionView::<
            H,
        >::AppendThreadName { thread_id: thread_id@, title: title@ }),
        action matches Action::NotifyTitle { session_id, shown } ==> (
        action@ matches ActionView::NotifyTitle { session_id: i, shown: s } && i == session_id@
            && same_text(shown, s)),
        action matches Action::SetThreadConfigOption { thread, config_id, value } ==> action@ == (
        ActionView::<H>::SetThreadConfigOption { thread, config_id: config_id@, value }),
        action matches Action::ReadThreadConfigOptions { thread } ==> action@ == (ActionView::<
            H,
        >::ReadThreadConfigOptions { thread }),
{
}

/// What came of an action.
pub proof fn replies_are_modelled<H: Host>(reply: Reply<H>, history: InitialHistory<H>)
    ensures
        reply matches Reply::Auth(auth) ==> reply@ == ReplyView::<H>::Auth(auth),
        reply matches Reply::Reloaded(changed) ==> reply@ == ReplyView::<H>::Reloaded(changed),
        reply matches Reply::Done(Ok(_)) ==> (reply@ matches ReplyView::Done(done) && done is Ok),
        reply matches Reply::Done(Err(reason)) ==> reply@ == ReplyView::<H>::Done(Err(reason@)),
        reply matches Reply::ApiKey(key) ==> (reply@ matches ReplyView::ApiKey(k) && same_text(
            key,
            k,
        )),
        reply matches Reply::Resolved(Ok(path)) ==> reply@ == ReplyView::<H>::Resolved(Ok(path@)),
        reply matches Reply::Resolved(Err(reason)) ==> reply@ == ReplyView::<H>::Resolved(
            Err(reason@),
        ),
        reply matches Reply::Started(Ok(id)) ==> reply@ == ReplyView::<H>::Started(Ok(id@)),
        reply matches Reply::Started(Err(reason)) ==> reply@ == ReplyView::<H>::Started(
            Err(reason@),
        ),
        reply matches Reply::Opened(thread) ==> reply@ == ReplyView::<H>::Opened(thread),
        reply matches Reply::Loaded(Ok(state)) ==> reply@ == ReplyView::<H>::Loaded(Ok(state)),
        reply matches Reply::Loaded(Err(error)) ==> reply@ == ReplyView::<H>::Loaded(Err(error@)),
        reply matches Reply::Rollout(Ok(found)) ==> (reply@ matches ReplyView::Rollout(Ok(f))
            && same_text(found, f)),
        reply matches Reply::Rollout(Err(reason)) ==> reply@ == ReplyView::<H>::Rollout(
            Err(reason@),
        ),
        reply matches Reply::History(Ok(read)) ==> reply@ == ReplyView::<H>::History(Ok(read@)),
        reply matches Reply::History(Err(reason)) ==> reply@ == ReplyView::<H>::History(
            Err(reason@),
        ),
        reply matches Reply::Listed(Ok(page)) ==> reply@ == ReplyView::<H>::Listed(Ok(page@)),
        reply matches Reply::Listed(Err(reason)) ==> reply@ == ReplyView::<H>::Listed(Err(reason@)),
        reply is Removed ==> reply@ is Removed,
        reply matches Reply::Stopped(Ok(reason)) ==> reply@ == ReplyView::<H>::Stopped(Ok(reason)),
        reply matches Reply::Stopped(Err(error)) ==> reply@ == ReplyView::<H>::Stopped(Err(error@)),
        reply matches Reply::TitleUpdated(Ok(known)) ==> reply@ == ReplyView::<H>::TitleUpdated(
            Ok(known),
        ),
        reply matches Reply::TitleUpdated(Err(reason)) ==> reply@ == ReplyView::<
            H,
        >::TitleUpdated(Err(reason@)),
        reply matches Reply::Handled(Ok(_)) ==> (reply@ matches ReplyView::Handled(handled)
            && handled is Ok),
        reply matches Reply::Handled(Err(error)) ==> reply@ == ReplyView::<H>::Handled(Err(error@)),
        reply matches Reply::ConfigOptions(Ok(options)) ==> reply@ == ReplyView::<
            H,
        >::ConfigOptions(Ok(options)),
        reply matches Reply::ConfigOptions(Err(error)) ==> reply@ == ReplyView::<
            H,
        >::ConfigOptions(Err(error@)),
        history is New ==> history@ is New,
        history is Cleared ==> history@ is Cleared,
        history matches InitialHistory::Resumed(items) ==> history@ == InitialHistoryView::<
            H,
        >::Resumed(items@),
        history matches InitialHistory::Forked(items) ==> history@ == InitialHistoryView::<
            H,
        >::Forked(items@),
{
}

/// Where a request stands.
pub proof fn progress_is_modelled<H: Host>(progress: Progress<H>)
    ensures
        progress matches Progress::Pending { task, action } ==> progress@ == (ProgressView::<
            H,
        >::Pending { task: task@, action: action@ }),
        progress matches Progress::Unanswered { task } ==> progress@ == (ProgressView::<
            H,
        >::Unanswered { task: task@ }),
        progress matches Progress::Finished { answer: Ok(response) } ==> progress@ == (
        ProgressView::<H>::Finished { answer: Ok(response@) }),
        progress matches Progress::Finished { answer: Err(error) } ==> progress@ == (
        ProgressView::<H>::Finished { answer: Err(error@) }),
{
}

} // verus!
