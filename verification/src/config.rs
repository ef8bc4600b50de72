//! The configuration of a session: where it works, and which MCP servers it
//! may use.

use crate::error::{internal_error_with, Error, ErrorView};
use crate::settings::{texts, Settings, SettingsView};
use crate::string_map::StringMap;
use crate::text::{is_white_space, underscore_white_space, underscored, without_white_space};
use crate::title::optional_text;
use vstd::prelude::*;

verus! {

/// An MCP server that the client asks for.
pub enum McpServer {
    /// A server that is reached over HTTP, with the headers to send.
    Http { name: String, url: String, headers: Vec<(String, String)> },
    /// A server that is started as a process, with its environment.
    Stdio { name: String, command: String, args: Vec<String>, env: Vec<(String, String)> },
    /// A server that is reached over server-sent events.
    Sse,
    /// A server of any other kind.
    Other,
}

/// The model of [`McpServer`].
pub enum McpServerView {
    Http { name: Seq<char>, url: Seq<char>, headers: Seq<(Seq<char>, Seq<char>)> },
    Stdio {
        name: Seq<char>,
        command: Seq<char>,
        args: Seq<Seq<char>>,
        env: Seq<(Seq<char>, Seq<char>)>,
    },
    Sse,
    Other,
}

/// How a configured MCP server is reached.
pub enum McpServerTransportConfig {
    StreamableHttp {
        url: String,
        bearer_token_env_var: Option<String>,
        http_headers: Option<StringMap<String>>,
        env_http_headers: Option<StringMap<String>>,
    },
    Stdio {
        command: String,
        args: Vec<String>,
        env: Option<StringMap<String>>,
        env_vars: Vec<String>,
        cwd: Option<String>,
    },
}

/// The model of [`McpServerTransportConfig`].
pub enum McpServerTransportConfigView {
    StreamableHttp {
        url: Seq<char>,
        bearer_token_env_var: Option<Seq<char>>,
        http_headers: Option<Map<Seq<char>, Seq<char>>>,
        env_http_headers: Option<Map<Seq<char>, Seq<char>>>,
    },
    Stdio {
        command: Seq<char>,
        args: Seq<Seq<char>>,
        env: Option<Map<Seq<char>, Seq<char>>>,
        env_vars: Seq<Seq<char>>,
        cwd: Option<Seq<char>>,
    },
}

/// The configuration of an MCP server that the client asked for.
pub struct McpServerConfig {
    pub transport: McpServerTransportConfig,
    pub required: bool,
    pub enabled: bool,
    pub startup_timeout_sec: Option<u64>,
    pub tool_timeout_sec: Option<u64>,
    pub disabled_tools: Option<Vec<String>>,
    pub enabled_tools: Option<Vec<String>>,
    pub disabled_reason: Option<String>,
    pub scopes: Option<Vec<String>>,
    pub oauth: Option<String>,
    pub oauth_resource: Option<String>,
    /// The tools that have settings of their own.
    pub tools: Vec<String>,
    pub environment_id: String,
    pub supports_parallel_tool_calls: bool,
    pub default_tools_approval_mode: Option<String>,
}

/// The model of [`McpServerConfig`].
pub struct McpServerConfigView {
    pub transport: McpServerTransportConfigView,
    pub required: bool,
    pub enabled: bool,
    pub startup_timeout_sec: Option<u64>,
    pub tool_timeout_sec: Option<u64>,
    pub disabled_tools: Option<Seq<Seq<char>>>,
    pub enabled_tools: Option<Seq<Seq<char>>>,
    pub disabled_reason: Option<Seq<char>>,
    pub scopes: Option<Seq<Seq<char>>>,
    pub oauth: Option<Seq<char>>,
    pub oauth_resource: Option<Seq<char>>,
    pub tools: Seq<Seq<char>>,
    pub environment_id: Seq<char>,
    pub supports_parallel_tool_calls: bool,
    pub default_tools_approval_mode: Option<Seq<char>>,
}

/// What a session has under the name of an MCP server: the server that is
/// configured for every session, or one that the client asked for.
pub enum McpServerEntry {
    Configured,
    Requested(McpServerConfig),
}

/// The model of [`McpServerEntry`].
pub enum McpServerEntryView {
    Configured,
    Requested(McpServerConfigView),
}

/// The configuration of a session.
pub struct SessionConfig {
    pub cwd: String,
    pub mcp_servers: StringMap<McpServerEntry>,
}

/// The model of [`SessionConfig`].
pub struct SessionConfigView {
    pub cwd: Seq<char>,
    pub mcp_servers: Map<Seq<char>, McpServerEntryView>,
}

/// The texts of a list of pairs.
pub open spec fn text_pairs(pairs: Seq<(String, String)>) -> Seq<(Seq<char>, Seq<char>)> {
    pairs.map_values(|pair: (String, String)| (pair.0@, pair.1@))
}

/// The texts of a map of strings.
pub open spec fn text_map(map: Map<Seq<char>, String>) -> Map<Seq<char>, Seq<char>> {
    map.map_values(|value: String| value@)
}

/// The texts of an optional map of strings.
pub open spec fn optional_text_map(map: Option<StringMap<String>>) -> Option<
    Map<Seq<char>, Seq<char>>,
> {
    match map {
        Some(map) => Some(text_map(map@)),
        None => None,
    }
}

/// The texts of an optional list of strings.
pub open spec fn optional_texts(strings: Option<Vec<String>>) -> Option<Seq<Seq<char>>> {
    match strings {
        Some(strings) => Some(texts(strings@)),
        None => None,
    }
}

/// The models of a list of servers.
pub open spec fn server_views(servers: Seq<McpServer>) -> Seq<McpServerView> {
    servers.map_values(|server: McpServer| server@)
}

impl View for McpServer {
    type V = McpServerView;

    open spec fn view(&self) -> McpServerView {
        match *self {
            McpServer::Http { name, url, headers } => McpServerView::Http {
                name: name@,
                url: url@,
                headers: text_pairs(headers@),
            },
            McpServer::Stdio { name, command, args, env } => McpServerView::Stdio {
                name: name@,
                command: command@,
                args: texts(args@),
                env: text_pairs(env@),
            },
            McpServer::Sse => McpServerView::Sse,
            McpServer::Other => McpServerView::Other,
        }
    }
}

impl View for McpServerTransportConfig {
    type V = McpServerTransportConfigView;

    open spec fn view(&self) -> McpServerTransportConfigView {
        match *self {
            McpServerTransportConfig::StreamableHttp {
                url,
                bearer_token_env_var,
                http_headers,
                env_http_headers,
            } => McpServerTransportConfigView::StreamableHttp {
                url: url@,
                bearer_token_env_var: optional_text(bearer_token_env_var),
                http_headers: optional_text_map(http_headers),
                env_http_headers: optional_text_map(env_http_headers),
            },
            McpServerTransportConfig::Stdio { command, args, env, env_vars, cwd } =>
            McpServerTransportConfigView::Stdio {
                command: command@,
                args: texts(args@),
                env: optional_text_map(env),
                env_vars: texts(env_vars@),
                cwd: optional_text(cwd),
            },
        }
    }
}

impl View for McpServerConfig {
    type V = McpServerConfigView;

    open spec fn view(&self) -> McpServerConfigView {
        McpServerConfigView {
            transport: self.transport@,
            required: self.required,
            enabled: self.enabled,
            startup_timeout_sec: self.startup_timeout_sec,
            tool_timeout_sec: self.tool_timeout_sec,
            disabled_tools: optional_texts(self.disabled_tools),
            enabled_tools: optional_texts(self.enabled_tools),
            disabled_reason: optional_text(self.disabled_reason),
            scopes: optional_texts(self.scopes),
            oauth: optional_text(self.oauth),
            oauth_resource: optional_text(self.oauth_resource),
            tools: texts(self.tools@),
            environment_id: self.environment_id@,
            supports_parallel_tool_calls: self.supports_parallel_tool_calls,
            default_tools_approval_mode: optional_text(self.default_tools_approval_mode),
        }
    }
}

impl View for McpServerEntry {
    type V = McpServerEntryView;

    open spec fn view(&self) -> McpServerEntryView {
        match *self {
            McpServerEntry::Configured => McpServerEntryView::Configured,
            McpServerEntry::Requested(config) => McpServerEntryView::Requested(config@),
        }
    }
}

/// The models of a map of entries.
pub open spec fn entry_views(entries: Map<Seq<char>, McpServerEntry>) -> Map<
    Seq<char>,
    McpServerEntryView,
> {
    entries.map_values(|entry: McpServerEntry| entry@)
}

impl View for SessionConfig {
    type V = SessionConfigView;

    open spec fn view(&self) -> SessionConfigView {
        SessionConfigView { cwd: self.cwd@, mcp_servers: entry_views(self.mcp_servers@) }
    }
}

/// The map that a list of named values stands for; of two values with the
/// same name the later counts.
pub open spec fn named_values(pairs: Seq<(Seq<char>, Seq<char>)>) -> Map<Seq<char>, Seq<char>>
    decreases pairs.len(),
{
    if pairs.len() == 0 {
        Map::empty()
    } else {
        named_values(pairs.drop_last()).insert(pairs.last().0, pairs.last().1)
    }
}

/// As [`named_values`], and nothing for an empty list.
pub open spec fn optional_named_values(pairs: Seq<(Seq<char>, Seq<char>)>) -> Option<
    Map<Seq<char>, Seq<char>>,
> {
    if pairs.len() == 0 {
        None
    } else {
        Some(named_values(pairs))
    }
}

/// How a requested server is reached; nothing where its kind is not supported.
pub open spec fn requested_transport(server: McpServerView, cwd: Seq<char>) -> Option<
    McpServerTransportConfigView,
> {
    match server {
        McpServerView::Http { name, url, headers } => Some(
            McpServerTransportConfigView::StreamableHttp {
                url,
                bearer_token_env_var: None,
                http_headers: optional_named_values(headers),
                env_http_headers: None,
            },
        ),
        McpServerView::Stdio { name, command, args, env } => Some(
            McpServerTransportConfigView::Stdio {
                command,
                args,
                env: optional_named_values(env),
                env_vars: Seq::empty(),
                cwd: Some(cwd),
            },
        ),
        McpServerView::Sse | McpServerView::Other => None,
    }
}

/// The name under which a requested server is configured: its own, with white
/// space replaced. A server of a kind that is not supported has none.
pub open spec fn configured_name(server: McpServerView) -> Option<Seq<char>> {
    match server {
        McpServerView::Http { name, .. } => Some(underscored(name)),
        McpServerView::Stdio { name, .. } => Some(underscored(name)),
        McpServerView::Sse | McpServerView::Other => None,
    }
}

/// The configuration of a server that is reached the given way: enabled, not
/// required, in the given environment, and nothing else set.
pub open spec fn standard_config(
    transport: McpServerTransportConfigView,
    environment_id: Seq<char>,
) -> McpServerConfigView {
    McpServerConfigView {
        transport,
        required: false,
        enabled: true,
        startup_timeout_sec: None,
        tool_timeout_sec: None,
        disabled_tools: None,
        enabled_tools: None,
        disabled_reason: None,
        scopes: None,
        oauth: None,
        oauth_resource: None,
        tools: Seq::empty(),
        environment_id,
        supports_parallel_tool_calls: false,
        default_tools_approval_mode: None,
    }
}

/// What a session has under the name of a requested server.
pub open spec fn requested_entry(
    server: McpServerView,
    cwd: Seq<char>,
    environment_id: Seq<char>,
) -> McpServerEntryView {
    McpServerEntryView::Requested(
        standard_config(requested_transport(server, cwd)->0, environment_id),
    )
}

/// The servers that are configured for every session.
pub open spec fn configured_entries(names: Seq<Seq<char>>) -> Map<Seq<char>, McpServerEntryView> {
    Map::new(|name: Seq<char>| names.contains(name), |name: Seq<char>| McpServerEntryView::Configured)
}

/// The servers of a session: the given ones, and on top of them the requested
/// ones, each in place of what had its name.
pub open spec fn merged_servers(
    given: Map<Seq<char>, McpServerEntryView>,
    requested: Seq<McpServerView>,
    cwd: Seq<char>,
    environment_id: Seq<char>,
) -> Map<Seq<char>, McpServerEntryView>
    decreases requested.len(),
{
    if requested.len() == 0 {
        given
    } else {
        let earlier = merged_servers(given, requested.drop_last(), cwd, environment_id);
        match configured_name(requested.last()) {
            Some(name) => earlier.insert(
                name,
                requested_entry(requested.last(), cwd, environment_id),
            ),
            None => earlier,
        }
    }
}

/// The configuration of a session that works in the given directory. Where the
/// directory could not be resolved, there is none.
pub open spec fn session_config(
    settings: SettingsView,
    cwd: Result<Seq<char>, Seq<char>>,
    requested: Seq<McpServerView>,
) -> Result<SessionConfigView, ErrorView> {
    match cwd {
        Ok(cwd) => Ok(
            SessionConfigView {
                cwd,
                mcp_servers: merged_servers(
                    configured_entries(settings.configured_mcp_servers),
                    requested,
                    cwd,
                    settings.default_mcp_environment_id,
                ),
            },
        ),
        Err(reason) => Err(internal_error_with(reason)),
    }
}

/// The texts of an outcome that is a string either way.
pub open spec fn text_outcome(outcome: Result<String, String>) -> Result<Seq<char>, Seq<char>> {
    match outcome {
        Ok(text) => Ok(text@),
        Err(reason) => Err(reason@),
    }
}

fn copy_strings(strings: &Vec<String>) -> (copies: Vec<String>)
    ensures
        texts(copies@) == texts(strings@),
{
    let mut copies: Vec<String> = Vec::new();
    for i in 0..strings.len()
        invariant
            copies@ == strings@.take(i as int),
    {
        copies.push(strings[i].clone());
        assert(strings@.take(i + 1) =~= strings@.take(i as int).push(strings@[i as int]));
    }
    assert(strings@.take(strings@.len() as int) =~= strings@);
    copies
}

/// Collects named values; of two with the same name the later is kept.
fn collect_named(pairs: &Vec<(String, String)>) -> (values: Option<StringMap<String>>)
    ensures
        optional_text_map(values) == optional_named_values(text_pairs(pairs@)),
{
    if pairs.len() == 0 {
        return None;
    }
    let mut values: StringMap<String> = StringMap::new();
    let ghost views = text_pairs(pairs@);
    assert(text_map(values@) =~= named_values(views.take(0)));
    for i in 0..pairs.len()
        invariant
            views == text_pairs(pairs@),
            text_map(values@) == named_values(views.take(i as int)),
    {
        let name: String = pairs[i].0.clone();
        let value: String = pairs[i].1.clone();
        let ghost before = values@;
        values.insert(name, value);
        assert(text_map(values@) =~= text_map(before).insert(name@, value@));
        assert(views.take(i + 1).drop_last() =~= views.take(i as int));
    }
    assert(views.take(views.len() as int) =~= views);
    Some(values)
}

fn configure(transport: McpServerTransportConfig, environment_id: &String) -> (config:
    McpServerConfig)
    ensures
        config@ == standard_config(transport@, environment_id@),
{
    let tools: Vec<String> = Vec::new();
    assert(texts(tools@) =~= Seq::empty());
    McpServerConfig {
        transport,
        required: false,
        enabled: true,
        startup_timeout_sec: None,
        tool_timeout_sec: None,
        disabled_tools: None,
        enabled_tools: None,
        disabled_reason: None,
        scopes: None,
        oauth: None,
        oauth_resource: None,
        tools,
        environment_id: environment_id.clone(),
        supports_parallel_tool_calls: false,
        default_tools_approval_mode: None,
    }
}

/// The name and the configuration of a requested server, if its kind is
/// supported.
pub fn configure_requested(server: &McpServer, cwd: &String, environment_id: &String) -> (entry:
    Option<(String, McpServerConfig)>)
    ensures
        match entry {
            Some((name, config)) => {
                &&& configured_name(server@) == Some(name@)
                &&& McpServerEntryView::Requested(config@) == requested_entry(
                    server@,
                    cwd@,
                    environment_id@,
                )
            },
            None => configured_name(server@) is None,
        },
{
    match server {
        McpServer::Sse | McpServer::Other => None,
        McpServer::Http { name, url, headers } => {
            let transport: McpServerTransportConfig = McpServerTransportConfig::StreamableHttp {
                url: url.clone(),
                bearer_token_env_var: None,
                http_headers: collect_named(headers),
                env_http_headers: None,
            };
            Some((underscore_white_space(name.as_str()), configure(transport, environment_id)))
        },
        McpServer::Stdio { name, command, args, env } => {
            let env_vars: Vec<String> = Vec::new();
            assert(texts(env_vars@) =~= Seq::empty());
            let transport: McpServerTransportConfig = McpServerTransportConfig::Stdio {
                command: command.clone(),
                args: copy_strings(args),
                env: collect_named(env),
                env_vars,
                cwd: Some(cwd.clone()),
            };
            Some((underscore_white_space(name.as_str()), configure(transport, environment_id)))
        },
    }
}

fn configured_servers(names: &Vec<String>) -> (servers: StringMap<McpServerEntry>)
    ensures
        entry_views(servers@) == configured_entries(texts(names@)),
{
    let mut servers: StringMap<McpServerEntry> = StringMap::new();
    let ghost all = texts(names@);
    assert(entry_views(servers@) =~= configured_entries(all.take(0)));
    for i in 0..names.len()
        invariant
            all == texts(names@),
            entry_views(servers@) == configured_entries(all.take(i as int)),
    {
        let ghost before = servers@;
        servers.insert(names[i].clone(), McpServerEntry::Configured);
        proof {
            let name = names@[i as int]@;
            assert(entry_views(servers@) =~= entry_views(before).insert(
                name,
                McpServerEntryView::Configured,
            ));
            assert(all.take(i + 1) =~= all.take(i as int).push(name));
            assert forall|other: Seq<char>| #[trigger]
                all.take(i + 1).contains(other) == (all.take(i as int).contains(other) || other
                    == name) by {
                let longer = all.take(i + 1);
                let shorter = all.take(i as int);
                if shorter.contains(other) {
                    let k = choose|k: int| 0 <= k < shorter.len() && shorter[k] == other;
                    assert(longer[k] == other);
                }
                if other == name {
                    assert(longer[i as int] == other);
                }
                if longer.contains(other) && other != name {
                    let k = choose|k: int| 0 <= k < longer.len() && longer[k] == other;
                    assert(shorter[k] == other);
                }
            }
            assert(configured_entries(all.take(i + 1)) =~= configured_entries(
                all.take(i as int),
            ).insert(name, McpServerEntryView::Configured));
        }
    }
    assert(all.take(all.len() as int) =~= all);
    servers
}

/// Makes the configuration of a session out of the agent's settings, the
/// working directory, or why it could not be resolved, and the servers that
/// the client asked for.
pub fn make_session_config(
    settings: &Settings,
    cwd: Result<String, String>,
    requested: &Vec<McpServer>,
) -> (config: Result<SessionConfig, Error>)
    ensures
        match config {
            Ok(made) => session_config(settings@, text_outcome(cwd), server_views(requested@))
                == Ok::<SessionConfigView, ErrorView>(made@),
            Err(error) => session_config(settings@, text_outcome(cwd), server_views(requested@))
                == Err::<SessionConfigView, ErrorView>(error@),
        },
{
    let cwd: String = match cwd {
        Ok(cwd) => cwd,
        Err(reason) => {
            return Err(Error::into_internal_error(reason));
        },
    };
    let environment_id: &String = &settings.default_mcp_environment_id;
    let mut servers: StringMap<McpServerEntry> = configured_servers(
        &settings.configured_mcp_servers,
    );
    let ghost given = entry_views(servers@);
    let ghost views = server_views(requested@);
    assert(merged_servers(given, views.take(0), cwd@, environment_id@) == given);
    for i in 0..requested.len()
        invariant
            views == server_views(requested@),
            entry_views(servers@) == merged_servers(
                given,
                views.take(i as int),
                cwd@,
                environment_id@,
            ),
    {
        let ghost before = servers@;
        assert(views.take(i + 1).drop_last() =~= views.take(i as int));
        assert(views.take(i + 1).last() == requested@[i as int]@);
        match configure_requested(&requested[i], &cwd, environment_id) {
            Some((name, config)) => {
                let entry: McpServerEntry = McpServerEntry::Requested(config);
                servers.insert(name, entry);
                assert(entry_views(servers@) =~= entry_views(before).insert(name@, entry@));
            },
            None => {},
        }
    }
    assert(views.take(views.len() as int) =~= views);
    Ok(SessionConfig { cwd, mcp_servers: servers })
}

/// A session has a server under a name exactly where one with that name is
/// configured for every session or was asked for.
pub proof fn merged_names(
    given: Map<Seq<char>, McpServerEntryView>,
    requested: Seq<McpServerView>,
    cwd: Seq<char>,
    environment_id: Seq<char>,
    name: Seq<char>,
)
    ensures
        merged_servers(given, requested, cwd, environment_id).contains_key(name) <==> {
            ||| given.contains_key(name)
            ||| exists|i: int|
                0 <= i < requested.len() && configured_name(#[trigger] requested[i]) == Some(name)
        },
    decreases requested.len(),
{
    if requested.len() > 0 {
        let earlier = requested.drop_last();
        merged_names(given, earlier, cwd, environment_id, name);
        assert(requested.last() == requested[requested.len() - 1]);
        if exists|i: int|
            0 <= i < earlier.len() && configured_name(#[trigger] earlier[i]) == Some(name) {
            let i = choose|i: int|
                0 <= i < earlier.len() && configured_name(#[trigger] earlier[i]) == Some(name);
            assert(requested[i] == earlier[i]);
        }
        if exists|i: int|
            0 <= i < requested.len() && configured_name(#[trigger] requested[i]) == Some(name) {
            let i = choose|i: int|
                0 <= i < requested.len() && configured_name(#[trigger] requested[i]) == Some(name);
            if i < earlier.len() {
                assert(requested[i] == earlier[i]);
            }
        }
    }
}

/// Of the requested servers with a name, the last is the one that the session
/// has.
pub proof fn last_requested_server_wins(
    given: Map<Seq<char>, McpServerEntryView>,
    requested: Seq<McpServerView>,
    cwd: Seq<char>,
    environment_id: Seq<char>,
    index: int,
    name: Seq<char>,
)
    requires
        0 <= index < requested.len(),
        configured_name(requested[index]) == Some(name),
        forall|later: int|
            index < later < requested.len() ==> configured_name(#[trigger] requested[later])
                != Some(name),
    ensures
        merged_servers(given, requested, cwd, environment_id).contains_key(name),
        merged_servers(given, requested, cwd, environment_id)[name] == requested_entry(
            requested[index],
            cwd,
            environment_id,
        ),
    decreases requested.len(),
{
    if index < requested.len() - 1 {
        let earlier = requested.drop_last();
        assert(configured_name(requested[requested.len() - 1]) != Some(name));
        assert forall|later: int| index < later < earlier.len() implies configured_name(
            #[trigger] earlier[later],
        ) != Some(name) by {
            assert(earlier[later] == requested[later]);
        }
        last_requested_server_wins(given, earlier, cwd, environment_id, index, name);
    }
}

/// A server that nothing requested has the name of stays as it was.
pub proof fn other_servers_are_kept(
    given: Map<Seq<char>, McpServerEntryView>,
    requested: Seq<McpServerView>,
    cwd: Seq<char>,
    environment_id: Seq<char>,
    name: Seq<char>,
)
    requires
        given.contains_key(name),
        forall|i: int|
            0 <= i < requested.len() ==> configured_name(#[trigger] requested[i]) != Some(name),
    ensures
        merged_servers(given, requested, cwd, environment_id).contains_key(name),
        merged_servers(given, requested, cwd, environment_id)[name] == given[name],
    decreases requested.len(),
{
    if requested.len() > 0 {
        let earlier = requested.drop_last();
        assert(configured_name(requested[requested.len() - 1]) != Some(name));
        assert forall|i: int| 0 <= i < earlier.len() implies configured_name(#[trigger] earlier[i])
            != Some(name) by {
            assert(earlier[i] == requested[i]);
        }
        other_servers_are_kept(given, earlier, cwd, environment_id, name);
    }
}

/// The name of a requested server holds no white space.
pub proof fn requested_names_hold_no_white_space(server: McpServerView)
    ensures
        configured_name(server) matches Some(name) ==> forall|i: int|
            0 <= i < name.len() ==> !is_white_space(#[trigger] name[i]),
{
    if let Some(name) = configured_name(server) {
        let own = match server {
            McpServerView::Http { name, .. } => name,
            McpServerView::Stdio { name, .. } => name,
            _ => Seq::empty(),
        };
        assert forall|i: int| 0 <= i < name.len() implies !is_white_space(#[trigger] name[i]) by {
            assert(name[i] == without_white_space(own[i]));
        }
    }
}

/// A name that holds no white space is kept as it is.
pub proof fn plain_names_are_kept(name: Seq<char>)
    requires
        forall|i: int| 0 <= i < name.len() ==> !is_white_space(#[trigger] name[i]),
    ensures
        underscored(name) == name,
{
    assert(underscored(name) =~= name);
}

} // verus!
