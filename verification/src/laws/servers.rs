//! What holds of the configuration of a session.

use crate::config::{
    configured_entries, configured_name, last_requested_server_wins, merged_names, merged_servers,
    named_values, other_servers_are_kept, requested_entry, session_config, McpServerConfigView,
    McpServerEntryView, McpServerTransportConfigView, McpServerView, SessionConfigView,
};
use crate::error::ErrorDataView;
use crate::laws::texts::underscores_keep_other_characters;
use crate::settings::SettingsView;
use crate::text::{is_white_space, underscored};
use vstd::prelude::*;

verus! {

/// The map has the names of the pairs and no others, and under each of them the
/// value that was given with it last.
pub open spec fn holds_pairs(
    map: Map<Seq<char>, Seq<char>>,
    pairs: Seq<(Seq<char>, Seq<char>)>,
) -> bool {
    &&& forall|name: Seq<char>| #[trigger]
        map.contains_key(name) <==> exists|i: int| 0 <= i < pairs.len() && (#[trigger] pairs[i]).0
            == name
    &&& forall|i: int|
        0 <= i < pairs.len() && (forall|later: int|
            i < later < pairs.len() ==> (#[trigger] pairs[later]).0 != pairs[i].0) ==> map[(
        #[trigger] pairs[i]).0] == pairs[i].1
}

/// Named values are kept under their names, unchanged; of several with one name
/// the last is.
pub proof fn named_values_are_kept_unchanged(pairs: Seq<(Seq<char>, Seq<char>)>)
    ensures
        holds_pairs(named_values(pairs), pairs),
    decreases pairs.len(),
{
    if pairs.len() > 0 {
        let earlier = pairs.drop_last();
        let last = pairs.len() - 1;
        let map = named_values(pairs);
        named_values_are_kept_unchanged(earlier);
        assert forall|i: int| 0 <= i < last implies #[trigger] earlier[i] == pairs[i] by {}
        assert forall|name: Seq<char>| #[trigger] map.contains_key(name) <==> exists|i: int|
            0 <= i < pairs.len() && (#[trigger] pairs[i]).0 == name by {
            if map.contains_key(name) {
                if name == pairs[last].0 {
                } else {
                    assert(named_values(earlier).contains_key(name));
                    let i = choose|i: int| 0 <= i < last && (#[trigger] earlier[i]).0 == name;
                    assert(pairs[i].0 == name);
                }
            }
            if exists|i: int| 0 <= i < pairs.len() && (#[trigger] pairs[i]).0 == name {
                let i = choose|i: int| 0 <= i < pairs.len() && (#[trigger] pairs[i]).0 == name;
                if i < last {
                    assert(earlier[i].0 == name);
                }
            }
        }
        assert forall|i: int|
            0 <= i < pairs.len() && (forall|later: int|
                i < later < pairs.len() ==> (#[trigger] pairs[later]).0
                    != pairs[i].0) implies map[(#[trigger] pairs[i]).0] == pairs[i].1 by {
            if i < last {
                assert(pairs[last].0 != pairs[i].0);
                assert forall|later: int| i < later < last implies (#[trigger] earlier[later]).0
                    != earlier[i].0 by {
                    assert(pairs[later].0 != pairs[i].0);
                }
                assert(named_values(earlier)[earlier[i].0] == earlier[i].1);
            }
        }
    } else {
        assert(named_values(pairs) =~= Map::empty());
    }
}

/// There is a map where there are pairs, and it holds them.
pub open spec fn holds_optional_pairs(
    map: Option<Map<Seq<char>, Seq<char>>>,
    pairs: Seq<(Seq<char>, Seq<char>)>,
) -> bool {
    &&& map is None <==> pairs.len() == 0
    &&& map matches Some(map) ==> holds_pairs(map, pairs)
}

/// Nothing is said of an option but that the server is enabled, in the given
/// environment.
pub open spec fn is_otherwise_plain(config: McpServerConfigView, environment_id: Seq<char>) -> bool {
    &&& config.enabled
    &&& !config.required
    &&& config.startup_timeout_sec is None
    &&& config.tool_timeout_sec is None
    &&& config.disabled_tools is None
    &&& config.enabled_tools is None
    &&& config.disabled_reason is None
    &&& config.scopes is None
    &&& config.oauth is None
    &&& config.oauth_resource is None
    &&& config.tools.len() == 0
    &&& config.environment_id == environment_id
    &&& !config.supports_parallel_tool_calls
    &&& config.default_tools_approval_mode is None
}

/// The configuration is that of the requested server: a server on the web keeps
/// its address and headers; a process keeps its command, arguments and
/// environment, and runs in the session's directory.
pub open spec fn configures(
    config: McpServerConfigView,
    server: McpServerView,
    cwd: Seq<char>,
    environment_id: Seq<char>,
) -> bool {
    &&& is_otherwise_plain(config, environment_id)
    &&& match server {
        McpServerView::Http { name, url, headers } => {
            &&& config.transport matches McpServerTransportConfigView::StreamableHttp {
                url: configured_url,
                bearer_token_env_var,
                http_headers,
                env_http_headers,
            }
            &&& configured_url == url
            &&& bearer_token_env_var is None
            &&& holds_optional_pairs(http_headers, headers)
            &&& env_http_headers is None
        },
        McpServerView::Stdio { name, command, args, env } => {
            &&& config.transport matches McpServerTransportConfigView::Stdio {
                command: configured_command,
                args: configured_args,
                env: configured_env,
                env_vars,
                cwd: configured_cwd,
            }
            &&& configured_command == command
            &&& configured_args == args
            &&& holds_optional_pairs(configured_env, env)
            &&& env_vars.len() == 0
            &&& configured_cwd == Some(cwd)
        },
        McpServerView::Sse | McpServerView::Other => false,
    }
}

/// The name is that of the server, with an underscore for each white space and
/// nothing else changed. Only servers on the web and processes have one.
pub open spec fn is_configured_name(server: McpServerView, name: Seq<char>) -> bool {
    match server {
        McpServerView::Http { name: own, .. } => replaces_white_space(own, name),
        McpServerView::Stdio { name: own, .. } => replaces_white_space(own, name),
        McpServerView::Sse | McpServerView::Other => false,
    }
}

/// The second text is the first with an underscore for each white space.
pub open spec fn replaces_white_space(text: Seq<char>, changed: Seq<char>) -> bool {
    &&& changed.len() == text.len()
    &&& forall|i: int|
        0 <= i < text.len() ==> #[trigger] changed[i] == if is_white_space(text[i]) {
            '_'
        } else {
            text[i]
        }
}

proof fn lemma_configured_name(server: McpServerView, name: Seq<char>)
    ensures
        configured_name(server) == Some(name) <==> is_configured_name(server, name),
{
    let own = match server {
        McpServerView::Http { name, .. } => name,
        McpServerView::Stdio { name, .. } => name,
        _ => Seq::empty(),
    };
    assert forall|i: int| 0 <= i < own.len() implies #[trigger] underscored(own)[i]
        == if is_white_space(own[i]) {
        '_'
    } else {
        own[i]
    } by {
        underscores_keep_other_characters(own, i);
    }
    if is_configured_name(server, name) {
        assert(name =~= underscored(own));
    }
}

/// A requested server is configured as it was asked for.
pub proof fn requested_servers_are_configured_as_asked(
    server: McpServerView,
    cwd: Seq<char>,
    environment_id: Seq<char>,
    name: Seq<char>,
)
    requires
        is_configured_name(server, name),
    ensures
        requested_entry(server, cwd, environment_id) matches McpServerEntryView::Requested(config)
            && configures(config, server, cwd, environment_id),
{
    match server {
        McpServerView::Http { headers, .. } => {
            named_values_are_kept_unchanged(headers);
        },
        McpServerView::Stdio { env, .. } => {
            named_values_are_kept_unchanged(env);
        },
        _ => {},
    }
}

/// The configuration is what a session is to have: it works in the given
/// directory; under each name it has the server that was asked for last with
/// that name, as it was asked for, or else the one that every session has; and
/// it has no others.
pub open spec fn is_what_was_asked_for(
    config: SessionConfigView,
    settings: SettingsView,
    cwd: Seq<char>,
    requested: Seq<McpServerView>,
) -> bool {
    &&& config.cwd == cwd
    &&& forall|name: Seq<char>| #[trigger]
        config.mcp_servers.contains_key(name) <==> settings.configured_mcp_servers.contains(name)
            || exists|i: int|
            0 <= i < requested.len() && is_configured_name(#[trigger] requested[i], name)
    &&& forall|i: int, name: Seq<char>|
        {
            &&& 0 <= i < requested.len()
            &&& #[trigger] is_configured_name(requested[i], name)
            &&& forall|later: int|
                i < later < requested.len() ==> !is_configured_name(
                    #[trigger] requested[later],
                    name,
                )
        } ==> (config.mcp_servers[name] matches McpServerEntryView::Requested(server) && configures(
            server,
            requested[i],
            cwd,
            settings.default_mcp_environment_id,
        ))
    &&& forall|name: Seq<char>|
        settings.configured_mcp_servers.contains(name) && (forall|i: int|
            0 <= i < requested.len() ==> !is_configured_name(#[trigger] requested[i], name))
            ==> #[trigger] config.mcp_servers[name] is Configured
}

/// A session gets the configuration that was asked for with it, and none where
/// its directory has no absolute path: the client is then told why.
pub proof fn sessions_are_configured_as_asked(
    settings: SettingsView,
    cwd: Result<Seq<char>, Seq<char>>,
    requested: Seq<McpServerView>,
)
    ensures
        cwd matches Ok(path) ==> (session_config(settings, cwd, requested) matches Ok(config)
            && is_what_was_asked_for(config, settings, path, requested)),
        cwd matches Err(reason) ==> (session_config(settings, cwd, requested) matches Err(error)
            && error.code == -32603 && error.message == "Internal error"@ && error.data == Some(
            ErrorDataView::Text(reason),
        )),
{
    if let Ok(path) = cwd {
        let given = configured_entries(settings.configured_mcp_servers);
        let environment_id = settings.default_mcp_environment_id;
        let servers = merged_servers(given, requested, path, environment_id);
        assert forall|name: Seq<char>| #[trigger]
            servers.contains_key(name) <==> settings.configured_mcp_servers.contains(name)
                || exists|i: int|
                0 <= i < requested.len() && is_configured_name(#[trigger] requested[i], name) by {
            merged_names(given, requested, path, environment_id, name);
            assert forall|i: int| 0 <= i < requested.len() implies (configured_name(
                #[trigger] requested[i],
            ) == Some(name) <==> is_configured_name(requested[i], name)) by {
                lemma_configured_name(requested[i], name);
            }
        }
        assert forall|i: int, name: Seq<char>|
            {
                &&& 0 <= i < requested.len()
                &&& #[trigger] is_configured_name(requested[i], name)
                &&& forall|later: int|
                    i < later < requested.len() ==> !is_configured_name(
                        #[trigger] requested[later],
                        name,
                    )
            } implies (servers[name] matches McpServerEntryView::Requested(server) && configures(
            server,
            requested[i],
            path,
            environment_id,
        )) by {
            lemma_configured_name(requested[i], name);
            assert forall|later: int| i < later < requested.len() implies configured_name(
                #[trigger] requested[later],
            ) != Some(name) by {
                lemma_configured_name(requested[later], name);
            }
            last_requested_server_wins(given, requested, path, environment_id, i, name);
            requested_servers_are_configured_as_asked(requested[i], path, environment_id, name);
        }
        assert forall|name: Seq<char>|
            settings.configured_mcp_servers.contains(name) && (forall|i: int|
                0 <= i < requested.len() ==> !is_configured_name(
                    #[trigger] requested[i],
                    name,
                )) implies #[trigger] servers[name] is Configured by {
            assert forall|i: int| 0 <= i < requested.len() implies configured_name(
                #[trigger] requested[i],
            ) != Some(name) by {
                lemma_configured_name(requested[i], name);
            }
            other_servers_are_kept(given, requested, path, environment_id, name);
        }
    }
}

} // verus!
