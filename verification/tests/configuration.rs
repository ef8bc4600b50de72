use codex_acp::auth::{AuthMethod, CodexAuth, CodexAuthMethod};
use codex_acp::config::{
    configure_requested, make_session_config, McpServer, McpServerEntry, McpServerTransportConfig,
    SessionConfig,
};
use codex_acp::error::{
    Error, ErrorData, AUTH_REQUIRED, INTERNAL_ERROR, INVALID_PARAMS, RESOURCE_NOT_FOUND,
};
use codex_acp::settings::Settings;
use codex_acp::string_map::StringMap;

fn settings() -> Settings {
    Settings {
        model_provider_id: "openai".to_string(),
        codex_api_key_env_var: "CODEX_API_KEY".to_string(),
        openai_api_key_env_var: "OPENAI_API_KEY".to_string(),
        default_mcp_environment_id: "local".to_string(),
        configured_mcp_servers: vec!["docs".to_string(), "files".to_string()],
        version: "1.2.3".to_string(),
        has_state_db: true,
    }
}

fn pair(name: &str, value: &str) -> (String, String) {
    (name.to_string(), value.to_string())
}

fn http(name: &str, url: &str, headers: Vec<(String, String)>) -> McpServer {
    McpServer::Http { name: name.to_string(), url: url.to_string(), headers }
}

fn stdio(name: &str, command: &str, env: Vec<(String, String)>) -> McpServer {
    McpServer::Stdio {
        name: name.to_string(),
        command: command.to_string(),
        args: vec!["--flag".to_string(), "value".to_string()],
        env,
    }
}

fn configured(requested: Vec<McpServer>) -> SessionConfig {
    match make_session_config(&settings(), Ok("/work".to_string()), &requested) {
        Ok(config) => config,
        Err(error) => panic!("{}", error.message),
    }
}

fn requested_url(config: &SessionConfig, name: &str) -> Option<String> {
    match config.mcp_servers.get(&name.to_string()) {
        Some(McpServerEntry::Requested(server)) => match &server.transport {
            McpServerTransportConfig::StreamableHttp { url, .. } => Some(url.clone()),
            McpServerTransportConfig::Stdio { .. } => None,
        },
        _ => None,
    }
}

#[test]
fn configured_servers_are_kept() {
    let config = configured(vec![]);
    assert_eq!(config.cwd, "/work");
    assert_eq!(config.mcp_servers.len(), 2);
    assert!(matches!(
        config.mcp_servers.get(&"docs".to_string()),
        Some(McpServerEntry::Configured)
    ));
    assert!(config.mcp_servers.get(&"other".to_string()).is_none());
}

#[test]
fn http_servers_are_configured_with_their_headers() {
    let server = http(
        "my web\tserver",
        "https://example.com",
        vec![pair("A", "1"), pair("B", "2"), pair("A", "3")],
    );
    let (name, config) =
        configure_requested(&server, &"/work".to_string(), &"local".to_string()).unwrap();
    assert_eq!(name, "my_web_server");
    assert!(config.enabled);
    assert!(!config.required);
    assert!(!config.supports_parallel_tool_calls);
    assert_eq!(config.environment_id, "local");
    assert!(config.tools.is_empty());
    assert!(config.startup_timeout_sec.is_none() && config.tool_timeout_sec.is_none());
    match config.transport {
        McpServerTransportConfig::StreamableHttp {
            url,
            bearer_token_env_var,
            http_headers,
            env_http_headers,
        } => {
            assert_eq!(url, "https://example.com");
            assert!(bearer_token_env_var.is_none());
            assert!(env_http_headers.is_none());
            let headers = http_headers.unwrap();
            assert_eq!(headers.len(), 2);
            assert_eq!(headers.get(&"A".to_string()), Some(&"3".to_string()));
            assert_eq!(headers.get(&"B".to_string()), Some(&"2".to_string()));
        }
        McpServerTransportConfig::Stdio { .. } => panic!("not a process"),
    }
}

#[test]
fn processes_are_configured_with_their_environment_and_directory() {
    let server = stdio("tool", "/bin/tool", vec![pair("K", "v")]);
    let (name, config) =
        configure_requested(&server, &"/work".to_string(), &"local".to_string()).unwrap();
    assert_eq!(name, "tool");
    match config.transport {
        McpServerTransportConfig::Stdio { command, args, env, env_vars, cwd } => {
            assert_eq!(command, "/bin/tool");
            assert_eq!(args, vec!["--flag".to_string(), "value".to_string()]);
            assert_eq!(env.unwrap().get(&"K".to_string()), Some(&"v".to_string()));
            assert!(env_vars.is_empty());
            assert_eq!(cwd, Some("/work".to_string()));
        }
        McpServerTransportConfig::StreamableHttp { .. } => panic!("not a url"),
    }
}

#[test]
fn empty_headers_and_environments_are_left_out() {
    let web = http("web", "u", vec![]);
    let (_, config) = configure_requested(&web, &"/w".to_string(), &"e".to_string()).unwrap();
    assert!(matches!(
        config.transport,
        McpServerTransportConfig::StreamableHttp { http_headers: None, .. }
    ));
    let tool = stdio("tool", "t", vec![]);
    let (_, config) = configure_requested(&tool, &"/w".to_string(), &"e".to_string()).unwrap();
    assert!(matches!(config.transport, McpServerTransportConfig::Stdio { env: None, .. }));
}

#[test]
fn unsupported_servers_are_skipped() {
    let config = configured(vec![McpServer::Sse, McpServer::Other]);
    assert_eq!(config.mcp_servers.len(), 2);
    assert!(
        configure_requested(&McpServer::Sse, &"/w".to_string(), &"e".to_string()).is_none()
    );
}

#[test]
fn requested_servers_replace_those_of_their_name() {
    let config = configured(vec![
        http("docs", "first", vec![]),
        http("a b", "second", vec![]),
        http("a\u{3000}b", "third", vec![]),
    ]);
    assert_eq!(config.mcp_servers.len(), 3);
    assert_eq!(requested_url(&config, "docs"), Some("first".to_string()));
    assert_eq!(requested_url(&config, "a_b"), Some("third".to_string()));
    assert!(matches!(
        config.mcp_servers.get(&"files".to_string()),
        Some(McpServerEntry::Configured)
    ));
}

#[test]
fn a_directory_that_cannot_be_resolved_is_an_internal_error() {
    match make_session_config(&settings(), Err("not absolute".to_string()), &vec![]) {
        Ok(_) => panic!("there is no directory"),
        Err(error) => {
            assert_eq!(error.code, INTERNAL_ERROR);
            assert!(matches!(error.data, Some(ErrorData::Text(text)) if text == "not absolute"));
        }
    }
}

#[test]
fn string_maps_hold_one_value_for_a_key() {
    let mut map: StringMap<u32> = StringMap::new();
    assert_eq!(map.len(), 0);
    map.insert("a".to_string(), 1);
    map.insert("b".to_string(), 2);
    map.insert("a".to_string(), 3);
    assert_eq!(map.len(), 2);
    assert_eq!(map.get(&"a".to_string()), Some(&3));
    map.remove(&"a".to_string());
    map.remove(&"c".to_string());
    assert_eq!(map.get(&"a".to_string()), None);
    assert_eq!(map.entries().len(), 1);
    assert_eq!(map.entries()[0], ("b".to_string(), 2));
}

#[test]
fn errors_are_those_of_the_protocol() {
    let outside = agent_client_protocol::Error::auth_required();
    let error = Error::auth_required();
    assert_eq!(error.code, AUTH_REQUIRED);
    assert_eq!(error.code, i32::from(outside.code));
    assert_eq!(error.message, "Authentication required");

    let error = Error::resource_not_found();
    assert_eq!(error.code, RESOURCE_NOT_FOUND);
    assert_eq!(error.message, "Resource not found");
    assert!(error.data.is_none());

    let error = Error::invalid_params("why".to_string());
    assert_eq!(error.code, INVALID_PARAMS);
    assert_eq!(error.message, "Invalid params");
    assert!(matches!(error.data, Some(ErrorData::Text(text)) if text == "why"));

    let error = Error::internal_error();
    assert_eq!(error.code, INTERNAL_ERROR);
    assert_eq!(error.message, "Internal error");
    assert!(error.data.is_none());

    let error = Error::into_internal_error("why".to_string());
    assert_eq!(error.code, INTERNAL_ERROR);
    assert!(matches!(error.data, Some(ErrorData::Text(text)) if text == "why"));
}

#[test]
fn auth_methods_are_found_by_their_identifiers() {
    for (method, id) in [
        (CodexAuthMethod::ChatGpt, "chatgpt"),
        (CodexAuthMethod::CodexApiKey, "codex-api-key"),
        (CodexAuthMethod::OpenAiApiKey, "openai-api-key"),
    ] {
        assert_eq!(method.id(), id);
        assert_eq!(CodexAuthMethod::try_from(&id.to_string()).ok(), Some(method));
    }
    let error = CodexAuthMethod::try_from(&"ChatGPT".to_string()).err().unwrap();
    assert_eq!(error.code, INVALID_PARAMS);
    assert!(matches!(
        error.data,
        Some(ErrorData::Text(text)) if text == "unsupported authentication method"
    ));
}

#[test]
fn auth_methods_are_described() {
    match CodexAuthMethod::ChatGpt.describe(&settings()) {
        AuthMethod::Agent { id, name, description } => {
            assert_eq!(id, "chatgpt");
            assert_eq!(name, "Login with ChatGPT");
            assert_eq!(
                description,
                Some(
                    "Use your ChatGPT login with Codex CLI (requires a paid ChatGPT subscription)"
                        .to_string()
                )
            );
        }
        AuthMethod::EnvVar { .. } => panic!("no variable is needed"),
    }
    match CodexAuthMethod::OpenAiApiKey.describe(&settings()) {
        AuthMethod::EnvVar { id, name, vars, description } => {
            assert_eq!(id, "openai-api-key");
            assert_eq!(name, "Use OPENAI_API_KEY");
            assert_eq!(vars, vec!["OPENAI_API_KEY".to_string()]);
            assert_eq!(
                description,
                Some("Requires setting the `OPENAI_API_KEY` environment variable.".to_string())
            );
        }
        AuthMethod::Agent { .. } => panic!("a variable is needed"),
    }
}

#[test]
fn any_api_key_satisfies_both_api_key_methods() {
    assert!(CodexAuthMethod::CodexApiKey.is_satisfied_by(Some(CodexAuth::ApiKey)));
    assert!(CodexAuthMethod::OpenAiApiKey.is_satisfied_by(Some(CodexAuth::ApiKey)));
    assert!(CodexAuthMethod::ChatGpt.is_satisfied_by(Some(CodexAuth::Chatgpt)));
    assert!(!CodexAuthMethod::ChatGpt.is_satisfied_by(Some(CodexAuth::ApiKey)));
    assert!(!CodexAuthMethod::CodexApiKey.is_satisfied_by(Some(CodexAuth::Chatgpt)));
    assert!(!CodexAuthMethod::ChatGpt.is_satisfied_by(Some(CodexAuth::Other)));
    assert!(!CodexAuthMethod::ChatGpt.is_satisfied_by(None));
}
