use codex_acp::action::{Action, InitialHistory, Reply};
use codex_acp::agent::CodexAgent;
use codex_acp::auth::{AuthMethod, CodexAuth};
use codex_acp::config::{McpServer, McpServerEntry, SessionConfig};
use codex_acp::error::{
    Error, ErrorData, AUTH_REQUIRED, INTERNAL_ERROR, INVALID_PARAMS, RESOURCE_NOT_FOUND,
};
use codex_acp::listing::{SessionSource, StoredThread, ThreadPage};
use codex_acp::protocol::{Host, Request, Response, SessionState};
use codex_acp::session_use::release_thread;
use codex_acp::settings::Settings;
use codex_acp::task::{Progress, Task};
use std::collections::HashMap;
use std::sync::Arc;

struct Fake;

impl Host for Fake {
    type Capabilities = &'static str;
    type Thread = String;
    type HistoryItem = u32;
    type Modes = &'static str;
    type ConfigOptions = Vec<String>;
    type Prompt = &'static str;
    type StopReason = String;
    type ConfigValue = &'static str;
}

fn settings(provider: &str, has_state_db: bool) -> Settings {
    Settings {
        model_provider_id: provider.to_string(),
        codex_api_key_env_var: "CODEX_API_KEY".to_string(),
        openai_api_key_env_var: "OPENAI_API_KEY".to_string(),
        default_mcp_environment_id: "local".to_string(),
        configured_mcp_servers: vec!["docs".to_string()],
        version: "0.9.0".to_string(),
        has_state_db,
    }
}

fn agent(provider: &str, has_state_db: bool) -> CodexAgent<Fake> {
    CodexAgent::new(settings(provider, has_state_db), "nothing known")
}

/// Everything around the agent: what is stored, and what has been done.
struct World {
    auth: Option<CodexAuth>,
    changed_on_disk: bool,
    api_keys: HashMap<String, String>,
    login_fails: Option<String>,
    store_fails: Option<String>,
    logout_fails: Option<String>,
    cwd_fails: Option<String>,
    install_fails: Option<String>,
    start_fails: bool,
    resume_fails: Option<String>,
    load_fails: bool,
    replay_fails: bool,
    shutdown_fails: bool,
    find_fails: Option<String>,
    history_fails: Option<String>,
    list_fails: Option<String>,
    state_fails: Option<String>,
    index_fails: Option<String>,
    history: Option<Vec<u32>>,
    next_thread_id: String,
    records: HashMap<String, String>,
    state_titles: HashMap<String, String>,
    index: Vec<(String, String)>,
    notifications: Vec<(String, Option<String>)>,
    threads: Vec<StoredThread>,
    options: Vec<String>,
    configs: Vec<Arc<SessionConfig>>,
    log: Vec<String>,
}

fn world() -> World {
    World {
        auth: None,
        changed_on_disk: false,
        api_keys: HashMap::new(),
        login_fails: None,
        store_fails: None,
        logout_fails: None,
        cwd_fails: None,
        install_fails: None,
        start_fails: false,
        resume_fails: None,
        load_fails: false,
        replay_fails: false,
        shutdown_fails: false,
        find_fails: None,
        history_fails: None,
        list_fails: None,
        state_fails: None,
        index_fails: None,
        history: None,
        next_thread_id: new_thread_id(),
        records: HashMap::new(),
        state_titles: HashMap::new(),
        index: vec![],
        notifications: vec![],
        threads: vec![],
        options: vec![],
        configs: vec![],
        log: vec![],
    }
}

fn new_thread_id() -> String {
    codex_protocol::ConversationId::new().to_string()
}

fn outcome(failure: &Option<String>) -> Result<(), String> {
    match failure {
        Some(reason) => Err(reason.clone()),
        None => Ok(()),
    }
}

fn handled(fails: bool) -> Result<(), Error> {
    if fails {
        Err(Error::into_internal_error("the thread failed".to_string()))
    } else {
        Ok(())
    }
}

impl World {
    fn note(&mut self, text: &str) {
        self.log.push(text.to_string());
    }

    fn perform(&mut self, action: Action<Fake>) -> Reply<Fake> {
        match action {
            Action::ReadAuth => {
                self.note("read auth");
                Reply::Auth(self.auth)
            }
            Action::ReloadAuth => {
                self.note("reload auth");
                Reply::Reloaded(self.changed_on_disk)
            }
            Action::StartLogin => {
                self.note("start login");
                Reply::Done(Ok(()))
            }
            Action::AwaitLogin => {
                self.note("await login");
                Reply::Done(outcome(&self.login_fails))
            }
            Action::ReadApiKey { method } => {
                self.note("read api key");
                Reply::ApiKey(self.api_keys.get(&method.id()).cloned())
            }
            Action::StoreApiKey { api_key } => {
                self.note(&format!("store {api_key}"));
                Reply::Done(outcome(&self.store_fails))
            }
            Action::Logout => {
                self.note("logout");
                Reply::Done(outcome(&self.logout_fails))
            }
            Action::ResolveCwd { cwd } => Reply::Resolved(match &self.cwd_fails {
                Some(reason) => Err(reason.clone()),
                None => Ok(format!("/home/{cwd}")),
            }),
            Action::InstallServers { config } => {
                self.configs.push(config);
                Reply::Done(outcome(&self.install_fails))
            }
            Action::StartThread { config } => {
                self.note(&format!("start in {}", config.cwd));
                Reply::Started(if self.start_fails {
                    Err("no thread".to_string())
                } else {
                    Ok(self.next_thread_id.clone())
                })
            }
            Action::ResumeThread { config, rollout_path } => {
                self.note(&format!("resume {rollout_path} in {}", config.cwd));
                Reply::Done(outcome(&self.resume_fails))
            }
            Action::OpenThread { session_id, .. } => {
                Reply::Opened(Arc::new(format!("thread of {session_id}")))
            }
            Action::LoadThread { .. } => {
                self.note("load");
                Reply::Loaded(if self.load_fails {
                    Err(Error::into_internal_error("not loaded".to_string()))
                } else {
                    Ok(SessionState { modes: Some("modes"), config_options: None })
                })
            }
            Action::FindRollout { session_id } => {
                self.note("find record");
                Reply::Rollout(match &self.find_fails {
                    Some(reason) => Err(reason.clone()),
                    None => Ok(self.records.get(&session_id).cloned()),
                })
            }
            Action::ReadHistory { rollout_path } => {
                self.note(&format!("read {rollout_path}"));
                Reply::History(match (&self.history_fails, &self.history) {
                    (Some(reason), _) => Err(reason.clone()),
                    (None, Some(items)) => Ok(InitialHistory::Resumed(items.clone())),
                    (None, None) => Ok(InitialHistory::Cleared),
                })
            }
            Action::ReplayHistory { thread, items } => {
                self.note(&format!("{thread} replays {items:?}"));
                Reply::Handled(handled(self.replay_fails))
            }
            Action::ListThreads { params } => {
                self.note(&format!("list {} from {:?}", params.page_size, params.cursor));
                Reply::Listed(match &self.list_fails {
                    Some(reason) => Err(reason.clone()),
                    None => Ok(ThreadPage {
                        items: std::mem::take(&mut self.threads),
                        next_cursor: Some("more".to_string()),
                    }),
                })
            }
            Action::ShutdownThread { thread } => {
                self.note(&format!("{thread} ends"));
                Reply::Handled(handled(self.shutdown_fails))
            }
            Action::RemoveThread { thread_id } => {
                self.note(&format!("remove {thread_id}"));
                Reply::Removed
            }
            Action::PromptThread { thread, prompt } => {
                self.note(&format!("{thread} hears {prompt}"));
                Reply::Stopped(Ok("done".to_string()))
            }
            Action::CancelThread { thread } => {
                self.note(&format!("{thread} stops"));
                Reply::Handled(Ok(()))
            }
            Action::SetThreadMode { thread, mode_id } => {
                self.note(&format!("{thread} takes mode {mode_id}"));
                Reply::Handled(Ok(()))
            }
            Action::UpdateStateTitle { thread_id, title } => {
                self.note("update state");
                Reply::TitleUpdated(match &self.state_fails {
                    Some(reason) => Err(reason.clone()),
                    None => {
                        // The database indexes a thread once it has found its record.
                        let known = self.state_titles.contains_key(&thread_id);
                        if known || self.log.iter().any(|entry| entry == "find record") {
                            self.state_titles.insert(thread_id, title);
                        }
                        Ok(known)
                    }
                })
            }
            Action::SetThreadTitle { thread, title, shown } => {
                self.note(&format!("{thread} is called {title:?}, shown as {shown:?}"));
                Reply::Handled(Ok(()))
            }
            Action::AppendThreadName { thread_id, title } => {
                if self.index_fails.is_none() {
                    self.index.push((thread_id, title));
                }
                Reply::Done(outcome(&self.index_fails))
            }
            Action::NotifyTitle { session_id, shown } => {
                self.notifications.push((session_id, shown));
                Reply::Handled(Ok(()))
            }
            Action::SetThreadConfigOption { thread, config_id, value } => {
                self.note(&format!("{thread} sets an option"));
                self.options.push(format!("{config_id}={value}"));
                Reply::Handled(Ok(()))
            }
            Action::ReadThreadConfigOptions { .. } => {
                Reply::ConfigOptions(Ok(self.options.clone()))
            }
        }
    }

    fn serve(
        &mut self,
        agent: &mut CodexAgent<Fake>,
        request: Request<Fake>,
    ) -> Result<Response<Fake>, Error> {
        let mut progress = agent.serve(request);
        loop {
            progress = match progress {
                Progress::Pending { task, action } => {
                    let reply = self.perform(action);
                    agent.advance(task, reply)
                }
                Progress::Unanswered { .. } => panic!("a reply was not understood"),
                Progress::Finished { answer } => return answer,
            };
        }
    }

    fn find_thread_name_by_id(&self, thread_id: &str) -> Option<String> {
        self.index
            .iter()
            .rev()
            .find(|entry| entry.0 == thread_id)
            .map(|entry| entry.1.clone())
    }

    fn log(&self) -> Vec<&str> {
        self.log.iter().map(|entry| entry.as_str()).collect()
    }
}

fn set_title(session_id: &str, title: &str) -> Request<Fake> {
    Request::SetSessionTitle { session_id: session_id.to_string(), title: title.to_string() }
}

fn new_session(cwd: &str) -> Request<Fake> {
    Request::NewSession { cwd: cwd.to_string(), mcp_servers: vec![] }
}

fn load_session(session_id: &str) -> Request<Fake> {
    Request::LoadSession {
        session_id: session_id.to_string(),
        cwd: "me".to_string(),
        mcp_servers: vec![],
    }
}

fn resume_session(session_id: &str) -> Request<Fake> {
    Request::ResumeSession {
        session_id: session_id.to_string(),
        cwd: "me".to_string(),
        mcp_servers: vec![],
    }
}

fn close_session(session_id: &str) -> Request<Fake> {
    Request::CloseSession { session_id: session_id.to_string() }
}

fn failure(answer: Result<Response<Fake>, Error>) -> (i32, Option<String>) {
    match answer {
        Ok(_) => panic!("expected the request to fail"),
        Err(error) => (
            error.code,
            match error.data {
                Some(ErrorData::Text(text)) => Some(text),
                Some(ErrorData::Json(_)) => panic!("expected a text"),
                None => None,
            },
        ),
    }
}

fn opened(agent: &mut CodexAgent<Fake>, world: &mut World) -> String {
    match world.serve(agent, new_session("me")) {
        Ok(Response::NewSession { session_id, .. }) => session_id,
        _ => panic!("expected a session"),
    }
}

#[test]
fn set_session_title_persists_unloaded_session() {
    let mut agent = agent("test-provider", true);
    let mut world = world();
    let session_id = new_thread_id();
    world.records.insert(session_id.clone(), "rollout".to_string());

    let answer = world.serve(&mut agent, set_title(&session_id, "Renamed historical session"));
    assert!(matches!(answer, Ok(Response::SetSessionTitle)));

    assert_eq!(
        world.find_thread_name_by_id(&session_id),
        Some("Renamed historical session".to_string())
    );
    assert!(world.notifications.iter().any(|notification| {
        notification.0 == session_id
            && notification.1 == Some("Renamed historical session".to_string())
    }));
}

#[test]
fn set_session_title_persists_db_backed_unloaded_session_to_name_index() {
    let mut agent = agent("test-provider", true);
    let mut world = world();
    let session_id = new_thread_id();
    world.records.insert(session_id.clone(), "rollout".to_string());

    let answer = world.serve(&mut agent, set_title(&session_id, "Seed DB metadata"));
    assert!(matches!(answer, Ok(Response::SetSessionTitle)));

    world.records.clear();
    world.index.clear();
    world.log.clear();

    let answer = world.serve(&mut agent, set_title(&session_id, "DB backed title"));
    assert!(matches!(answer, Ok(Response::SetSessionTitle)));

    assert_eq!(
        world.find_thread_name_by_id(&session_id),
        Some("DB backed title".to_string())
    );
    assert_eq!(world.log(), vec!["update state"]);
}

#[test]
fn set_session_title_clear_notifies_with_cleared_title() {
    let mut agent = agent("test-provider", true);
    let mut world = world();
    let session_id = new_thread_id();
    world.records.insert(session_id.clone(), "Summarize the quarterly plan".to_string());

    let answer = world.serve(&mut agent, set_title(&session_id, "   "));
    assert!(matches!(answer, Ok(Response::SetSessionTitle)));

    assert_eq!(world.find_thread_name_by_id(&session_id), Some("   ".to_string()));
    assert!(world
        .notifications
        .iter()
        .any(|notification| notification.0 == session_id && notification.1.is_none()));
}

#[test]
fn set_session_title_rejects_missing_unloaded_session() {
    let mut agent = agent("test-provider", true);
    let mut world = world();
    let session_id = codex_protocol::ConversationId::default().to_string();

    let answer = world.serve(&mut agent, set_title(&session_id, "Orphan title"));

    let err = match answer {
        Ok(_) => panic!("expected missing unloaded session to be rejected"),
        Err(err) => err,
    };
    assert_eq!(err.code, i32::from(agent_client_protocol::ErrorCode::ResourceNotFound));
    assert_eq!(world.find_thread_name_by_id(&session_id), None);
    assert!(world.notifications.is_empty());
}

#[test]
fn set_session_title_requires_authentication_before_metadata_update() {
    let mut agent = agent("openai", true);
    let mut world = world();
    let session_id = new_thread_id();
    world.records.insert(session_id.clone(), "rollout".to_string());

    let answer = world.serve(&mut agent, set_title(&session_id, "Unauthenticated title"));

    let err = match answer {
        Ok(_) => panic!("expected unauthenticated title update to be rejected"),
        Err(err) => err,
    };
    assert_eq!(err.code, i32::from(agent_client_protocol::ErrorCode::AuthRequired));
    assert_eq!(world.find_thread_name_by_id(&session_id), None);
    assert!(world.notifications.is_empty());
    assert_eq!(world.log(), vec!["read auth", "reload auth"]);
}

#[test]
fn titles_without_a_state_database_need_a_record() {
    let mut agent = agent("test-provider", false);
    let mut world = world();
    let session_id = new_thread_id();
    world.records.insert(session_id.clone(), "rollout".to_string());

    let answer = world.serve(&mut agent, set_title(&session_id, " a\nb "));
    assert!(matches!(answer, Ok(Response::SetSessionTitle)));
    assert_eq!(world.log(), vec!["find record"]);
    assert_eq!(world.index, vec![(session_id.clone(), " a\nb ".to_string())]);
    assert_eq!(world.notifications, vec![(session_id, Some("a b".to_string()))]);
}

#[test]
fn identifiers_are_written_out_for_the_index() {
    let mut agent = agent("test-provider", false);
    let mut world = world();
    let thread_id = new_thread_id();
    let session_id = thread_id.to_uppercase();
    world.records.insert(session_id.clone(), "rollout".to_string());

    let answer = world.serve(&mut agent, set_title(&session_id, "t"));
    assert!(matches!(answer, Ok(Response::SetSessionTitle)));
    assert_eq!(world.index, vec![(thread_id, "t".to_string())]);
    assert_eq!(world.notifications, vec![(session_id, Some("t".to_string()))]);
}

#[test]
fn titles_need_an_identifier_that_can_be_read() {
    let mut agent = agent("test-provider", true);
    let mut world = world();
    let expected = codex_protocol::ConversationId::from_string("nonsense").err().unwrap();

    let answer = world.serve(&mut agent, set_title("nonsense", "t"));
    assert_eq!(failure(answer), (INTERNAL_ERROR, Some(expected.to_string())));
    assert!(world.log.is_empty());
}

#[test]
fn given_identifiers_are_used_as_given() {
    let agent = agent("test-provider", true);
    match agent.retitle("s".to_string(), "t".to_string(), Ok("id".to_string())) {
        Progress::Pending { action: Action::UpdateStateTitle { thread_id, title }, .. } => {
            assert_eq!(thread_id, "id");
            assert_eq!(title, "t");
        }
        _ => panic!("expected the state database to be asked"),
    }
    match release_thread::<Fake>("s".to_string(), Ok("id".to_string())) {
        Progress::Pending {
            task: Task::RemovingThread { session_id },
            action: Action::RemoveThread { thread_id },
        } => {
            assert_eq!(session_id, "s");
            assert_eq!(thread_id, "id");
        }
        _ => panic!("expected the thread to be let go of"),
    }
    match release_thread::<Fake>("s".to_string(), Err("unreadable".to_string())) {
        Progress::Finished { answer } => {
            assert_eq!(failure(answer), (INTERNAL_ERROR, Some("unreadable".to_string())));
        }
        _ => panic!("expected a failure"),
    }
}

#[test]
fn open_sessions_are_renamed_by_their_thread() {
    let mut agent = agent("test-provider", true);
    let mut world = world();
    let session_id = opened(&mut agent, &mut world);
    world.log.clear();

    let answer = world.serve(&mut agent, set_title(&session_id, " new\rname"));
    assert!(matches!(answer, Ok(Response::SetSessionTitle)));
    assert_eq!(
        world.log(),
        vec![
            "update state",
            &format!("thread of {session_id} is called \" new\\rname\", shown as Some(\"new name\")")
        ]
    );
    assert!(world.index.is_empty());
    assert!(world.notifications.is_empty());
}

#[test]
fn failures_of_a_rename_say_what_failed() {
    let mut agent = agent("test-provider", true);
    let session_id = new_thread_id();

    let mut world1 = world();
    world1.state_fails = Some("locked".to_string());
    assert_eq!(
        failure(world1.serve(&mut agent, set_title(&session_id, "t"))),
        (INTERNAL_ERROR, Some("failed to update thread title: locked".to_string()))
    );

    let mut world2 = world();
    world2.find_fails = Some("gone".to_string());
    assert_eq!(
        failure(world2.serve(&mut agent, set_title(&session_id, "t"))),
        (
            INTERNAL_ERROR,
            Some("failed to locate thread before title update: gone".to_string())
        )
    );

    let mut world3 = world();
    world3.records.insert(session_id.clone(), "rollout".to_string());
    world3.index_fails = Some("full".to_string());
    assert_eq!(
        failure(world3.serve(&mut agent, set_title(&session_id, "t"))),
        (INTERNAL_ERROR, Some("failed to index thread title: full".to_string()))
    );
    assert!(world3.notifications.is_empty());
}

#[test]
fn guarded_requests_are_refused_without_authentication() {
    let mut agent = agent("openai", true);
    let requests: Vec<Request<Fake>> = vec![
        new_session("me"),
        load_session("s"),
        resume_session("s"),
        Request::ListSessions { cwd: None, cursor: None },
        Request::Prompt { session_id: "s".to_string(), prompt: "hi" },
        set_title("s", "t"),
    ];
    for request in requests {
        let mut world = world();
        assert_eq!(failure(world.serve(&mut agent, request)), (AUTH_REQUIRED, None));
        assert_eq!(world.log(), vec!["read auth", "reload auth"]);
    }
}

#[test]
fn credentials_that_changed_on_disk_are_enough() {
    let mut agent = agent("openai", true);
    let mut world = world();
    world.changed_on_disk = true;
    opened(&mut agent, &mut world);
    assert_eq!(world.log(), vec!["read auth", "reload auth", "start in /home/me", "load"]);
}

#[test]
fn authenticated_clients_are_let_through() {
    let mut agent = agent("openai", true);
    let mut world = world();
    world.auth = Some(CodexAuth::Other);
    opened(&mut agent, &mut world);
    assert_eq!(world.log(), vec!["read auth", "start in /home/me", "load"]);
}

#[test]
fn unguarded_requests_need_no_authentication() {
    let mut agent = agent("openai", true);
    let mut world = world();
    assert_eq!(
        failure(world.serve(&mut agent, Request::Cancel { session_id: "s".to_string() })),
        (RESOURCE_NOT_FOUND, None)
    );
    assert!(world.log.is_empty());
}

#[test]
fn initialization_presents_the_agent() {
    let mut agent = agent("openai", true);
    let mut world = world();
    let request = Request::Initialize { client_capabilities: "a terminal", no_browser: false };
    match world.serve(&mut agent, request) {
        Ok(Response::Initialize(shown)) => {
            assert_eq!(shown.protocol_version, 1);
            assert_eq!(shown.name, "codex-acp");
            assert_eq!(shown.title, "Codex");
            assert_eq!(shown.version, "0.9.0");
            let can = shown.capabilities;
            assert!(can.load_session && can.image && can.embedded_context && can.mcp_http);
            assert!(can.logout && can.close_session && can.list_sessions);
            assert!(can.resume_session && can.set_session_title);
            assert!(!can.audio && !can.mcp_sse);
            assert_eq!(shown.auth_methods.len(), 3);
            assert!(matches!(
                &shown.auth_methods[0],
                AuthMethod::Agent { id, .. } if id == "chatgpt"
            ));
        }
        _ => panic!("expected an introduction"),
    }
    assert_eq!(*agent.client_capabilities(), "a terminal");
}

#[test]
fn the_browser_login_is_not_offered_without_a_browser() {
    let mut agent = agent("openai", true);
    let shown = agent.initialize("", true);
    assert_eq!(shown.auth_methods.len(), 2);
    assert!(matches!(
        &shown.auth_methods[0],
        AuthMethod::EnvVar { id, .. } if id == "codex-api-key"
    ));
    assert!(matches!(
        &shown.auth_methods[1],
        AuthMethod::EnvVar { id, .. } if id == "openai-api-key"
    ));
}

fn authenticate(method_id: &str) -> Request<Fake> {
    Request::Authenticate { method_id: method_id.to_string() }
}

#[test]
fn api_keys_are_stored_and_taken_up() {
    let mut agent = agent("openai", true);
    let mut world = world();
    world.api_keys.insert("openai-api-key".to_string(), "key".to_string());
    let answer = world.serve(&mut agent, authenticate("openai-api-key"));
    assert!(matches!(answer, Ok(Response::Authenticate)));
    assert_eq!(world.log(), vec!["read auth", "read api key", "store key", "reload auth"]);
}

#[test]
fn api_keys_have_to_be_set() {
    let mut agent = agent("openai", true);
    let mut world = world();
    assert_eq!(
        failure(world.serve(&mut agent, authenticate("codex-api-key"))),
        (INTERNAL_ERROR, Some("CODEX_API_KEY is not set".to_string()))
    );
    assert_eq!(
        failure(world.serve(&mut agent, authenticate("openai-api-key"))),
        (INTERNAL_ERROR, Some("OPENAI_API_KEY is not set".to_string()))
    );
}

#[test]
fn users_log_in_with_the_browser() {
    let mut agent = agent("openai", true);
    let mut world = world();
    world.auth = Some(CodexAuth::ApiKey);
    let answer = world.serve(&mut agent, authenticate("chatgpt"));
    assert!(matches!(answer, Ok(Response::Authenticate)));
    assert_eq!(world.log(), vec!["read auth", "start login", "await login", "reload auth"]);
}

#[test]
fn failed_logins_are_reported() {
    let mut agent = agent("openai", true);
    let mut world = world();
    world.login_fails = Some("denied".to_string());
    assert_eq!(
        failure(world.serve(&mut agent, authenticate("chatgpt"))),
        (INTERNAL_ERROR, Some("denied".to_string()))
    );
    world.api_keys.insert("codex-api-key".to_string(), "key".to_string());
    world.store_fails = Some("read-only".to_string());
    assert_eq!(
        failure(world.serve(&mut agent, authenticate("codex-api-key"))),
        (INTERNAL_ERROR, Some("read-only".to_string()))
    );
}

#[test]
fn who_is_authenticated_does_not_log_in_again() {
    let mut agent = agent("openai", true);
    let mut world = world();
    world.auth = Some(CodexAuth::Chatgpt);
    let answer = world.serve(&mut agent, authenticate("chatgpt"));
    assert!(matches!(answer, Ok(Response::Authenticate)));
    assert_eq!(world.log(), vec!["read auth"]);
}

#[test]
fn unknown_auth_methods_are_refused() {
    let mut agent = agent("openai", true);
    let mut world = world();
    assert_eq!(
        failure(world.serve(&mut agent, authenticate("password"))),
        (INVALID_PARAMS, Some("unsupported authentication method".to_string()))
    );
    assert!(world.log.is_empty());
}

#[test]
fn logout_forgets_the_credentials() {
    let mut agent = agent("openai", true);
    let mut world = world();
    assert!(matches!(world.serve(&mut agent, Request::Logout), Ok(Response::Logout)));
    assert_eq!(world.log(), vec!["logout"]);
    world.logout_fails = Some("no".to_string());
    assert_eq!(
        failure(world.serve(&mut agent, Request::Logout)),
        (INTERNAL_ERROR, Some("no".to_string()))
    );
}

#[test]
fn new_sessions_are_open_under_the_identifier_of_their_thread() {
    let mut agent = agent("test-provider", true);
    let mut world = world();
    let thread_id = world.next_thread_id.clone();
    let request = Request::NewSession {
        cwd: "me".to_string(),
        mcp_servers: vec![McpServer::Http {
            name: "my server".to_string(),
            url: "u".to_string(),
            headers: vec![],
        }],
    };
    match world.serve(&mut agent, request) {
        Ok(Response::NewSession { session_id, state }) => {
            assert_eq!(session_id, thread_id);
            assert_eq!(state.modes, Some("modes"));
            assert!(state.config_options.is_none());
        }
        _ => panic!("expected a session"),
    }
    assert_eq!(
        agent.loaded_thread(&thread_id).as_deref(),
        Some(&format!("thread of {thread_id}"))
    );
    assert_eq!(agent.session_root(&thread_id), Some(&"/home/me".to_string()));
    let config = &world.configs[0];
    assert_eq!(config.cwd, "/home/me");
    assert!(matches!(
        config.mcp_servers.get(&"my_server".to_string()),
        Some(McpServerEntry::Requested(_))
    ));
    assert!(matches!(
        config.mcp_servers.get(&"docs".to_string()),
        Some(McpServerEntry::Configured)
    ));
}

#[test]
fn sessions_that_fail_to_start_are_not_open() {
    let mut agent = agent("test-provider", true);

    let mut world1 = world();
    world1.start_fails = true;
    assert_eq!(failure(world1.serve(&mut agent, new_session("me"))), (INTERNAL_ERROR, None));
    assert!(agent.session_root(&world1.next_thread_id).is_none());

    let mut world2 = world();
    world2.cwd_fails = Some("not absolute".to_string());
    assert_eq!(
        failure(world2.serve(&mut agent, new_session("me"))),
        (INTERNAL_ERROR, Some("not absolute".to_string()))
    );
    assert!(world2.log.is_empty());

    let mut world3 = world();
    world3.install_fails = Some("not allowed".to_string());
    assert_eq!(
        failure(world3.serve(&mut agent, new_session("me"))),
        (INTERNAL_ERROR, Some("not allowed".to_string()))
    );
    assert!(world3.log.is_empty());

    // The working directory is on record before the thread is ready.
    let mut world4 = world();
    world4.load_fails = true;
    assert_eq!(
        failure(world4.serve(&mut agent, new_session("me"))),
        (INTERNAL_ERROR, Some("not loaded".to_string()))
    );
    assert!(agent.loaded_thread(&world4.next_thread_id).is_none());
    assert_eq!(
        agent.session_root(&world4.next_thread_id),
        Some(&"/home/me".to_string())
    );
}

#[test]
fn loaded_sessions_show_their_history() {
    let mut agent = agent("test-provider", true);
    let mut world = world();
    world.records.insert("s".to_string(), "/r".to_string());
    world.history = Some(vec![1, 2, 3]);
    let answer = world.serve(&mut agent, load_session("s"));
    assert!(matches!(answer, Ok(Response::LoadSession { state }) if state.modes == Some("modes")));
    assert_eq!(
        world.log(),
        vec![
            "find record",
            "read /r",
            "resume /r in /home/me",
            "thread of s replays [1, 2, 3]",
            "load"
        ]
    );
    assert!(agent.get_thread(&"s".to_string()).is_ok());
    assert_eq!(agent.session_root(&"s".to_string()), Some(&"/home/me".to_string()));
}

#[test]
fn cleared_histories_are_shown_as_empty() {
    let mut agent = agent("test-provider", true);
    let mut world = world();
    world.records.insert("s".to_string(), "/r".to_string());
    assert!(world.serve(&mut agent, load_session("s")).is_ok());
    assert!(world.log().contains(&"thread of s replays []"));
    assert!(InitialHistory::<Fake>::New.into_items().is_empty());
    assert_eq!(InitialHistory::<Fake>::Forked(vec![7]).into_items(), vec![7]);
}

#[test]
fn resumed_sessions_show_no_history() {
    let mut agent = agent("test-provider", true);
    let mut world = world();
    world.records.insert("s".to_string(), "/r".to_string());
    world.history = Some(vec![1]);
    let answer = world.serve(&mut agent, resume_session("s"));
    assert!(matches!(answer, Ok(Response::ResumeSession { .. })));
    assert_eq!(world.log(), vec!["find record", "resume /r in /home/me", "load"]);
}

#[test]
fn sessions_without_a_record_are_not_found() {
    let mut agent = agent("test-provider", true);
    let mut world = world();
    assert_eq!(
        failure(world.serve(&mut agent, load_session("s"))),
        (RESOURCE_NOT_FOUND, None)
    );
    assert_eq!(
        failure(world.serve(&mut agent, resume_session("s"))),
        (RESOURCE_NOT_FOUND, None)
    );
    world.find_fails = Some("no disk".to_string());
    assert_eq!(
        failure(world.serve(&mut agent, load_session("s"))),
        (INTERNAL_ERROR, Some("no disk".to_string()))
    );
    assert!(agent.loaded_thread(&"s".to_string()).is_none());
    assert!(agent.session_root(&"s".to_string()).is_none());
}

#[test]
fn sessions_that_fail_to_load_are_not_open() {
    let mut agent = agent("test-provider", true);
    let mut world = world();
    world.records.insert("s".to_string(), "/r".to_string());

    world.history_fails = Some("torn".to_string());
    assert_eq!(
        failure(world.serve(&mut agent, load_session("s"))),
        (INTERNAL_ERROR, Some("torn".to_string()))
    );
    world.history_fails = None;
    world.resume_fails = Some("busy".to_string());
    assert_eq!(
        failure(world.serve(&mut agent, resume_session("s"))),
        (INTERNAL_ERROR, Some("busy".to_string()))
    );
    world.resume_fails = None;
    world.replay_fails = true;
    assert_eq!(
        failure(world.serve(&mut agent, load_session("s"))),
        (INTERNAL_ERROR, Some("the thread failed".to_string()))
    );
    world.load_fails = true;
    assert_eq!(
        failure(world.serve(&mut agent, resume_session("s"))),
        (INTERNAL_ERROR, Some("not loaded".to_string()))
    );
    assert!(agent.loaded_thread(&"s".to_string()).is_none());
    assert!(agent.session_root(&"s".to_string()).is_none());
}

#[test]
fn closed_sessions_are_forgotten() {
    let mut agent = agent("test-provider", true);
    let mut world = world();
    let session_id = opened(&mut agent, &mut world);
    world.next_thread_id = new_thread_id();
    let other = opened(&mut agent, &mut world);
    world.log.clear();

    let answer = world.serve(&mut agent, close_session(&session_id));
    assert!(matches!(answer, Ok(Response::CloseSession)));
    assert_eq!(
        world.log(),
        vec![&format!("thread of {session_id} ends"), &format!("remove {session_id}")]
    );
    assert!(agent.loaded_thread(&session_id).is_none());
    assert!(agent.session_root(&session_id).is_none());
    assert!(agent.loaded_thread(&other).is_some());
    assert!(agent.session_root(&other).is_some());
    assert_eq!(
        failure(world.serve(&mut agent, close_session(&session_id))),
        (RESOURCE_NOT_FOUND, None)
    );
}

#[test]
fn sessions_that_fail_to_close_stay_open() {
    let mut agent = agent("test-provider", true);
    let mut world = world();
    let session_id = opened(&mut agent, &mut world);
    world.shutdown_fails = true;
    assert_eq!(
        failure(world.serve(&mut agent, close_session(&session_id))),
        (INTERNAL_ERROR, Some("the thread failed".to_string()))
    );
    assert!(agent.loaded_thread(&session_id).is_some());

    // A session whose identifier cannot be read ends its thread, but stays.
    world.shutdown_fails = false;
    world.records.insert("s".to_string(), "/r".to_string());
    assert!(world.serve(&mut agent, resume_session("s")).is_ok());
    let (code, reason) = failure(world.serve(&mut agent, close_session("s")));
    assert_eq!(code, INTERNAL_ERROR);
    assert!(reason.is_some());
    assert!(agent.loaded_thread(&"s".to_string()).is_some());
}

#[test]
fn open_sessions_are_used_by_way_of_their_thread() {
    let mut agent = agent("test-provider", true);
    let mut world = world();
    let session_id = opened(&mut agent, &mut world);
    world.log.clear();

    let request = Request::Prompt { session_id: session_id.clone(), prompt: "hi" };
    assert!(matches!(
        world.serve(&mut agent, request),
        Ok(Response::Prompt { stop_reason }) if stop_reason == "done"
    ));
    let request = Request::Cancel { session_id: session_id.clone() };
    assert!(matches!(world.serve(&mut agent, request), Ok(Response::Cancel)));
    let request =
        Request::SetSessionMode { session_id: session_id.clone(), mode_id: "plan".to_string() };
    assert!(matches!(world.serve(&mut agent, request), Ok(Response::SetSessionMode)));
    let request = Request::SetSessionConfigOption {
        session_id: session_id.clone(),
        config_id: "model".to_string(),
        value: "large",
    };
    assert!(matches!(
        world.serve(&mut agent, request),
        Ok(Response::SetSessionConfigOption { config_options })
            if config_options == vec!["model=large".to_string()]
    ));
    assert_eq!(
        world.log(),
        vec![
            &format!("thread of {session_id} hears hi"),
            &format!("thread of {session_id} stops"),
            &format!("thread of {session_id} takes mode plan"),
            &format!("thread of {session_id} sets an option"),
        ]
    );
}

#[test]
fn sessions_that_are_not_open_cannot_be_used() {
    let mut agent = agent("test-provider", true);
    let requests: Vec<Request<Fake>> = vec![
        Request::Prompt { session_id: "s".to_string(), prompt: "hi" },
        Request::Cancel { session_id: "s".to_string() },
        Request::SetSessionMode { session_id: "s".to_string(), mode_id: "m".to_string() },
        Request::SetSessionConfigOption {
            session_id: "s".to_string(),
            config_id: "c".to_string(),
            value: "v",
        },
        close_session("s"),
    ];
    for request in requests {
        let mut world = world();
        assert_eq!(failure(world.serve(&mut agent, request)), (RESOURCE_NOT_FOUND, None));
        assert!(world.log.is_empty());
    }
}

#[test]
fn listings_tell_of_stored_sessions() {
    let mut agent = agent("test-provider", true);
    let mut world = world();
    world.threads = vec![
        StoredThread {
            thread_id: "a".to_string(),
            source: SessionSource::VSCode,
            cwd: "/x".to_string(),
            name: None,
            preview: "first\nwords".to_string(),
            updated_at: "then".to_string(),
        },
        StoredThread {
            thread_id: "b".to_string(),
            source: SessionSource::VSCode,
            cwd: "/y".to_string(),
            name: None,
            preview: "other words".to_string(),
            updated_at: "now".to_string(),
        },
    ];
    let request = Request::ListSessions {
        cwd: Some("/x".to_string()),
        cursor: Some("here".to_string()),
    };
    match world.serve(&mut agent, request) {
        Ok(Response::ListSessions { sessions, next_cursor }) => {
            assert_eq!(sessions.len(), 1);
            assert_eq!(sessions[0].session_id, "a");
            assert_eq!(sessions[0].title, Some("first words".to_string()));
            assert_eq!(next_cursor, Some("more".to_string()));
        }
        _ => panic!("expected a listing"),
    }
    assert_eq!(world.log(), vec!["list 25 from Some(\"here\")"]);

    world.list_fails = Some("locked".to_string());
    let request = Request::ListSessions { cwd: None, cursor: None };
    assert_eq!(
        failure(world.serve(&mut agent, request)),
        (INTERNAL_ERROR, Some("failed to list sessions: locked".to_string()))
    );
}

#[test]
fn replies_of_another_kind_hand_the_task_back() {
    let mut agent = agent("test-provider", true);
    match agent.serve(Request::Logout) {
        Progress::Pending { task, .. } => match agent.advance(task, Reply::Removed) {
            Progress::Unanswered { task } => {
                assert!(matches!(
                    agent.advance(task, Reply::Done(Ok(()))),
                    Progress::Finished { answer: Ok(Response::Logout) }
                ));
            }
            _ => panic!("expected the task back"),
        },
        _ => panic!("expected a pending task"),
    }
}

#[test]
fn requests_may_be_served_side_by_side() {
    let mut agent = agent("test-provider", true);
    let mut world = world();
    let session_id = opened(&mut agent, &mut world);
    // A rename knows the thread that the session had when it was asked for,
    // though the session is closed before the state database answers.
    let (task, action) = match agent.serve(set_title(&session_id, "t")) {
        Progress::Pending { task, action } => (task, action),
        _ => panic!("expected a pending task"),
    };
    assert!(world.serve(&mut agent, close_session(&session_id)).is_ok());
    let reply = world.perform(action);
    match agent.advance(task, reply) {
        Progress::Pending { action: Action::SetThreadTitle { thread, .. }, .. } => {
            assert_eq!(*thread, format!("thread of {session_id}"));
        }
        _ => panic!("expected the thread to be renamed"),
    }
}

#[test]
fn the_longest_request_waits_for_ten_replies() {
    let mut agent = agent("openai", true);
    let mut world = world();
    world.changed_on_disk = true;
    world.records.insert("s".to_string(), "/r".to_string());
    let mut replies = 0;
    let mut progress = agent.serve(load_session("s"));
    loop {
        progress = match progress {
            Progress::Pending { task, action } => {
                replies += 1;
                let reply = world.perform(action);
                agent.advance(task, reply)
            }
            Progress::Unanswered { .. } => panic!("a reply was not understood"),
            Progress::Finished { answer } => {
                assert!(matches!(answer, Ok(Response::LoadSession { .. })));
                break;
            }
        };
    }
    assert_eq!(replies, 10);
}

#[test]
fn sessions_that_are_restored_anew_take_the_new_directory() {
    let mut agent = agent("test-provider", true);
    let mut world = world();
    world.records.insert("s".to_string(), "/r".to_string());
    assert!(world.serve(&mut agent, resume_session("s")).is_ok());
    let request = Request::ResumeSession {
        session_id: "s".to_string(),
        cwd: "you".to_string(),
        mcp_servers: vec![],
    };
    assert!(world.serve(&mut agent, request).is_ok());
    assert_eq!(agent.session_root(&"s".to_string()), Some(&"/home/you".to_string()));
}

#[test]
fn failed_restorings_leave_an_open_session_as_it_was() {
    let mut agent = agent("test-provider", true);
    let mut world = world();
    world.records.insert("s".to_string(), "/r".to_string());
    assert!(world.serve(&mut agent, resume_session("s")).is_ok());
    let thread = agent.loaded_thread(&"s".to_string()).unwrap();
    world.load_fails = true;
    let request = Request::LoadSession {
        session_id: "s".to_string(),
        cwd: "you".to_string(),
        mcp_servers: vec![],
    };
    assert!(world.serve(&mut agent, request).is_err());
    assert!(Arc::ptr_eq(&thread, &agent.loaded_thread(&"s".to_string()).unwrap()));
    assert_eq!(agent.session_root(&"s".to_string()), Some(&"/home/me".to_string()));
}

#[test]
fn listed_titles_are_their_own_titles() {
    let mut agent = agent("test-provider", true);
    let mut world = world();
    world.threads = vec![StoredThread {
        thread_id: "a".to_string(),
        source: SessionSource::Cli,
        cwd: "/x".to_string(),
        name: None,
        preview: "\u{600}e\u{301}\n".repeat(200),
        updated_at: "then".to_string(),
    }];
    match world.serve(&mut agent, Request::ListSessions { cwd: None, cursor: None }) {
        Ok(Response::ListSessions { sessions, .. }) => {
            let title = sessions[0].title.clone().unwrap();
            assert!(title.ends_with("..."));
            assert_eq!(codex_acp::title::format_session_title(&title), Some(title));
        }
        _ => panic!("expected a listing"),
    }
}
