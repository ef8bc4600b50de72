//! The agent's own state: the sessions that are open, and where they work.

use crate::config::text_map;
use crate::error::{not_found_error, Error};
use crate::protocol::Host;
use crate::settings::{Settings, SettingsView};
use crate::string_map::StringMap;
use std::sync::Arc;
use vstd::prelude::*;

verus! {

/// The agent that answers a client with the help of Codex.
pub struct CodexAgent<H: Host> {
    settings: Settings,
    /// Capabilities of the connected client
    client_capabilities: H::Capabilities,
    /// The threads of the open sessions, by session identifier
    sessions: StringMap<Arc<H::Thread>>,
    /// The working directories of the sessions, by session identifier
    session_roots: StringMap<String>,
}

/// The model of [`CodexAgent`].
pub struct AgentView<H: Host> {
    pub settings: SettingsView,
    pub client_capabilities: H::Capabilities,
    pub sessions: Map<Seq<char>, Arc<H::Thread>>,
    pub session_roots: Map<Seq<char>, Seq<char>>,
}

impl<H: Host> View for CodexAgent<H> {
    type V = AgentView<H>;

    closed spec fn view(&self) -> AgentView<H> {
        AgentView {
            settings: self.settings@,
            client_capabilities: self.client_capabilities,
            sessions: self.sessions@,
            session_roots: text_map(self.session_roots@),
        }
    }
}

/// An agent without sessions.
pub open spec fn fresh_agent<H: Host>(
    settings: SettingsView,
    client_capabilities: H::Capabilities,
) -> AgentView<H> {
    AgentView {
        settings,
        client_capabilities,
        sessions: Map::empty(),
        session_roots: Map::empty(),
    }
}

/// The thread of an open session.
pub open spec fn thread_of<H: Host>(agent: AgentView<H>, session_id: Seq<char>) -> Option<
    Arc<H::Thread>,
> {
    if agent.sessions.contains_key(session_id) {
        Some(agent.sessions[session_id])
    } else {
        None
    }
}

/// The agent with a working directory on record for a session.
pub open spec fn with_root<H: Host>(
    agent: AgentView<H>,
    session_id: Seq<char>,
    cwd: Seq<char>,
) -> AgentView<H> {
    AgentView { session_roots: agent.session_roots.insert(session_id, cwd), ..agent }
}

/// The agent with a session open on a thread.
pub open spec fn with_session<H: Host>(
    agent: AgentView<H>,
    session_id: Seq<char>,
    thread: Arc<H::Thread>,
) -> AgentView<H> {
    AgentView { sessions: agent.sessions.insert(session_id, thread), ..agent }
}

/// The agent without a session and its working directory.
pub open spec fn without_session<H: Host>(agent: AgentView<H>, session_id: Seq<char>) -> AgentView<
    H,
> {
    AgentView {
        sessions: agent.sessions.remove(session_id),
        session_roots: agent.session_roots.remove(session_id),
        ..agent
    }
}

impl<H: Host> CodexAgent<H> {
    /// An agent without sessions, for a client of which only the given
    /// capabilities are known.
    pub fn new(settings: Settings, client_capabilities: H::Capabilities) -> (agent: CodexAgent<H>)
        ensures
            agent@ == fresh_agent::<H>(settings@, client_capabilities),
            agent@.settings == settings@,
            agent@.client_capabilities == client_capabilities,
            forall|session_id: Seq<char>| !#[trigger] agent@.sessions.contains_key(session_id),
            forall|session_id: Seq<char>| !#[trigger] agent@.session_roots.contains_key(session_id),
    {
        let agent: CodexAgent<H> = CodexAgent {
            settings,
            client_capabilities,
            sessions: StringMap::new(),
            session_roots: StringMap::new(),
        };
        assert(agent@.session_roots =~= Map::empty());
        agent
    }

    /// What the agent was told when it was made.
    pub fn settings(&self) -> (settings: &Settings)
        ensures
            settings@ == self@.settings,
    {
        &self.settings
    }

    /// Capabilities of the connected client.
    pub fn client_capabilities(&self) -> (capabilities: &H::Capabilities)
        ensures
            *capabilities == self@.client_capabilities,
    {
        &self.client_capabilities
    }

    /// The session that belongs to a thread has the thread's identifier.
    pub fn session_id_from_thread_id(thread_id: String) -> (session_id: String)
        ensures
            session_id@ == thread_id@,
    {
        thread_id
    }

    /// The thread of an open session.
    pub fn loaded_thread(&self, session_id: &String) -> (thread: Option<Arc<H::Thread>>)
        ensures
            thread == thread_of(self@, session_id@),
            match thread {
                Some(thread) => self@.sessions.contains_key(session_id@)
                    && self@.sessions[session_id@] == thread,
                None => !self@.sessions.contains_key(session_id@),
            },
    {
        match self.sessions.get(session_id) {
            Some(thread) => Some(Arc::clone(thread)),
            None => None,
        }
    }

    /// The thread of a session that has to be open.
    pub fn get_thread(&self, session_id: &String) -> (thread: Result<Arc<H::Thread>, Error>)
        ensures
            match thread {
                Ok(thread) => thread_of(self@, session_id@) == Some(thread),
                Err(error) => thread_of(self@, session_id@) is None && error@ == not_found_error(),
            },
            match thread {
                Ok(thread) => self@.sessions.contains_key(session_id@)
                    && self@.sessions[session_id@] == thread,
                Err(error) => !self@.sessions.contains_key(session_id@) && error@.code == -32002,
            },
    {
        match self.loaded_thread(session_id) {
            Some(thread) => Ok(thread),
            None => Err(Error::resource_not_found()),
        }
    }

    /// The working directory on record for a session.
    pub fn session_root(&self, session_id: &String) -> (cwd: Option<&String>)
        ensures
            match cwd {
                Some(cwd) => self@.session_roots.contains_key(session_id@)
                    && self@.session_roots[session_id@] == cwd@,
                None => !self@.session_roots.contains_key(session_id@),
            },
    {
        self.session_roots.get(session_id)
    }

    pub(crate) fn record_capabilities(&mut self, client_capabilities: H::Capabilities)
        ensures
            final(self)@ == (AgentView { client_capabilities, ..old(self)@ }),
    {
        self.client_capabilities = client_capabilities;
    }

    pub(crate) fn record_root(&mut self, session_id: String, cwd: String)
        ensures
            final(self)@ == with_root(old(self)@, session_id@, cwd@),
    {
        self.session_roots.insert(session_id, cwd);
        assert(self@.session_roots =~= old(self)@.session_roots.insert(session_id@, cwd@));
    }

    pub(crate) fn record_session(&mut self, session_id: String, thread: Arc<H::Thread>)
        ensures
            final(self)@ == with_session(old(self)@, session_id@, thread),
    {
        self.sessions.insert(session_id, thread);
    }

    pub(crate) fn forget_session(&mut self, session_id: &String)
        ensures
            final(self)@ == without_session(old(self)@, session_id@),
    {
        self.sessions.remove(session_id);
        self.session_roots.remove(session_id);
        assert(self@.session_roots =~= old(self)@.session_roots.remove(session_id@));
    }
}

} // verus!
