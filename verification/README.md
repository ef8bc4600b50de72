# codex_acp

An agent for the Agent Client Protocol that has Codex do the work. It opens,
restores, lists, renames and closes sessions, hands prompts to them, and sees to
it that clients are authenticated.

`src/` is the agent itself, verified with Verus. It does nothing outside of
itself: `CodexAgent::serve` takes a request, and `CodexAgent::advance` takes what
came of the action that the request waited for. Both tell what is to be done
next, or what the client is answered.

- `text`, `title`: session titles.
- `string_map`, `settings`, `error`, `thread_id`: what the rest is made of.
- `auth`, `config`, `listing`: ways to authenticate, the configuration of a
  session, and what is stored.
- `protocol`, `action`, `task`: requests and responses, actions and replies, and
  how far a request has come.
- `agent`: the sessions that are open.
- `authentication`, `session_opening`, `session_title`, `session_use`, `serve`:
  how requests are served.
- `laws`: what holds of the agent as a whole, also while it serves several
  requests at a time.

`app/` connects the agent to a client and to Codex.
