# coclai

A client library for the Codex app-server JSON-RPC protocol, verified with
Verus.

`src/` is the verified library. Every decision of the client is a function
with a contract:

- `rpc_contract`: which requests and responses of the known methods are
  well formed, with error messages that never echo payload values;
- `rpc`, `dispatch`: what an incoming message is, which ids it carries, and
  what the runtime does with it (settle a call, queue or decline a server
  request), and which queued requests have expired;
- `approvals`: routing of server requests, the answers they accept, and the
  reply sent when one times out;
- `wire`, `api_types`, `profile`: prompt inputs with `@path` mentions and
  their UTF-8 byte ranges, the JSON params of threads and turns, and the
  escalation gate on privileged sandbox use that a prompt run's thread
  start or resume passes through;
- `turn_output`, `prompt`: the assistant text of a turn, each step of
  collecting a turn's events (lag recovery included), and a prompt run as
  a state machine from its pre-run hooks, the escalation gate and thread
  start, through the turn's pre- and post-turn hooks, to its post-run
  hooks and result;
- `session`: starting or resuming a thread with the session hooks, as a
  state machine;
- `hooks`, `client`, `config`: hook lists and their merge, client and
  runtime settings, restart backoff and the supervisor's restart decision;
- `schema`, `digest`: checks of the schema bundle against its SHA-256
  manifest;
- `artifact`: line patches of documents, the artifact store's layout and
  conflict rules, and an artifact task as a state machine.

`app/` is the runtime around it: JSON text, the file system, the message
loop and the drivers that perform what the state machines ask for.

`tests/` runs the library on concrete values.
