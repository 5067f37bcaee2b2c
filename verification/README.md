# codexmanager

The rules of the Codex account manager's gateway, written in Verus and
proved against their contracts.

## Layout

- `src/` — the verified library.
  - `text` — Unicode trimming, ASCII case folding, comma splitting and
    decimal formatting, stated over `Seq<char>`.
  - `json` — a JSON value type with an ordered object map and its laws.
  - `codex_headers` — the upstream header lists of `/responses` and
    `/responses/compact` requests, in the order they are sent.
  - `rewrite` — the `/v1/responses` body rewrite (instructions, input list,
    stream, store, reasoning effort, field allowlists).
  - `outcome` — what the gateway does with an upstream answer: fail over or
    answer, cooldowns, usage refreshes and the log line.
  - `ws`, `ws_events` — the websocket bridge: upgrade checks, client frame
    preparation, upstream headers and URL, the session state machine, and
    terminal events with their usage.
  - `account` — account updates and the cleanup of unavailable free accounts.
  - `requestlog`, `storage_rules` — paging and limits of the log views.
  - `rpc_types`, `startup` — RPC values and the startup snapshot request.
  - `fingerprint` — short SHA-256 fingerprints of conversation anchors.
  - `runtime_rules` — queue bypass and queue size floors.
- `tests/` — tests of the library on concrete values.
- `app/` — what the library leaves to the runtime: the SQLite store, JSON
  text, HTTP header maps and responses, the environment, serde forms of the
  RPC types, and the flows that read and write the store around the
  library's decisions.
