//! The verified core of the Codex account manager's gateway: request
//! rewriting, upstream header construction, failover decisions, the
//! websocket bridge's session rules, and the account and log maintenance rules.
pub mod text;
pub mod codex_headers;
pub mod rpc_types;
pub mod requestlog;
pub mod storage_rules;
pub mod account;
pub mod outcome;
pub mod json;
pub mod rewrite;
pub mod ws_events;
pub mod ws;
pub mod fingerprint;
pub mod runtime_rules;
pub mod startup;
