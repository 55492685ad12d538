//! The deciding half of a client for the Agent Client Protocol.
//!
//! The client launches an external agent process, talks newline-delimited
//! JSON-RPC to it, answers its requests for files, terminals and permissions,
//! and shows what it does as a conversation. This crate holds everything of that
//! which can be decided without waiting: framing, dispatch, the state of
//! terminals, conversations and turns, and the mapping of session updates onto
//! response events. Each function says in its contract what it returns for every
//! input, and laws that span functions are proved as `law_*` functions.
//!
//! - [`transport`], [`connection`], [`dispatch`]: messages to and from the agent
//! - [`delegate`], [`terminal`], [`lines`]: what the agent may ask of the client
//! - [`session`], [`conversation`]: what the agent reports, folded into items
//! - [`proto_shim`], [`response`], [`response_stream_driver`], [`registry`]: a
//!   prompt turn as a stream of response events
//! - [`agents_config`], [`agent_manager`]: which agents there are
//! - [`text`], [`white_space`], [`text_map`], [`ids`]: texts, names and ids
//! - [`wire`], [`outside`]: calls into other crates and the types they need

use vstd::prelude::*;

pub mod agent_manager;
pub mod agents_config;
pub mod connection;
pub mod conversation;
pub mod delegate;
pub mod dispatch;
pub mod ids;
pub mod lines;
pub mod outside;
pub mod proto_shim;
pub mod registry;
pub mod response;
pub mod response_stream_driver;
pub mod session;
pub mod terminal;
pub mod text;
pub mod text_map;
pub mod transport;
pub mod white_space;
pub mod wire;
