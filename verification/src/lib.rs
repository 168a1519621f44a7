//! Core of a desktop companion's local network service: a combined
//! static-file/single-page-app HTTP server and WebSocket upgrade dispatcher
//! sharing one port, and a supervised global-input listener that turns three
//! media keys into OS commands and survives failures with bounded
//! retry/backoff. Everything here is pure decision logic over plain values;
//! sockets, file reads and the blocking platform hooks live with the caller.

pub mod dispatch;
pub mod http;
pub mod ip;
pub mod keys;
pub mod mime;
pub mod paths;
pub mod service;
pub mod strutil;
pub mod supervisor;
pub mod ws;
