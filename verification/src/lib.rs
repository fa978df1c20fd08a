//! Weaver: a history tracker for shell commands and visited urls.
//!
//! This crate holds the verified core of the tool: the text helpers, the
//! command line decisions, the action table and its filters, the list view
//! state machine and the pure parts of the web server.

pub mod text;
pub mod action_list;
pub mod entities;
pub mod display;
pub mod config;
pub mod cli;
pub mod server;
pub mod flows;
pub mod controllers;
pub mod store;
