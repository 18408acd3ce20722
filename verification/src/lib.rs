//! Verified core of a chat backend: role encoding, request validation,
//! authorization decisions, password checks and the chat-room registry.

pub mod config;
pub mod controllers;
pub mod interface;
pub mod ids;
pub mod models;
pub mod socket_server;
pub mod session;
pub mod schema;
