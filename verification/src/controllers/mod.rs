pub mod auth;
pub mod chat;
pub mod members;
pub mod users;
pub mod ws;
