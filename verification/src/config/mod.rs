pub mod auth;
pub mod jwt;
pub mod middleware;
