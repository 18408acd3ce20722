pub mod login;
pub mod me;
