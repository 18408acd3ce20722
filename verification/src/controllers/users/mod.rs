pub mod create_new_users;
pub mod get_users;
