pub mod get_users;
