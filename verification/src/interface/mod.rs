pub mod global;
