pub mod action;
pub mod agent;
pub mod auth;
pub mod authentication;
pub mod config;
pub mod error;
pub mod laws;
pub mod listing;
pub mod protocol;
pub mod serve;
pub mod session_opening;
pub mod session_title;
pub mod session_use;
pub mod settings;
pub mod string_map;
pub mod task;
pub mod text;
pub mod thread_id;
pub mod title;
