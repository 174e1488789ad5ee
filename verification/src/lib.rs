pub mod admin;
pub mod ai;
pub mod catalog;
pub mod config;
pub mod contacts;
pub mod encoding;
pub mod error;
pub mod media_manager;
pub mod numbers;
pub mod orders;
pub mod rate_limiter;
pub mod resources;
pub mod retry;
pub mod seed;
pub mod settings;
pub mod telegram;
pub mod text;
pub mod types;
