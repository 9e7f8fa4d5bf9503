pub mod config;
pub mod models;
pub mod client;
pub mod handlers;
