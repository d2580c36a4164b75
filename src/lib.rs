pub mod bot;
pub mod cmd;
pub mod config;
pub mod models;
pub mod text;
pub mod zero;
