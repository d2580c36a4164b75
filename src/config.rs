//! The resolved settings the bot runs with, and its command-line options.
use vstd::prelude::*;

verus! {

/// Endpoint and credential of the chat-completion API.
#[derive(Debug, Clone, Default)]
pub struct ClientConfig {
    pub base_url: String,
    pub token: String,
}

/// Credential of the bot and the one identity allowed to command it.
#[derive(Debug, Clone, Default)]
pub struct BotConfig {
    pub token: String,
    pub super_user_id: u64,
}

/// All settings of one run.
#[derive(Debug, Clone, Default)]
pub struct SionConfig {
    pub gpt: ClientConfig,
    pub bot: BotConfig,
}

/// Command-line options: an optional settings path and a verbosity flag.
#[derive(Debug, Clone)]
pub struct Args {
    pub config_path: Option<String>,
    pub debug: bool,
}

} // verus!
