//! The explicit invocation arguments, as plain optional values.
//!
//! The process entry point parses the command line and hands the values over
//! in this form; an absent argument falls back to the persisted configuration
//! and then to the process environment.

use vstd::prelude::*;

verus! {

pub struct Cli {
    pub discord_token: Option<String>,
    pub telegram_token: Option<String>,
    pub output_chat_id: Option<String>,
    pub config_path: Option<String>,
}

} // verus!
