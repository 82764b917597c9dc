//! Core of a chat-forwarding bot: filtering of inbound events, re-encoding of
//! message content into the destination's markup dialect, and resolution of
//! the runtime configuration from ranked sources.

pub mod cli;
pub mod config;
pub mod event;
pub mod filter;
pub mod utils;

pub use cli::Cli;
pub use config::{get_tokens, Config, EnvTokens, MissingValue};
pub use event::{Embed, EmbedField, InboundEvent};
pub use filter::should_forward;
pub use utils::{format_embed, format_message, EscapeMarkdownV2};
