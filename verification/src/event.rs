//! The data carried by one observed source-platform message.
//!
//! Display names and body text arrive here as plain values: the surrounding
//! collaborator performs whatever lookups the source platform needs before an
//! event reaches the filter and the formatter.

use vstd::prelude::*;

verus! {

/// One name/value pair of a rich-attachment block.
pub struct EmbedField {
    pub name: String,
    pub value: String,
}

/// A rich attachment of a message. Every part is optional; an absent part
/// contributes nothing to the formatted output.
pub struct Embed {
    pub title: Option<String>,
    pub description: Option<String>,
    pub url: Option<String>,
    pub fields: Vec<EmbedField>,
    pub thumbnail: Option<String>,
    pub image: Option<String>,
    pub video: Option<String>,
    pub author: Option<String>,
    pub footer: Option<String>,
    pub timestamp: Option<String>,
}

/// One observed source-platform message.
///
/// `guild_id` is absent for private/direct messages. `guild_name` and
/// `channel_name` are the display names the source collaborator resolved for
/// the origin group and channel; they are meaningful only when `guild_id` is
/// present.
pub struct InboundEvent {
    pub author_id: u64,
    pub author_tag: String,
    pub guild_id: Option<u64>,
    pub guild_name: String,
    pub channel_id: u64,
    pub channel_name: String,
    pub content: String,
    pub embeds: Vec<Embed>,
}

} // verus!
