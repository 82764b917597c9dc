//! The allow/mute filter: decides whether an inbound event is forwarded.
//!
//! Three axes are checked — origin group, channel, author — each with an
//! allow-list and a mute-list. An empty list imposes no restriction on its
//! axis; a non-empty allow-list restricts to membership and a non-empty
//! mute-list to non-membership.

use crate::config::Config;
use crate::event::InboundEvent;
use vstd::prelude::*;

verus! {

/// Whether an identifier passes one axis of the filter.
pub open spec fn axis_passes(allow: Seq<u64>, mute: Seq<u64>, id: u64) -> bool {
    (allow.len() == 0 || allow.contains(id)) && (mute.len() == 0 || !mute.contains(id))
}

/// The origin-group identifier used by the filter. A private message carries
/// none and is checked against the sentinel id 0.
pub open spec fn effective_guild_id(e: InboundEvent) -> u64 {
    match e.guild_id {
        Option::Some(g) => g,
        Option::None => 0u64,
    }
}

/// Whether an event passes all three axes of the filter.
pub open spec fn should_forward_spec(e: InboundEvent, cfg: Config) -> bool {
    &&& axis_passes(cfg.allowed_guilds_ids@, cfg.muted_guilds_ids@, effective_guild_id(e))
    &&& axis_passes(cfg.allowed_channels_ids@, cfg.muted_channels_ids@, e.channel_id)
    &&& axis_passes(cfg.allowed_users_ids@, cfg.muted_users_ids@, e.author_id)
}

fn contains_id(list: &Vec<u64>, id: u64) -> (r: bool)
    ensures
        r == list@.contains(id),
{
    let mut i: usize = 0;
    while i < list.len()
        invariant
            i <= list@.len(),
            forall|j: int| 0 <= j < i ==> list@[j] != id,
        decreases list@.len() - i,
    {
        if list[i] == id {
            assert(list@.contains(id)) by {
                assert(list@[i as int] == id);
            }
            return true;
        }
        i = i + 1;
    }
    false
}

fn axis_check(allow: &Vec<u64>, mute: &Vec<u64>, id: u64) -> (r: bool)
    ensures
        r == axis_passes(allow@, mute@, id),
{
    (allow.len() == 0 || contains_id(allow, id)) && (mute.len() == 0 || !contains_id(mute, id))
}

/// Decides whether the event is forwarded, from the event's identifiers and
/// the six lists of the resolved configuration alone.
pub fn should_forward(e: &InboundEvent, cfg: &Config) -> (r: bool)
    ensures
        r == should_forward_spec(*e, *cfg),
{
    let guild_id: u64 = match e.guild_id {
        Option::Some(g) => g,
        Option::None => 0,
    };
    axis_check(&cfg.allowed_guilds_ids, &cfg.muted_guilds_ids, guild_id) && axis_check(
        &cfg.allowed_channels_ids,
        &cfg.muted_channels_ids,
        e.channel_id,
    ) && axis_check(&cfg.allowed_users_ids, &cfg.muted_users_ids, e.author_id)
}

/// One axis of the filter, on any lists and identifier: an empty pair of
/// lists imposes no restriction; a non-empty allow-list alone restricts to
/// membership; a non-empty mute-list alone restricts to non-membership; a
/// non-empty allow-list and a non-empty mute-list together require both
/// membership and non-membership respectively.
pub proof fn lemma_axis_filter(allow: Seq<u64>, mute: Seq<u64>, id: u64)
    ensures
        allow.len() == 0 && mute.len() == 0 ==> axis_passes(allow, mute, id),
        allow.len() > 0 && mute.len() == 0 ==> (axis_passes(allow, mute, id) <==> allow.contains(
            id,
        )),
        allow.len() == 0 && mute.len() > 0 ==> (axis_passes(allow, mute, id) <==> !mute.contains(
            id,
        )),
        allow.len() > 0 && mute.len() > 0 ==> (axis_passes(allow, mute, id) <==> (allow.contains(id)
            && !mute.contains(id))),
{
}

/// With all six lists empty, every event is forwarded.
pub proof fn lemma_empty_config_forwards_all(e: InboundEvent, cfg: Config)
    requires
        cfg.allowed_guilds_ids@.len() == 0,
        cfg.muted_guilds_ids@.len() == 0,
        cfg.allowed_channels_ids@.len() == 0,
        cfg.muted_channels_ids@.len() == 0,
        cfg.allowed_users_ids@.len() == 0,
        cfg.muted_users_ids@.len() == 0,
    ensures
        should_forward_spec(e, cfg),
{
}

} // verus!
