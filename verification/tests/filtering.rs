use dsc_tg_forwarder::{should_forward, Config, InboundEvent};

fn empty_config() -> Config {
    Config {
        discord_token: None,
        telegram_token: None,
        output_chat_id: None,
        allowed_guilds_ids: vec![],
        muted_guilds_ids: vec![],
        allowed_channels_ids: vec![],
        muted_channels_ids: vec![],
        allowed_users_ids: vec![],
        muted_users_ids: vec![],
        hide_usernames: false,
    }
}

fn event() -> InboundEvent {
    InboundEvent {
        author_id: 1,
        author_tag: "alice".to_owned(),
        guild_id: Some(42),
        guild_name: "g".to_owned(),
        channel_id: 7,
        channel_name: "c".to_owned(),
        content: "hi".to_owned(),
        embeds: vec![],
    }
}

#[test]
fn all_lists_empty_forwards_everything() {
    assert!(should_forward(&event(), &empty_config()));
}

#[test]
fn guild_allow_list_admits_member() {
    let mut cfg = empty_config();
    cfg.allowed_guilds_ids = vec![41, 42];
    assert!(should_forward(&event(), &cfg));
}

#[test]
fn guild_allow_list_drops_non_member() {
    let mut cfg = empty_config();
    cfg.allowed_guilds_ids = vec![41, 43];
    assert!(!should_forward(&event(), &cfg));
}

#[test]
fn guild_mute_list_drops_member() {
    let mut cfg = empty_config();
    cfg.muted_guilds_ids = vec![42];
    assert!(!should_forward(&event(), &cfg));
}

#[test]
fn guild_mute_list_admits_non_member() {
    let mut cfg = empty_config();
    cfg.muted_guilds_ids = vec![43];
    assert!(should_forward(&event(), &cfg));
}

#[test]
fn channel_allow_list_admits_member() {
    let mut cfg = empty_config();
    cfg.allowed_channels_ids = vec![7];
    assert!(should_forward(&event(), &cfg));
}

#[test]
fn channel_allow_list_drops_non_member() {
    let mut cfg = empty_config();
    cfg.allowed_channels_ids = vec![8];
    assert!(!should_forward(&event(), &cfg));
}

#[test]
fn channel_mute_list_drops_member() {
    let mut cfg = empty_config();
    cfg.muted_channels_ids = vec![7];
    assert!(!should_forward(&event(), &cfg));
}

#[test]
fn author_allow_list_admits_member() {
    let mut cfg = empty_config();
    cfg.allowed_users_ids = vec![1];
    assert!(should_forward(&event(), &cfg));
}

#[test]
fn author_allow_list_drops_non_member() {
    let mut cfg = empty_config();
    cfg.allowed_users_ids = vec![2];
    assert!(!should_forward(&event(), &cfg));
}

#[test]
fn author_mute_list_drops_member() {
    let mut cfg = empty_config();
    cfg.muted_users_ids = vec![1];
    assert!(!should_forward(&event(), &cfg));
}

#[test]
fn allow_and_mute_on_one_axis_require_both() {
    let mut cfg = empty_config();
    cfg.allowed_guilds_ids = vec![42];
    cfg.muted_guilds_ids = vec![42];
    assert!(!should_forward(&event(), &cfg));
    cfg.muted_guilds_ids = vec![43];
    assert!(should_forward(&event(), &cfg));
}

#[test]
fn muted_author_is_dropped_despite_channel_allow_match() {
    let mut e = event();
    e.guild_id = Some(42);
    e.channel_id = 7;
    let mut cfg = empty_config();
    cfg.allowed_channels_ids = vec![7];
    cfg.muted_users_ids = vec![e.author_id];
    assert!(!should_forward(&e, &cfg));
}

#[test]
fn private_message_uses_sentinel_guild_id_zero() {
    let mut e = event();
    e.guild_id = None;
    let mut cfg = empty_config();
    cfg.allowed_guilds_ids = vec![0];
    assert!(should_forward(&e, &cfg));
    cfg.allowed_guilds_ids = vec![42];
    assert!(!should_forward(&e, &cfg));
    cfg.allowed_guilds_ids = vec![];
    cfg.muted_guilds_ids = vec![0];
    assert!(!should_forward(&e, &cfg));
}
