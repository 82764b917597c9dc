//! The persisted configuration record and the resolution of the three
//! required values from their ranked sources.
//!
//! Precedence for each required value is fixed: explicit invocation argument,
//! then persisted configuration field, then process environment variable;
//! a value absent from all three is a fatal `MissingValue`.

use crate::cli::Cli;
use vstd::prelude::*;

verus! {

/// The persisted configuration record. The six identifier lists and the
/// hide-identity flag default to empty/false when absent from storage; that
/// defaulting is done by the collaborator that reads the file.
pub struct Config {
    pub discord_token: Option<String>,
    pub telegram_token: Option<String>,
    pub output_chat_id: Option<String>,
    pub allowed_guilds_ids: Vec<u64>,
    pub muted_guilds_ids: Vec<u64>,
    pub allowed_channels_ids: Vec<u64>,
    pub muted_channels_ids: Vec<u64>,
    pub allowed_users_ids: Vec<u64>,
    pub muted_users_ids: Vec<u64>,
    pub hide_usernames: bool,
}

/// The environment fallback values. The process entry point reads the three
/// environment variables once and hands over whatever was set.
pub struct EnvTokens {
    pub discord_token: Option<String>,
    pub telegram_token: Option<String>,
    pub output_chat_id: Option<String>,
}

/// Which required configuration value was absent from every source.
#[derive(Clone, Copy, Debug, PartialEq, Eq, Structural)]
pub enum MissingValue {
    DiscordToken,
    TelegramToken,
    OutputChannel,
}

impl MissingValue {
    /// The diagnostic shown when resolution fails on this value.
    pub fn message(&self) -> (r: String)
        ensures
            *self == MissingValue::DiscordToken ==> r@ == "Discord token not found!"@,
            *self == MissingValue::TelegramToken ==> r@ == "Telegram token not found!"@,
            *self == MissingValue::OutputChannel ==> r@ == "Output channel not found!"@,
    {
        match self {
            MissingValue::DiscordToken => "Discord token not found!".to_owned(),
            MissingValue::TelegramToken => "Telegram token not found!".to_owned(),
            MissingValue::OutputChannel => "Output channel not found!".to_owned(),
        }
    }
}

/// The text of an optional value.
pub open spec fn opt_text(o: Option<String>) -> Option<Seq<char>> {
    match o {
        Option::Some(s) => Option::Some(s@),
        Option::None => Option::None,
    }
}

/// The ranked choice among the three sources of one required value: the
/// invocation argument wins, then the persisted field, then the environment.
pub open spec fn first_present(
    arg: Option<Seq<char>>,
    persisted: Option<Seq<char>>,
    env: Option<Seq<char>>,
) -> Option<Seq<char>> {
    if arg is Some {
        arg
    } else if persisted is Some {
        persisted
    } else {
        env
    }
}

/// What resolution yields for the source credential.
pub open spec fn discord_choice(args: Cli, config: Config, env: EnvTokens) -> Option<Seq<char>> {
    first_present(
        opt_text(args.discord_token),
        opt_text(config.discord_token),
        opt_text(env.discord_token),
    )
}

/// What resolution yields for the destination credential.
pub open spec fn telegram_choice(args: Cli, config: Config, env: EnvTokens) -> Option<Seq<char>> {
    first_present(
        opt_text(args.telegram_token),
        opt_text(config.telegram_token),
        opt_text(env.telegram_token),
    )
}

/// What resolution yields for the destination target.
pub open spec fn output_choice(args: Cli, config: Config, env: EnvTokens) -> Option<Seq<char>> {
    first_present(
        opt_text(args.output_chat_id),
        opt_text(config.output_chat_id),
        opt_text(env.output_chat_id),
    )
}

/// The ranked choice itself, on owned optional values.
fn pick(arg: &Option<String>, persisted: &Option<String>, env: &Option<String>) -> (r: Option<
    String,
>)
    ensures
        opt_text(r) == first_present(opt_text(*arg), opt_text(*persisted), opt_text(*env)),
{
    match arg {
        Option::Some(v) => Option::Some(v.clone()),
        Option::None => match persisted {
            Option::Some(v) => Option::Some(v.clone()),
            Option::None => match env {
                Option::Some(v) => Option::Some(v.clone()),
                Option::None => Option::None,
            },
        },
    }
}

fn get_discord_token(args: &Cli, config: &Config, env: &EnvTokens) -> (r: Result<
    String,
    MissingValue,
>)
    ensures
        r is Ok <==> discord_choice(*args, *config, *env) is Some,
        r matches Ok(t) ==> Option::Some(t@) == discord_choice(*args, *config, *env),
        r matches Err(m) ==> m == MissingValue::DiscordToken,
{
    match pick(&args.discord_token, &config.discord_token, &env.discord_token) {
        Option::Some(t) => Result::Ok(t),
        Option::None => Result::Err(MissingValue::DiscordToken),
    }
}

fn get_telegram_token(args: &Cli, config: &Config, env: &EnvTokens) -> (r: Result<
    String,
    MissingValue,
>)
    ensures
        r is Ok <==> telegram_choice(*args, *config, *env) is Some,
        r matches Ok(t) ==> Option::Some(t@) == telegram_choice(*args, *config, *env),
        r matches Err(m) ==> m == MissingValue::TelegramToken,
{
    match pick(&args.telegram_token, &config.telegram_token, &env.telegram_token) {
        Option::Some(t) => Result::Ok(t),
        Option::None => Result::Err(MissingValue::TelegramToken),
    }
}

fn get_output_channel(args: &Cli, config: &Config, env: &EnvTokens) -> (r: Result<
    String,
    MissingValue,
>)
    ensures
        r is Ok <==> output_choice(*args, *config, *env) is Some,
        r matches Ok(t) ==> Option::Some(t@) == output_choice(*args, *config, *env),
        r matches Err(m) ==> m == MissingValue::OutputChannel,
{
    match pick(&args.output_chat_id, &config.output_chat_id, &env.output_chat_id) {
        Option::Some(t) => Result::Ok(t),
        Option::None => Result::Err(MissingValue::OutputChannel),
    }
}

/// Resolves the three required values. Succeeds exactly when each of the
/// three is present in at least one of its sources; each resolved value is
/// the ranked choice among its sources; a failure names the first value, in
/// the order source credential, destination credential, destination target,
/// that no source supplies.
pub fn get_tokens(args: &Cli, config: &Config, env: &EnvTokens) -> (r: Result<
    (String, String, String),
    MissingValue,
>)
    ensures
        r is Ok <==> (discord_choice(*args, *config, *env) is Some && telegram_choice(
            *args,
            *config,
            *env,
        ) is Some && output_choice(*args, *config, *env) is Some),
        r matches Ok(t) ==> Option::Some(t.0@) == discord_choice(*args, *config, *env)
            && Option::Some(t.1@) == telegram_choice(*args, *config, *env) && Option::Some(t.2@)
            == output_choice(*args, *config, *env),
        r matches Err(m) ==> ((m == MissingValue::DiscordToken && discord_choice(
            *args,
            *config,
            *env,
        ) is None) || (m == MissingValue::TelegramToken && discord_choice(
            *args,
            *config,
            *env,
        ) is Some && telegram_choice(*args, *config, *env) is None) || (
        m == MissingValue::OutputChannel && discord_choice(*args, *config, *env) is Some
            && telegram_choice(*args, *config, *env) is Some && output_choice(
            *args,
            *config,
            *env,
        ) is None)),
{
    let discord_token = match get_discord_token(args, config, env) {
        Result::Ok(t) => t,
        Result::Err(m) => {
            return Result::Err(m);
        },
    };
    let telegram_token = match get_telegram_token(args, config, env) {
        Result::Ok(t) => t,
        Result::Err(m) => {
            return Result::Err(m);
        },
    };
    let output_channel = match get_output_channel(args, config, env) {
        Result::Ok(t) => t,
        Result::Err(m) => {
            return Result::Err(m);
        },
    };
    Result::Ok((discord_token, telegram_token, output_channel))
}

} // verus!
