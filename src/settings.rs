//! The bot's configuration, as plain values. Reading it from a file and the
//! environment is the caller's part.
use vstd::prelude::*;

verus! {

/// Prefix of the environment variables that override the configuration file.
pub const ENV_PREFIX: &'static str = "tgsmrs";

#[derive(Debug)]
pub struct TeloxideConf {
    pub token: String,
}

#[derive(Debug)]
pub struct RedditAccountConf {
    pub username: String,
    pub password: String,
}

#[derive(Debug)]
pub struct RedditClientConf {
    pub id: String,
    pub secret: String,
    pub user_agent: String,
}

#[derive(Debug)]
pub struct RedditConf {
    pub account: RedditAccountConf,
    pub client: RedditClientConf,
}

#[derive(Debug)]
pub struct DatabaseConf {
    pub url: String,
}

#[derive(Debug)]
pub struct Settings {
    pub teloxide: TeloxideConf,
    pub reddit: RedditConf,
    pub database: DatabaseConf,
}

impl Settings {
    /// The configuration file to read: the first argument after the program
    /// name, or `tg-subreddit-mirror.toml` where there is none.
    pub fn config_file_name(args: &Vec<String>) -> (r: String)
        ensures
            args@.len() > 1 ==> r@ == args@[1]@,
            args@.len() <= 1 ==> r@ == "tg-subreddit-mirror.toml"@,
    {
        if args.len() > 1 {
            args[1].clone()
        } else {
            String::from_str("tg-subreddit-mirror.toml")
        }
    }
}

} // verus!
