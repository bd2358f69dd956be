//! The small prefix-command bot, configured from a TOML file: its command prefix,
//! its configuration and what its commands answer.

use vstd::prelude::*;

verus! {

/// The prefix of its commands.
pub const COMMAND_PREFIX: &'static str = "~";

/// The file its token is read from.
pub const CONFIG_FILE: &'static str = "config.toml";

/// The picture its `gimper` command sends.
pub const GIMPER_PATH: &'static str = "img/gimper.jpg";

/// Its configuration: the bot token, under `[config]` in the file.
#[derive(Debug)]
pub struct Config {
    pub token: String,
}

/// The reply of its `ping` command.
pub fn ping() -> (reply: String)
    ensures
        reply@ == "Pong!"@,
{
    "Pong!".to_string()
}

} // verus!
