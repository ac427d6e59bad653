//! The command that reads one's own timeline.

use vstd::prelude::*;
use vstd::string::*;
use crate::args::BaseArgs;
use crate::commands::{Step, parse_count};
use crate::commands::feed::{is_invalid, wanted_count};
use crate::error::TwitterError;

verus! {

pub const HELP: &'static str = "See your most recent tweets!\n
Usage: tw home [count] [OPTIONS]

Arguments
    count (default: 10):
        integer between 5 and 100.

Options:
    -p, --profile <name>
        The name of the profile to use.
        Must correspond to an entry in your credentials file (~/.twitter_credentials.toml by default).
    -c, --credentials <name>
        The file name or path to use for the credentials file.
        Default: ~/.twitter_credentials.toml
    --debug
        Print debug messages.

Examples:
    Read your last 10 tweets (default):
        tw home
    Read your last 20 tweets:
        tw home 20
    Read your last 5 tweets from your alt profile:
        tw home 5 -p alt1
";

/// What the command needs: how many items to ask for.
#[derive(Debug, PartialEq, Eq)]
pub struct Args {
    pub count: i32,
}

/// Whether a count is one that the endpoint takes: 5 to 100.
pub open spec fn in_range(count: int) -> bool {
    5 <= count <= 100
}

/// Reads what the command needs from the arguments.
pub fn parse(args: &BaseArgs) -> (out: Result<Args, TwitterError>)
    ensures
        match out {
            Ok(a) => wanted_count(args@) == Some(a.count as int),
            Err(e) => wanted_count(args@) is None && is_invalid(e, "count"@),
        },
{
    match args.get_position(1) {
        Some(text) => match parse_count(text.as_str()) {
            Some(count) => Ok(Args { count }),
            None => Err(TwitterError::Invalid("count".to_owned())),
        },
        None => Ok(Args { count: 10 }),
    }
}

/// Shows the help where it is asked for; else reads the count and holds
/// it to the range from 5 to 100.
pub fn execute(base_args: &BaseArgs) -> (out: Result<Step<Args>, TwitterError>)
    ensures
        BaseArgs::asks_for_help(base_args@) ==> out == Ok::<Step<Args>, TwitterError>(Step::Help),
        !BaseArgs::asks_for_help(base_args@) ==> match out {
            Ok(Step::Run(a)) => wanted_count(base_args@) == Some(a.count as int) && in_range(
                a.count as int,
            ),
            Ok(Step::Help) => false,
            Err(e) => match wanted_count(base_args@) {
                Some(count) => !in_range(count) && is_invalid(
                    e,
                    "Count must be between 5 and 100"@,
                ),
                None => is_invalid(e, "count"@),
            },
        },
{
    if base_args.is_requesting_help() {
        return Ok(Step::Help);
    }
    match parse(base_args) {
        Ok(a) => {
            if a.count < 5 || a.count > 100 {
                Err(TwitterError::Invalid("Count must be between 5 and 100".to_owned()))
            } else {
                Ok(Step::Run(a))
            }
        },
        Err(e) => Err(e),
    }
}

} // verus!
