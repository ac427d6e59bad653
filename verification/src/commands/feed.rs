//! The command that reads the legacy timeline.

use vstd::prelude::*;
use vstd::string::*;
use crate::args::{BaseArgs, Parsed};
use crate::commands::{Step, count_value, parse_count};
use crate::error::TwitterError;

verus! {

pub const HELP: &'static str = "Read your feed!\n
Usage: tw feed [count] [OPTIONS]

Options:
    -p, --profile <name>
        The name of the profile to use.
        Must correspond to an entry in your credentials file (~/.twitter_credentials.toml by default).
    -c, --credentials <name>
        The file name or path to use for the credentials file.
        Default: ~/.twitter_credentials.toml
    --debug
        Print debug messages.

Examples:
    Read 10 tweets from your feed (default):
        tw feed
    Read 20 tweets from your feed:
        tw feed 20
    Read 1 tweet from your alt feed:
        tw feed 1 -p alt1
";

/// What the command needs: how many items to ask for.
#[derive(Debug, PartialEq, Eq)]
pub struct Args {
    pub count: i32,
}

/// The count that the arguments give: 10 without a second positional
/// argument, else the count that it writes, if it writes one.
pub open spec fn wanted_count(p: Parsed) -> Option<int> {
    if p.positional.len() > 1 {
        count_value(vstd::utf8::encode_utf8(p.positional[1]))
    } else {
        Some(10)
    }
}

/// Whether an error says that a given thing is not accepted.
pub open spec fn is_invalid(e: TwitterError, what: Seq<char>) -> bool {
    e matches TwitterError::Invalid(w) && w@ == what
}

/// Reads what the command needs from the arguments.
pub fn parse(args: &BaseArgs) -> (out: Result<Args, TwitterError>)
    ensures
        match out {
            Ok(a) => wanted_count(args@) == Some(a.count as int),
            Err(e) => wanted_count(args@) is None && is_invalid(e, "count"@),
        },
{
    match args.get_position(1) {
        Some(text) => match parse_count(text.as_str()) {
            Some(count) => Ok(Args { count }),
            None => Err(TwitterError::Invalid("count".to_owned())),
        },
        None => Ok(Args { count: 10 }),
    }
}

/// Shows the help where it is asked for; else reads the count.
pub fn execute(base_args: &BaseArgs) -> (out: Result<Step<Args>, TwitterError>)
    ensures
        BaseArgs::asks_for_help(base_args@) ==> out == Ok::<Step<Args>, TwitterError>(Step::Help),
        !BaseArgs::asks_for_help(base_args@) ==> match out {
            Ok(Step::Run(a)) => wanted_count(base_args@) == Some(a.count as int),
            Ok(Step::Help) => false,
            Err(e) => wanted_count(base_args@) is None && is_invalid(e, "count"@),
        },
{
    if base_args.is_requesting_help() {
        return Ok(Step::Help);
    }
    match parse(base_args) {
        Ok(a) => Ok(Step::Run(a)),
        Err(e) => Err(e),
    }
}

} // verus!
