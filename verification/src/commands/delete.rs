//! The command that deletes a post.

use vstd::prelude::*;
use vstd::string::*;
use crate::args::{BaseArgs, Parsed};
use crate::commands::Step;
use crate::error::TwitterError;
use crate::response::TwitterDeleteResponseData;

verus! {

pub const HELP: &'static str = "Delete a tweet!\n
Usage: tw delete tweet_id [OPTIONS]

Options:
    -p, --profile <name>
        The name of the profile to use.
        Must correspond to an entry in your credentials file (~/.twitter_credentials.toml by default).
    -c, --credentials <name>
        The file name or path to use for the credentials file.
        Default: ~/.twitter_credentials.toml
    --debug
        Print debug messages.

Examples:
    Delete a single tweet:
        tw delete 12345666
    Delete a tweet from an alt account:
        tw delete 12345666 --profile alt1
";

/// What the command needs: the id of the post.
#[derive(Debug, PartialEq, Eq)]
pub struct Args {
    pub id: String,
}

/// The id that the arguments give: the second positional argument, if it
/// is there and not empty.
pub open spec fn wanted_id(p: Parsed) -> Option<Seq<char>> {
    if p.positional.len() > 1 && p.positional[1].len() > 0 {
        Some(p.positional[1])
    } else {
        None
    }
}

/// Whether an error says that an argument of a given name is missing.
pub open spec fn is_missing(e: TwitterError, name: Seq<char>) -> bool {
    e matches TwitterError::MissingArgument(n) && n@ == name
}

/// Reads what the command needs from the arguments.
pub fn parse(args: &BaseArgs) -> (out: Result<Args, TwitterError>)
    ensures
        match out {
            Ok(a) => wanted_id(args@) == Some(a.id@),
            Err(e) => wanted_id(args@) is None && is_missing(e, "id"@),
        },
{
    match args.get_position(1) {
        Some(id) => {
            if id.as_str().is_empty() {
                Err(TwitterError::MissingArgument("id".to_owned()))
            } else {
                Ok(Args { id })
            }
        },
        None => Err(TwitterError::MissingArgument("id".to_owned())),
    }
}

/// Shows the help where it is asked for; else reads the id.
pub fn execute(base_args: &BaseArgs) -> (out: Result<Step<Args>, TwitterError>)
    ensures
        BaseArgs::asks_for_help(base_args@) ==> out == Ok::<Step<Args>, TwitterError>(Step::Help),
        !BaseArgs::asks_for_help(base_args@) ==> match out {
            Ok(Step::Run(a)) => wanted_id(base_args@) == Some(a.id@),
            Ok(Step::Help) => false,
            Err(e) => wanted_id(base_args@) is None && is_missing(e, "id"@),
        },
{
    if base_args.is_requesting_help() {
        return Ok(Step::Help);
    }
    match parse(base_args) {
        Ok(a) => Ok(Step::Run(a)),
        Err(e) => Err(e),
    }
}

/// What to tell the user once the server has answered: that the post is
/// deleted, or the error that it is not.
pub fn outcome(id: &str, response: &TwitterDeleteResponseData) -> (out: Result<
    String,
    TwitterError,
>)
    ensures
        match out {
            Ok(message) => response.deleted && message@ == "Deleted tweet id: "@ + id@,
            Err(e) => !response.deleted && (e matches TwitterError::Rejected(m) && m@
                == "Error deleting tweet ID: "@ + id@),
        },
{
    if response.deleted {
        Ok("Deleted tweet id: ".to_owned().concat(id))
    } else {
        Err(TwitterError::Rejected("Error deleting tweet ID: ".to_owned().concat(id)))
    }
}

} // verus!
