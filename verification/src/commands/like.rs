//! The commands that like a post and take a like back.

use vstd::prelude::*;
use vstd::string::*;
use crate::args::BaseArgs;
use crate::commands::Step;
use crate::commands::delete::{is_missing, wanted_id};
use crate::error::TwitterError;
use crate::response::TwitterLikeResponseData;

verus! {

pub const HELP: &'static str = "Like (or unlike) a tweet!\n
Usage: tw like tweet_id [OPTIONS]
       tw unlike tweet_id [OPTIONS]

Options:
    -p, --profile <name>
        The name of the profile to use.
        Must correspond to an entry in your credentials file (~/.twitter_credentials.toml by default).
    -c, --credentials <name>
        The file name or path to use for the credentials file.
        Default: ~/.twitter_credentials.toml
    --debug
        Print debug messages.

Examples:
    Like a single tweet:
        tw like 12345666
    Like a tweet from an alt account:
        tw like 12345666 --profile alt1
    Unlike a single tweet:
        tw unlike 12345666
";

/// What the command needs: the id of the post.
#[derive(Debug, PartialEq, Eq)]
pub struct Args {
    pub id: String,
}

/// Which of the two commands runs.
#[derive(Debug, PartialEq, Eq, Clone, Copy)]
pub enum Action {
    Like,
    Unlike,
}

/// What a run does: the action and the post.
#[derive(Debug, PartialEq, Eq)]
pub struct Plan {
    pub action: Action,
    pub id: String,
}

/// Reads what the command needs from the arguments.
pub fn parse(args: &BaseArgs) -> (out: Result<Args, TwitterError>)
    ensures
        match out {
            Ok(a) => wanted_id(args@) == Some(a.id@),
            Err(e) => wanted_id(args@) is None && is_missing(e, "id"@),
        },
{
    match args.get_position(1) {
        Some(id) => {
            if id.as_str().is_empty() {
                Err(TwitterError::MissingArgument("id".to_owned()))
            } else {
                Ok(Args { id })
            }
        },
        None => Err(TwitterError::MissingArgument("id".to_owned())),
    }
}

/// Shows the help where it is asked for; else reads the id.
pub fn execute(base_args: &BaseArgs, like_or_unlike: Action) -> (out: Result<
    Step<Plan>,
    TwitterError,
>)
    ensures
        BaseArgs::asks_for_help(base_args@) ==> out == Ok::<Step<Plan>, TwitterError>(Step::Help),
        !BaseArgs::asks_for_help(base_args@) ==> match out {
            Ok(Step::Run(plan)) => plan.action == like_or_unlike && wanted_id(base_args@) == Some(
                plan.id@,
            ),
            Ok(Step::Help) => false,
            Err(e) => wanted_id(base_args@) is None && is_missing(e, "id"@),
        },
{
    if base_args.is_requesting_help() {
        return Ok(Step::Help);
    }
    match parse(base_args) {
        Ok(a) => Ok(Step::Run(Plan { action: like_or_unlike, id: a.id })),
        Err(e) => Err(e),
    }
}

/// The command that likes a post.
pub fn execute_like(base_args: &BaseArgs) -> (out: Result<Step<Plan>, TwitterError>)
    ensures
        BaseArgs::asks_for_help(base_args@) ==> out == Ok::<Step<Plan>, TwitterError>(Step::Help),
        !BaseArgs::asks_for_help(base_args@) ==> match out {
            Ok(Step::Run(plan)) => plan.action == Action::Like && wanted_id(base_args@) == Some(
                plan.id@,
            ),
            Ok(Step::Help) => false,
            Err(e) => wanted_id(base_args@) is None && is_missing(e, "id"@),
        },
{
    execute(base_args, Action::Like)
}

/// The command that takes a like back.
pub fn execute_unlike(base_args: &BaseArgs) -> (out: Result<Step<Plan>, TwitterError>)
    ensures
        BaseArgs::asks_for_help(base_args@) ==> out == Ok::<Step<Plan>, TwitterError>(Step::Help),
        !BaseArgs::asks_for_help(base_args@) ==> match out {
            Ok(Step::Run(plan)) => plan.action == Action::Unlike && wanted_id(base_args@) == Some(
                plan.id@,
            ),
            Ok(Step::Help) => false,
            Err(e) => wanted_id(base_args@) is None && is_missing(e, "id"@),
        },
{
    execute(base_args, Action::Unlike)
}

/// What to tell the user once the server has answered: whether the post is
/// liked now.
pub fn outcome(id: &str, response: &TwitterLikeResponseData) -> (message: String)
    ensures
        message@ == (if response.liked {
            "Liked tweet id: "@
        } else {
            "Unliked tweet id: "@
        }) + id@,
{
    if response.liked {
        "Liked tweet id: ".to_owned().concat(id)
    } else {
        "Unliked tweet id: ".to_owned().concat(id)
    }
}

} // verus!
