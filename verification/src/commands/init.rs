//! The command that starts a credentials file.

use vstd::prelude::*;
use vstd::string::*;
use crate::args::BaseArgs;
use crate::commands::Step;
use crate::credentials::{Credentials, CredentialsFile, wanted_file};
use crate::error::TwitterError;

verus! {

pub const HELP: &'static str = "Initialize your credentials file!\n
    Usage: tw init [OPTIONS]

    Options:
        -c, --credentials <name>
            The file name or path to use for the credentials file.
            Default: ~/.twitter_credentials.toml

    Examples:
        Read 10 tweets from your feed (default):
            tw feed
        Read 20 tweets from your feed:
            tw feed 20
        Read 1 tweet from your alt feed:
            tw feed 1 -p alt1
";

/// What the command needs: the name of the credentials file.
#[derive(Debug, PartialEq, Eq)]
pub struct Args {
    pub credentials_file: String,
}

/// Reads what the command needs from the arguments.
pub fn parse(args: &BaseArgs) -> (out: Args)
    ensures
        out.credentials_file@ == wanted_file(args@),
{
    let credentials_file = args.get("credentials", "c", ".twitter_credentials.toml".to_owned());
    Args { credentials_file }
}

/// Shows the help where it is asked for; else reads the file's name.
pub fn execute(base_args: &BaseArgs) -> (out: Result<Step<Args>, TwitterError>)
    ensures
        BaseArgs::asks_for_help(base_args@) ==> out == Ok::<Step<Args>, TwitterError>(Step::Help),
        !BaseArgs::asks_for_help(base_args@) ==> (out matches Ok(Step::Run(a))
            && a.credentials_file@ == wanted_file(base_args@)),
{
    if base_args.is_requesting_help() {
        Ok(Step::Help)
    } else {
        Ok(Step::Run(parse(base_args)))
    }
}

/// Whether to write a fresh credentials file, given what the file holds
/// now: yes where there is no file or it is empty.
pub fn should_write(existing: &Option<String>) -> (write: bool)
    ensures
        write == !(existing matches Some(contents) && contents@.len() > 0),
{
    match existing {
        Some(contents) => contents.as_str().is_empty(),
        None => true,
    }
}

/// The contents of a fresh credentials file: every value empty.
pub fn empty_credentials() -> (file: CredentialsFile)
    ensures
        file.default.api_key@.len() == 0,
        file.default.api_key_secret@.len() == 0,
        file.default.access_token@.len() == 0,
        file.default.access_token_secret@.len() == 0,
{
    CredentialsFile {
        default: Credentials {
            api_key: String::new(),
            api_key_secret: String::new(),
            access_token: String::new(),
            access_token_secret: String::new(),
        },
    }
}

} // verus!
