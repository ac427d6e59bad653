//! The command that shows one's own user.

use vstd::prelude::*;
use crate::args::BaseArgs;
use crate::commands::Step;
use crate::error::TwitterError;

verus! {

pub const HELP: &'static str = "Get some details about yourself!\n
Usage: tw me [OPTIONS]

Options:
    -p, --profile <name>
        The name of the profile to use.
        Must correspond to an entry in your credentials file (~/.twitter_credentials.toml by default).
    -c, --credentials <name>
        The file name or path to use for the credentials file.
        Default: ~/.twitter_credentials.toml
    --debug
        Print debug messages.

Examples:
    Get your user summary:
        tw me
    Get user summary from your alt home:
        tw me -p alt1
";

/// Shows the help where it is asked for; else runs, and needs nothing
/// from the arguments.
pub fn execute(base_args: &BaseArgs) -> (out: Result<Step<()>, TwitterError>)
    ensures
        BaseArgs::asks_for_help(base_args@) ==> out == Ok::<Step<()>, TwitterError>(Step::Help),
        !BaseArgs::asks_for_help(base_args@) ==> out == Ok::<Step<()>, TwitterError>(
            Step::Run(()),
        ),
{
    if base_args.is_requesting_help() {
        Ok(Step::Help)
    } else {
        Ok(Step::Run(()))
    }
}

} // verus!
