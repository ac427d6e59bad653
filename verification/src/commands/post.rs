//! The command that posts a message, or a thread of messages.
//!
//! In a thread every message after the first replies to the post before
//! it, so each request waits for the answer to the one before.

use vstd::prelude::*;
use vstd::string::*;
use crate::args::{BaseArgs, Parsed, texts};
use crate::commands::Step;
use crate::commands::delete::is_missing;
use crate::error::TwitterError;
use crate::response::optional_view;

verus! {

pub const HELP: &'static str = "Post a tweet!\n
Usage: tw post message [...replies] [OPTIONS]

Including replies will post a thread

Options:
    -r, --reply-id <id>
        The ID of the tweet to reply to.
    -p, --profile <name>
        The name of the profile to use.
        Must correspond to an entry in your credentials file (~/.twitter_credentials.toml by default).
    -c, --credentials <name>
        The file name or path to use for the credentials file.
        Default: ~/.twitter_credentials.toml
    --debug
        Print debug messages.

Examples:
    Post a single tweet:
        tw post \"I'll tell you what's up\"
    Reply to an somebody's tweet:
        tw post \"Emojis work too\" --reply-id 12345
    Post a thread:
        tw post \"I took out my wool sweater today and it made me want to THREAD\" \"#sweaterweather\" \"#unnecessarythreading\"
    Post with an alt account:
        tw post \"Hey y'all @ericydauenhauer is real\" --profile alt1
";

/// What the command needs: the messages, and the post that the first one
/// replies to where there is one.
#[derive(Debug, PartialEq, Eq)]
pub struct Args {
    pub messages: Vec<String>,
    pub in_reply_to_tweet_id: Option<String>,
}

/// The messages that the arguments give: the positional arguments after
/// the first.
pub open spec fn wanted_messages(p: Parsed) -> Seq<Seq<char>> {
    if p.positional.len() > 1 {
        p.positional.skip(1)
    } else {
        Seq::empty()
    }
}

/// The post to reply to that the arguments give: the value of `reply-id`
/// or of `r`.
pub open spec fn wanted_reply(p: Parsed) -> Option<Seq<char>> {
    if p.named.contains_key("reply-id"@) {
        Some(p.named["reply-id"@])
    } else if p.named.contains_key("r"@) {
        Some(p.named["r"@])
    } else {
        None
    }
}

/// Reads what the command needs from the arguments.
pub fn parse(args: &BaseArgs) -> (out: Result<Args, TwitterError>)
    ensures
        match out {
            Ok(a) => wanted_messages(args@).len() > 0 && texts(a.messages@) == wanted_messages(
                args@,
            ) && optional_view(a.in_reply_to_tweet_id) == wanted_reply(args@),
            Err(e) => wanted_messages(args@).len() == 0 && is_missing(e, "message"@),
        },
{
    let count = args.positional_count();
    let mut messages: Vec<String> = Vec::new();
    let mut i: usize = 1;
    while i < count
        invariant
            1 <= i,
            count == args@.positional.len(),
            i <= count || i == 1,
            messages@.len() == i - 1,
            forall|k: int|
                0 <= k < messages@.len() ==> (#[trigger] messages@[k])@ == args@.positional[k + 1],
        decreases count - i,
    {
        match args.get_position(i) {
            Some(message) => {
                messages.push(message);
            },
            None => {},
        }
        i = i + 1;
    }
    if messages.len() == 0 {
        return Err(TwitterError::MissingArgument("message".to_owned()));
    }
    let in_reply_to_tweet_id = args.get_option("reply-id", "r");
    assert(texts(messages@) =~= wanted_messages(args@));
    Ok(Args { messages, in_reply_to_tweet_id })
}

/// Shows the help where it is asked for; else reads the messages.
pub fn execute(base_args: &BaseArgs) -> (out: Result<Step<Args>, TwitterError>)
    ensures
        BaseArgs::asks_for_help(base_args@) ==> out == Ok::<Step<Args>, TwitterError>(Step::Help),
        !BaseArgs::asks_for_help(base_args@) ==> match out {
            Ok(Step::Run(a)) => wanted_messages(base_args@).len() > 0 && texts(a.messages@)
                == wanted_messages(base_args@) && optional_view(a.in_reply_to_tweet_id)
                == wanted_reply(base_args@),
            Ok(Step::Help) => false,
            Err(e) => wanted_messages(base_args@).len() == 0 && is_missing(e, "message"@),
        },
{
    if base_args.is_requesting_help() {
        return Ok(Step::Help);
    }
    match parse(base_args) {
        Ok(a) => Ok(Step::Run(a)),
        Err(e) => Err(e),
    }
}

/// A thread while it is posted: the messages, how many of them are
/// posted, the post that the next one replies to, and the first post.
#[derive(Debug, PartialEq, Eq)]
pub struct Thread {
    pub messages: Vec<String>,
    pub sent: usize,
    pub reply_to: Option<String>,
    pub first_id: Option<String>,
}

impl Thread {
    /// The thread of a command's messages, with nothing posted yet.
    pub fn new(args: Args) -> (thread: Thread)
        ensures
            thread.messages == args.messages,
            thread.sent == 0,
            thread.reply_to == args.in_reply_to_tweet_id,
            thread.first_id is None,
    {
        Thread {
            messages: args.messages,
            sent: 0,
            reply_to: args.in_reply_to_tweet_id,
            first_id: None,
        }
    }

    /// The message to post next and the post that it replies to; `None`
    /// once every message is posted.
    pub fn next(&self) -> (out: Option<(&String, &Option<String>)>)
        ensures
            match out {
                Some((message, reply_to)) => self.sent < self.messages@.len() && *message
                    == self.messages@[self.sent as int] && *reply_to == self.reply_to,
                None => self.sent >= self.messages@.len(),
            },
    {
        if self.sent < self.messages.len() {
            Some((&self.messages[self.sent], &self.reply_to))
        } else {
            None
        }
    }

    /// Records the id of the post that the server made of the next message:
    /// the following message replies to it. Does nothing once every
    /// message is posted.
    pub fn posted(&mut self, id: String)
        ensures
            final(self).messages == old(self).messages,
            old(self).sent < old(self).messages@.len() ==> final(self).sent == old(self).sent + 1
                && final(self).reply_to == Some(id) && (if old(self).sent == 0 {
                final(self).first_id == Some(id)
            } else {
                final(self).first_id == old(self).first_id
            }),
            old(self).sent >= old(self).messages@.len() ==> *final(self) == *old(self),
    {
        if self.sent < self.messages.len() {
            if self.sent == 0 {
                self.first_id = Some(id.clone());
            }
            self.reply_to = Some(id);
            self.sent = self.sent + 1;
        }
    }

    /// Whether every message is posted.
    pub fn is_done(&self) -> (done: bool)
        ensures
            done == (self.sent >= self.messages@.len()),
    {
        self.sent >= self.messages.len()
    }

    /// The first post of the thread, once a thread of more than one
    /// message is posted.
    pub fn summary(&self) -> (out: Option<&String>)
        ensures
            match out {
                Some(id) => self.messages@.len() > 1 && self.sent >= self.messages@.len()
                    && self.first_id == Some(*id),
                None => !(self.messages@.len() > 1 && self.sent >= self.messages@.len()
                    && self.first_id is Some),
            },
    {
        if self.messages.len() > 1 && self.sent >= self.messages.len() {
            match &self.first_id {
                Some(id) => Some(id),
                None => None,
            }
        } else {
            None
        }
    }
}

} // verus!
