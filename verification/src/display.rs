//! How results are written out for the console. Each `display` gives the
//! whole text, line by line; nothing is printed here.

use vstd::prelude::*;
use vstd::string::*;
use crate::response::{TwitterFeedItem, TwitterHomeItem, TwitterUser};
use crate::text::{ascii_chars, decimal_digits, decimal_string, decimal_text, unsigned_string};

verus! {

/// The decimal numeral of a count, as a text.
pub open spec fn count_text(n: int) -> Seq<char> {
    ascii_chars(decimal_text(n))
}

/// The mark that follows a count which the user has added to.
pub open spec fn mark(set: bool) -> Seq<char> {
    if set {
        "✅"@
    } else {
        Seq::empty()
    }
}

fn mark_of(set: bool) -> (out: &'static str)
    ensures
        out@ == mark(set),
{
    if set {
        "✅"
    } else {
        proof {
            reveal_strlit("");
        }
        ""
    }
}

impl TwitterFeedItem {
    /// The line that names the author of the repeated post, if the item
    /// repeats one.
    pub open spec fn retweet_line(self) -> Seq<char> {
        match self.retweeted_status {
            Some(status) => "Retweeted from: "@ + status.user.name@ + ", @"@
                + status.user.screen_name@ + "\n"@,
            None => Seq::empty(),
        }
    }

    /// The line that names what the item replies to, if it replies.
    pub open spec fn reply_line(self) -> Seq<char> {
        match self.in_reply_to_screen_name {
            Some(name) => "Replied to: "@ + name@ + " - https://twitter.com/"@ + name@
                + "/status/"@ + (match self.in_reply_to_status_id_str {
                Some(id) => id@,
                None => Seq::empty(),
            }) + "\n"@,
            None => Seq::empty(),
        }
    }

    /// The text that is shown: that of the repeated post where there is one.
    pub open spec fn shown_text(self) -> Seq<char> {
        match self.retweeted_status {
            Some(status) => status.text@,
            None => self.text@,
        }
    }

    /// The item as it is written out.
    pub open spec fn display_text(self) -> Seq<char> {
        "---------------------------------\n\n"@ + self.user.name@ + ", @"@
            + self.user.screen_name@ + "\n"@ + self.retweet_line() + self.reply_line() + "\n"@
            + self.shown_text() + "\n\n"@ + count_text(self.retweet_count as int) + mark(
            self.retweeted,
        ) + " Retweets      "@ + count_text(self.favorite_count as int) + mark(self.favorited)
            + " Likes\n"@ + "https://twitter.com/"@ + self.user.screen_name@ + "/status/"@
            + self.id_str@ + "\n"@ + self.created_at@ + "\n\n"@
    }

    /// Writes the item out.
    pub fn display(&self) -> (out: String)
        ensures
            out@ == self.display_text(),
    {
        let mut out = "---------------------------------\n\n".to_owned();
        out.append(self.user.name.as_str());
        out.append(", @");
        out.append(self.user.screen_name.as_str());
        out.append("\n");
        match &self.retweeted_status {
            Some(status) => {
                let ghost before = out@;
                out.append("Retweeted from: ");
                out.append(status.user.name.as_str());
                out.append(", @");
                out.append(status.user.screen_name.as_str());
                out.append("\n");
                assert(out@ =~= before + self.retweet_line());
            },
            None => {
                assert(out@ =~= out@ + self.retweet_line());
            },
        }
        match &self.in_reply_to_screen_name {
            Some(name) => {
                let ghost before = out@;
                out.append("Replied to: ");
                out.append(name.as_str());
                out.append(" - https://twitter.com/");
                out.append(name.as_str());
                out.append("/status/");
                match &self.in_reply_to_status_id_str {
                    Some(id) => {
                        out.append(id.as_str());
                    },
                    None => {
                        assert(out@ =~= out@ + Seq::<char>::empty());
                    },
                }
                out.append("\n");
                assert(out@ =~= before + self.reply_line());
            },
            None => {
                assert(out@ =~= out@ + self.reply_line());
            },
        }
        out.append("\n");
        match &self.retweeted_status {
            Some(status) => {
                out.append(status.text.as_str());
            },
            None => {
                out.append(self.text.as_str());
            },
        }
        out.append("\n\n");
        out.append(decimal_string(self.retweet_count).as_str());
        out.append(mark_of(self.retweeted));
        out.append(" Retweets      ");
        out.append(decimal_string(self.favorite_count).as_str());
        out.append(mark_of(self.favorited));
        out.append(" Likes\n");
        out.append("https://twitter.com/");
        out.append(self.user.screen_name.as_str());
        out.append("/status/");
        out.append(self.id_str.as_str());
        out.append("\n");
        out.append(self.created_at.as_str());
        out.append("\n\n");
        assert(out@ =~= self.display_text());
        out
    }
}

impl TwitterHomeItem {
    /// The item as it is written out.
    pub open spec fn display_text(self) -> Seq<char> {
        "---------------------------------\n\n"@ + self.text@ + "\n\n"@ + ascii_chars(
            decimal_digits(self.public_metrics.reply_count as nat),
        ) + " Replies      "@ + ascii_chars(
            decimal_digits(self.public_metrics.retweet_count as nat),
        ) + " Retweets      "@ + ascii_chars(
            decimal_digits(self.public_metrics.quote_count as nat),
        ) + " Quotes      "@ + ascii_chars(decimal_digits(self.public_metrics.like_count as nat))
            + " Likes\n\n"@ + "https://twitter.com/"@ + self.author_id@ + "/status/"@ + self.id@
            + "\n"@ + self.created_at@ + "\n\n"@
    }

    /// Writes the item out.
    pub fn display(&self) -> (out: String)
        ensures
            out@ == self.display_text(),
    {
        let mut out = "---------------------------------\n\n".to_owned();
        out.append(self.text.as_str());
        out.append("\n\n");
        out.append(unsigned_string(self.public_metrics.reply_count as u64).as_str());
        out.append(" Replies      ");
        out.append(unsigned_string(self.public_metrics.retweet_count as u64).as_str());
        out.append(" Retweets      ");
        out.append(unsigned_string(self.public_metrics.quote_count as u64).as_str());
        out.append(" Quotes      ");
        out.append(unsigned_string(self.public_metrics.like_count as u64).as_str());
        out.append(" Likes\n\n");
        out.append("https://twitter.com/");
        out.append(self.author_id.as_str());
        out.append("/status/");
        out.append(self.id.as_str());
        out.append("\n");
        out.append(self.created_at.as_str());
        out.append("\n\n");
        assert(out@ =~= self.display_text());
        out
    }
}

impl TwitterUser {
    /// The line that links the pinned post, if the user has one.
    pub open spec fn pinned_line(self) -> Seq<char> {
        match self.pinned_tweet_id {
            Some(id) => "   Pinned tweet: https://twitter.com/"@ + self.username@ + "/status/"@
                + id@ + "\n"@,
            None => Seq::empty(),
        }
    }

    /// The user as it is written out.
    pub open spec fn display_text(self) -> Seq<char> {
        "             ID: "@ + self.id@ + "\n"@ + "       Username: "@ + self.username@ + "\n"@
            + "   Display name: "@ + self.name@ + "\n"@ + "Account created: "@ + self.created_at@
            + "\n"@ + self.pinned_line()
    }

    /// Writes the user out.
    pub fn display(&self) -> (out: String)
        ensures
            out@ == self.display_text(),
    {
        let mut out = "             ID: ".to_owned();
        out.append(self.id.as_str());
        out.append("\n");
        out.append("       Username: ");
        out.append(self.username.as_str());
        out.append("\n");
        out.append("   Display name: ");
        out.append(self.name.as_str());
        out.append("\n");
        out.append("Account created: ");
        out.append(self.created_at.as_str());
        out.append("\n");
        match &self.pinned_tweet_id {
            Some(id) => {
                let ghost before = out@;
                out.append("   Pinned tweet: https://twitter.com/");
                out.append(self.username.as_str());
                out.append("/status/");
                out.append(id.as_str());
                out.append("\n");
                assert(out@ =~= before + self.pinned_line());
            },
            None => {
                assert(out@ =~= out@ + self.pinned_line());
            },
        }
        assert(out@ =~= self.display_text());
        out
    }
}

} // verus!
