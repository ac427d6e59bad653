//! The commands of the command line: which one the arguments name, what
//! each one needs from them, and what it asks to be done.
//!
//! Nothing here reads a file or sends a request. A command's `execute`
//! says whether to show its help or to run it, and with what.

use vstd::prelude::*;
use vstd::string::*;
use crate::args::{BaseArgs, Parsed};
use crate::text::same_text;

pub mod delete;
pub mod feed;
pub mod home;
pub mod init;
pub mod like;
pub mod me;
pub mod post;

verus! {

/// The commands.
#[derive(Debug, PartialEq, Eq, Clone, Copy)]
pub enum Command {
    Help,
    Version,
    Me,
    Tweet,
    Delete,
    Feed,
    Home,
    Init,
    Like,
    Unlike,
}

/// What to tell the user about the choice of command.
#[derive(Debug, PartialEq, Eq)]
pub enum Notice {
    /// Nothing.
    Silent,
    /// The first positional argument names no command; the argument.
    UnknownCommand(String),
    /// No command was given and no help was asked for.
    NoCommand,
}

/// What a command asks to be done: show its help, or run with what it
/// read from the arguments.
#[derive(Debug, PartialEq, Eq)]
pub enum Step<A> {
    Help,
    Run(A),
}

/// The command that a word names, if it names one.
pub open spec fn named_command(word: Seq<char>) -> Option<Command> {
    if word == "post"@ || word == "p"@ || word == "tweet"@ {
        Some(Command::Tweet)
    } else if word == "delete"@ {
        Some(Command::Delete)
    } else if word == "like"@ {
        Some(Command::Like)
    } else if word == "unlike"@ {
        Some(Command::Unlike)
    } else if word == "feed"@ {
        Some(Command::Feed)
    } else if word == "home"@ {
        Some(Command::Home)
    } else if word == "me"@ {
        Some(Command::Me)
    } else if word == "init"@ {
        Some(Command::Init)
    } else if word == "help"@ {
        Some(Command::Help)
    } else if word == "version"@ {
        Some(Command::Version)
    } else {
        None
    }
}

/// Whether the flags ask for the version.
pub open spec fn asks_for_version(p: Parsed) -> bool {
    if p.flags.contains_key("version"@) {
        p.flags["version"@]
    } else if p.flags.contains_key("v"@) {
        p.flags["v"@]
    } else {
        false
    }
}

/// The command that the arguments select: the one that the first
/// positional argument names, help where it names none; without a
/// positional argument the version where a flag asks for it, else help.
pub open spec fn selected(p: Parsed) -> Command {
    if p.positional.len() > 0 {
        match named_command(p.positional[0]) {
            Some(c) => c,
            None => Command::Help,
        }
    } else if asks_for_version(p) {
        Command::Version
    } else {
        Command::Help
    }
}

/// Whether a notice is the one owed for the arguments.
pub open spec fn notice_for(n: Notice, p: Parsed) -> bool {
    if p.positional.len() > 0 {
        match named_command(p.positional[0]) {
            Some(_) => n == Notice::Silent,
            None => n matches Notice::UnknownCommand(word) && word@ == p.positional[0],
        }
    } else if asks_for_version(p) || BaseArgs::asks_for_help(p) {
        n == Notice::Silent
    } else {
        n == Notice::NoCommand
    }
}

/// The command that a word names.
pub fn command_named(word: &str) -> (out: Option<Command>)
    ensures
        out == named_command(word@),
{
    if same_text(word, "post") || same_text(word, "p") || same_text(word, "tweet") {
        Some(Command::Tweet)
    } else if same_text(word, "delete") {
        Some(Command::Delete)
    } else if same_text(word, "like") {
        Some(Command::Like)
    } else if same_text(word, "unlike") {
        Some(Command::Unlike)
    } else if same_text(word, "feed") {
        Some(Command::Feed)
    } else if same_text(word, "home") {
        Some(Command::Home)
    } else if same_text(word, "me") {
        Some(Command::Me)
    } else if same_text(word, "init") {
        Some(Command::Init)
    } else if same_text(word, "help") {
        Some(Command::Help)
    } else if same_text(word, "version") {
        Some(Command::Version)
    } else {
        None
    }
}

/// The command that the arguments select, and what to tell the user about
/// the choice.
pub fn command(args: &BaseArgs) -> (out: (Command, Notice))
    ensures
        out.0 == selected(args@),
        notice_for(out.1, args@),
{
    match args.get_position(0) {
        Some(word) => match command_named(word.as_str()) {
            Some(c) => (c, Notice::Silent),
            None => (Command::Help, Notice::UnknownCommand(word)),
        },
        None => {
            if args.get_flag("version", "v") {
                (Command::Version, Notice::Silent)
            } else if args.is_requesting_help() {
                (Command::Help, Notice::Silent)
            } else {
                (Command::Help, Notice::NoCommand)
            }
        },
    }
}

/// Whether a byte is an ASCII digit.
pub open spec fn is_digit(b: u8) -> bool {
    0x30 <= b <= 0x39
}

/// Whether a byte string is one or more ASCII digits.
pub open spec fn all_digits(s: Seq<u8>) -> bool {
    s.len() > 0 && forall|i: int| 0 <= i < s.len() ==> is_digit(#[trigger] s[i])
}

/// The number that a string of digits writes in decimal.
pub open spec fn digits_value(s: Seq<u8>) -> nat
    decreases s.len(),
{
    if s.len() == 0 {
        0
    } else {
        digits_value(s.drop_last()) * 10 + (s.last() - 0x30) as nat
    }
}

/// The 32-bit count that a text writes: an optional `+` or `-` and then
/// digits; `None` where the text is anything else or the number does not fit.
pub open spec fn count_value(s: Seq<u8>) -> Option<int> {
    if s.len() > 0 && s[0] == 0x2d {
        if all_digits(s.skip(1)) && digits_value(s.skip(1)) <= 0x8000_0000 {
            Some(-(digits_value(s.skip(1)) as int))
        } else {
            None
        }
    } else {
        let digits = if s.len() > 0 && s[0] == 0x2b {
            s.skip(1)
        } else {
            s
        };
        if all_digits(digits) && digits_value(digits) <= 0x7fff_ffff {
            Some(digits_value(digits) as int)
        } else {
            None
        }
    }
}

/// The digits read so far never write more than all the digits do.
pub proof fn lemma_digits_value_grows(s: Seq<u8>, k: int)
    requires
        0 <= k <= s.len(),
        all_digits(s),
    ensures
        digits_value(s.take(k)) <= digits_value(s),
    decreases s.len(),
{
    if k == s.len() {
        assert(s.take(k) =~= s);
    } else {
        let front = s.drop_last();
        assert(front.take(k) =~= s.take(k));
        if front.len() > 0 {
            assert forall|i: int| 0 <= i < front.len() implies is_digit(#[trigger] front[i]) by {
                assert(front[i] == s[i]);
            }
            lemma_digits_value_grows(front, k);
        } else {
            assert(s.take(k) =~= front);
        }
    }
}

/// Reads a 32-bit count from a text.
pub fn parse_count(text: &str) -> (out: Option<i32>)
    ensures
        match out {
            Some(n) => count_value(text.spec_bytes()) == Some(n as int),
            None => count_value(text.spec_bytes()) is None,
        },
{
    let bytes = text.as_bytes();
    let length = bytes.len();
    let negative = length > 0 && bytes[0] == 0x2d;
    let start: usize = if length > 0 && (bytes[0] == 0x2d || bytes[0] == 0x2b) {
        1
    } else {
        0
    };
    let limit: u64 = if negative {
        0x8000_0000
    } else {
        0x7fff_ffff
    };
    let ghost digits = bytes@.skip(start as int);
    assert(start == 0 ==> digits =~= bytes@);
    assert(bytes@ == text.spec_bytes());
    if start >= length {
        assert(digits.len() == 0);
        return None;
    }
    let mut value: u64 = 0;
    let mut i: usize = start;
    assert(digits.take(0) =~= Seq::<u8>::empty());
    while i < length
        invariant
            start <= i <= length,
            length == bytes@.len(),
            bytes@ == text.spec_bytes(),
            negative == (length > 0 && bytes@[0] == 0x2d),
            start == (if length > 0 && (bytes@[0] == 0x2d || bytes@[0] == 0x2b) {
                1int
            } else {
                0int
            }),
            limit == (if negative {
                0x8000_0000int
            } else {
                0x7fff_ffffint
            }),
            start == 0 ==> digits == bytes@,
            digits == bytes@.skip(start as int),
            forall|k: int| 0 <= k < i - start ==> is_digit(#[trigger] digits[k]),
            value == digits_value(digits.take(i - start)),
            value <= limit,
            limit <= 0x8000_0000,
        decreases length - i,
    {
        let b: u8 = bytes[i];
        assert(digits[i - start] == b);
        if b < 0x30 || b > 0x39 {
            assert(!is_digit(digits[i - start]));
            return None;
        }
        assert(digits.take(i + 1 - start).drop_last() =~= digits.take(i - start));
        assert(digits.take(i + 1 - start).last() == b);
        value = value * 10 + (b - 0x30) as u64;
        i = i + 1;
        if value > limit {
            proof {
                if all_digits(digits) {
                    lemma_digits_value_grows(digits, i - start);
                }
            }
            return None;
        }
    }
    assert(digits.take(i - start) =~= digits);
    if negative {
        Some((-(value as i64)) as i32)
    } else {
        Some(value as i32)
    }
}

} // verus!
