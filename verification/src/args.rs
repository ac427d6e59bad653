//! The arguments of the command line, collected into named values,
//! positional values and flags.
//!
//! An argument that begins with `-` names an option. It is a flag when it
//! is the last argument or the next one begins with `-` too; otherwise the
//! next argument is its value. Everything else is positional. A name given
//! twice keeps what came last.

use vstd::prelude::*;
use vstd::string::*;
use crate::error::TwitterError;
use crate::text::same_text;

verus! {

/// The collected arguments.
#[derive(Debug)]
pub struct BaseArgs {
    named: Vec<(String, String)>,
    pub positional: Vec<String>,
    pub flags: Vec<(String, bool)>,
    is_debug: bool,
}

/// What a command line says.
pub ghost struct Parsed {
    pub named: Map<Seq<char>, Seq<char>>,
    pub positional: Seq<Seq<char>>,
    pub flags: Map<Seq<char>, bool>,
}

/// The map that a list of entries stands for: a later entry replaces an
/// earlier one with the same key.
pub open spec fn entry_map<V>(entries: Seq<(Seq<char>, V)>) -> Map<Seq<char>, V>
    decreases entries.len(),
{
    if entries.len() == 0 {
        Map::empty()
    } else {
        entry_map(entries.drop_last()).insert(entries.last().0, entries.last().1)
    }
}

/// The entries of the named values by their texts.
pub open spec fn named_entries(entries: Seq<(String, String)>) -> Seq<(Seq<char>, Seq<char>)> {
    Seq::new(entries.len(), |i: int| (entries[i].0@, entries[i].1@))
}

/// The entries of the flags by their texts.
pub open spec fn flag_entries(entries: Seq<(String, bool)>) -> Seq<(Seq<char>, bool)> {
    Seq::new(entries.len(), |i: int| (entries[i].0@, entries[i].1))
}

/// The texts of a list of strings.
pub open spec fn texts(items: Seq<String>) -> Seq<Seq<char>> {
    Seq::new(items.len(), |i: int| items[i]@)
}

/// Whether an argument names an option: it begins with `-`.
pub open spec fn is_option(arg: Seq<char>) -> bool {
    arg.len() > 0 && arg[0] == '-'
}

/// Whether an argument begins with `--`.
pub open spec fn starts_with_pair(arg: Seq<char>) -> bool {
    arg.len() >= 2 && arg[0] == '-' && arg[1] == '-'
}

/// An argument without every `--` that it begins with.
pub open spec fn without_pairs(arg: Seq<char>) -> Seq<char>
    decreases arg.len(),
{
    if starts_with_pair(arg) {
        without_pairs(arg.skip(2))
    } else {
        arg
    }
}

/// The name of the option that an argument names: the argument without its
/// leading `--` pairs, or without its single leading `-`.
pub open spec fn option_key(arg: Seq<char>) -> Seq<char> {
    if starts_with_pair(arg) {
        without_pairs(arg)
    } else {
        arg.skip(1)
    }
}

/// What the arguments from place `i` on add to what was collected so far.
pub open spec fn parse_from(args: Seq<Seq<char>>, i: int, sofar: Parsed) -> Parsed
    decreases args.len() - i,
{
    if i < 0 || i >= args.len() {
        sofar
    } else if is_option(args[i]) {
        if i + 1 >= args.len() || is_option(args[i + 1]) {
            parse_from(
                args,
                i + 1,
                Parsed { flags: sofar.flags.insert(option_key(args[i]), true), ..sofar },
            )
        } else {
            parse_from(
                args,
                i + 2,
                Parsed { named: sofar.named.insert(option_key(args[i]), args[i + 1]), ..sofar },
            )
        }
    } else {
        parse_from(args, i + 1, Parsed { positional: sofar.positional.push(args[i]), ..sofar })
    }
}

/// What a command line says. The first argument is the program's name and
/// is passed over.
pub open spec fn parsed(args: Seq<Seq<char>>) -> Parsed {
    parse_from(
        args,
        1,
        Parsed { named: Map::empty(), positional: Seq::empty(), flags: Map::empty() },
    )
}

/// The last entry with a given key decides what the map says of that key.
pub proof fn lemma_entry_map_found<V>(entries: Seq<(Seq<char>, V)>, key: Seq<char>, at: int)
    requires
        0 <= at < entries.len(),
        entries[at].0 == key,
        forall|k: int| at < k < entries.len() ==> (#[trigger] entries[k]).0 != key,
    ensures
        entry_map(entries).contains_key(key),
        entry_map(entries)[key] == entries[at].1,
    decreases entries.len(),
{
    if at < entries.len() - 1 {
        assert(entries[entries.len() - 1].0 != key);
        assert forall|k: int| at < k < entries.drop_last().len() implies (
        #[trigger] entries.drop_last()[k]).0 != key by {
            assert(entries.drop_last()[k] == entries[k]);
        }
        lemma_entry_map_found(entries.drop_last(), key, at);
    }
}

/// The map says nothing of a key that no entry has.
pub proof fn lemma_entry_map_absent<V>(entries: Seq<(Seq<char>, V)>, key: Seq<char>)
    requires
        forall|k: int| 0 <= k < entries.len() ==> (#[trigger] entries[k]).0 != key,
    ensures
        !entry_map(entries).contains_key(key),
    decreases entries.len(),
{
    if entries.len() > 0 {
        assert(entries[entries.len() - 1].0 != key);
        assert forall|k: int| 0 <= k < entries.drop_last().len() implies (
        #[trigger] entries.drop_last()[k]).0 != key by {
            assert(entries.drop_last()[k] == entries[k]);
        }
        lemma_entry_map_absent(entries.drop_last(), key);
    }
}

/// The value that a list of named values gives for a name.
fn find_named<'a>(entries: &'a Vec<(String, String)>, name: &str) -> (out: Option<&'a String>)
    ensures
        match out {
            Some(v) => entry_map(named_entries(entries@)).contains_key(name@) && entry_map(
                named_entries(entries@),
            )[name@] == v@,
            None => !entry_map(named_entries(entries@)).contains_key(name@),
        },
{
    let ghost all = named_entries(entries@);
    let mut i: usize = entries.len();
    while i > 0
        invariant
            i <= entries.len(),
            all == named_entries(entries@),
            forall|k: int| i <= k < all.len() ==> (#[trigger] all[k]).0 != name@,
        decreases i,
    {
        i = i - 1;
        if same_text(entries[i].0.as_str(), name) {
            proof {
                lemma_entry_map_found(all, name@, i as int);
            }
            return Some(&entries[i].1);
        }
    }
    proof {
        lemma_entry_map_absent(all, name@);
    }
    None
}

/// The value that a list of flags gives for a name.
fn find_flag(entries: &Vec<(String, bool)>, name: &str) -> (out: Option<bool>)
    ensures
        match out {
            Some(v) => entry_map(flag_entries(entries@)).contains_key(name@) && entry_map(
                flag_entries(entries@),
            )[name@] == v,
            None => !entry_map(flag_entries(entries@)).contains_key(name@),
        },
{
    let ghost all = flag_entries(entries@);
    let mut i: usize = entries.len();
    while i > 0
        invariant
            i <= entries.len(),
            all == flag_entries(entries@),
            forall|k: int| i <= k < all.len() ==> (#[trigger] all[k]).0 != name@,
        decreases i,
    {
        i = i - 1;
        if same_text(entries[i].0.as_str(), name) {
            proof {
                lemma_entry_map_found(all, name@, i as int);
            }
            return Some(entries[i].1);
        }
    }
    proof {
        lemma_entry_map_absent(all, name@);
    }
    None
}

/// Tells whether an argument names an option.
pub fn names_option(arg: &str) -> (r: bool)
    ensures
        r == is_option(arg@),
{
    arg.unicode_len() > 0 && arg.get_char(0) == '-'
}

/// The name of the option that an argument names.
pub fn option_name(arg: &str) -> (key: String)
    requires
        is_option(arg@),
    ensures
        key@ == option_key(arg@),
{
    let len = arg.unicode_len();
    if len >= 2 && arg.get_char(1) == '-' {
        let mut start: usize = 0;
        assert(arg@.skip(0) =~= arg@);
        while len - start >= 2 && arg.get_char(start) == '-' && arg.get_char(start + 1) == '-'
            invariant
                start <= len,
                len == arg@.len(),
                without_pairs(arg@) == without_pairs(arg@.skip(start as int)),
            decreases len - start,
        {
            assert(arg@.skip(start as int)[0] == arg@[start as int]);
            assert(arg@.skip(start as int)[1] == arg@[start + 1]);
            assert(arg@.skip(start as int).skip(2) =~= arg@.skip(start + 2));
            start = start + 2;
        }
        proof {
            let rest = arg@.skip(start as int);
            if rest.len() >= 2 {
                assert(rest[0] == arg@[start as int]);
                assert(rest[1] == arg@[start + 1]);
            }
            assert(!starts_with_pair(rest));
            assert(rest =~= arg@.subrange(start as int, len as int));
        }
        arg.substring_char(start, len).to_owned()
    } else {
        assert(arg@.skip(1) =~= arg@.subrange(1, len as int));
        arg.substring_char(1, len).to_owned()
    }
}

impl BaseArgs {
    /// What these arguments say.
    pub closed spec fn view(&self) -> Parsed {
        Parsed {
            named: entry_map(named_entries(self.named@)),
            positional: texts(self.positional@),
            flags: entry_map(flag_entries(self.flags@)),
        }
    }

    /// Whether these arguments ask for reports of what is done.
    pub closed spec fn debugging(&self) -> bool {
        self.is_debug
    }

    /// Whether the flags say `debug`.
    pub open spec fn says_debug(p: Parsed) -> bool {
        p.flags.contains_key("debug"@) && p.flags["debug"@]
    }

    /// Collects the arguments of a command line. The first argument is the
    /// program's name and is passed over.
    pub fn parse(args: &Vec<String>) -> (out: Result<Self, TwitterError>)
        ensures
            out matches Ok(collected) && collected@ == parsed(texts(args@))
                && collected.debugging() == Self::says_debug(parsed(texts(args@))),
    {
        let ghost all = texts(args@);
        let mut named: Vec<(String, String)> = Vec::new();
        let mut flags: Vec<(String, bool)> = Vec::new();
        let mut positional: Vec<String> = Vec::new();
        let mut i: usize = 1;
        assert(texts(positional@) =~= Seq::<Seq<char>>::empty());
        while i < args.len()
            invariant
                1 <= i,
                all == texts(args@),
                all.len() == args.len(),
                parsed(all) == parse_from(
                    all,
                    i as int,
                    Parsed {
                        named: entry_map(named_entries(named@)),
                        positional: texts(positional@),
                        flags: entry_map(flag_entries(flags@)),
                    },
                ),
            decreases args.len() - i,
        {
            let arg = args[i].as_str();
            assert(all[i as int] == arg@);
            if names_option(arg) {
                let key = option_name(arg);
                let mut is_flag = true;
                if i + 1 < args.len() {
                    assert(all[i + 1] == args@[i + 1]@);
                    is_flag = names_option(args[i + 1].as_str());
                }
                if is_flag {
                    let ghost before = flag_entries(flags@);
                    flags.push((key, true));
                    assert(flag_entries(flags@).drop_last() =~= before);
                    i = i + 1;
                } else {
                    let ghost before = named_entries(named@);
                    named.push((key, args[i + 1].clone()));
                    assert(named_entries(named@).drop_last() =~= before);
                    i = i + 2;
                }
            } else {
                let ghost before = texts(positional@);
                positional.push(args[i].clone());
                assert(texts(positional@) =~= before.push(all[i as int]));
                i = i + 1;
            }
        }
        let is_debug = match find_flag(&flags, "debug") {
            Some(value) => value,
            None => false,
        };
        Ok(BaseArgs { named, positional, flags, is_debug })
    }

    /// The value of an option by its long or its short name, or the default
    /// where it was not given. The long name goes first.
    pub fn get(&self, long_name: &str, short_name: &str, default: String) -> (value: String)
        ensures
            value@ == (if self@.named.contains_key(long_name@) {
                self@.named[long_name@]
            } else if self@.named.contains_key(short_name@) {
                self@.named[short_name@]
            } else {
                default@
            }),
    {
        match find_named(&self.named, long_name) {
            Some(value) => value.clone(),
            None => match find_named(&self.named, short_name) {
                Some(value) => value.clone(),
                None => default,
            },
        }
    }

    /// The value of an option by its long or its short name, if it was given.
    pub fn get_option(&self, long_name: &str, short_name: &str) -> (value: Option<String>)
        ensures
            match value {
                Some(v) => v@ == (if self@.named.contains_key(long_name@) {
                    self@.named[long_name@]
                } else {
                    self@.named[short_name@]
                }),
                None => true,
            },
            value is Some <==> self@.named.contains_key(long_name@) || self@.named.contains_key(
                short_name@,
            ),
    {
        match find_named(&self.named, long_name) {
            Some(value) => Some(value.clone()),
            None => match find_named(&self.named, short_name) {
                Some(value) => Some(value.clone()),
                None => None,
            },
        }
    }

    /// The positional argument at a place, counted from 0.
    pub fn get_position(&self, position: usize) -> (value: Option<String>)
        ensures
            value is Some <==> position < self@.positional.len(),
            value matches Some(v) ==> v@ == self@.positional[position as int],
    {
        if position < self.positional.len() {
            Some(self.positional[position].clone())
        } else {
            None
        }
    }

    /// How many positional arguments there are.
    pub fn positional_count(&self) -> (count: usize)
        ensures
            count == self@.positional.len(),
    {
        self.positional.len()
    }

    /// Whether a flag was given, by its long or its short name.
    pub fn get_flag(&self, long_name: &str, short_name: &str) -> (value: bool)
        ensures
            value == (if self@.flags.contains_key(long_name@) {
                self@.flags[long_name@]
            } else if self@.flags.contains_key(short_name@) {
                self@.flags[short_name@]
            } else {
                false
            }),
    {
        match find_flag(&self.flags, long_name) {
            Some(value) => value,
            None => match find_flag(&self.flags, short_name) {
                Some(value) => value,
                None => false,
            },
        }
    }

    /// Whether what was collected asks for help.
    pub open spec fn asks_for_help(p: Parsed) -> bool {
        ||| p.positional.len() > 0 && (p.positional.last() == "help"@ || p.positional.last()
            == "h"@)
        ||| p.flags.contains_key("help"@)
        ||| p.flags.contains_key("h"@)
        ||| p.named.contains_key("help"@)
        ||| p.named.contains_key("h"@)
    }

    /// Whether the arguments ask for help: the last positional argument is
    /// `help` or `h`, or an option of that name was given.
    pub fn is_requesting_help(&self) -> (help: bool)
        ensures
            help == Self::asks_for_help(self@),
    {
        let count = self.positional.len();
        let last_is_help = if count > 0 {
            let last = self.positional[count - 1].as_str();
            assert(self@.positional.last() == last@);
            same_text(last, "help") || same_text(last, "h")
        } else {
            false
        };
        last_is_help || find_flag(&self.flags, "help").is_some() || find_flag(
            &self.flags,
            "h",
        ).is_some() || find_named(&self.named, "help").is_some() || find_named(
            &self.named,
            "h",
        ).is_some()
    }

    /// Whether these arguments ask for reports of what is done.
    pub fn is_debug(&self) -> (debug: bool)
        ensures
            debug == self.debugging(),
    {
        self.is_debug
    }
}

} // verus!
