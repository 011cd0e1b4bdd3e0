//! Bot commands as they are written in a chat.
//!
//! A command is the first word of a message: everything before the first
//! space. The word may name the bot it is meant for after an `@`, as in
//! `/start@some_bot`; a command that names another bot is not for this one.
//! What follows the first word is the command's arguments, which the
//! commands of this crate do not look at.

use vstd::prelude::*;
use crate::chars::{chars_of, find, find_from};

verus! {

/// The commands that open a conversation.
#[derive(Debug, PartialEq, Eq, Clone, Copy)]
pub enum StartCommand {
    /// `/start`
    Start,
}

/// Why a text is not a command of this bot.
#[derive(Debug, PartialEq, Eq, Clone, Copy)]
pub enum ParseError {
    /// The command names a bot, and it is not this one.
    WrongBotName,
    /// The first word is none of the known commands.
    UnknownCommand,
}

/// How the start command is written.
pub const START: &'static str = "/start";

/// The first word of `s`: what stands before its first space.
pub open spec fn first_word(s: Seq<char>) -> Seq<char> {
    s.take(find_from(s, ' ', 0))
}

/// The command in the word `word`: what stands before its first `@`.
pub open spec fn command_name(word: Seq<char>) -> Seq<char> {
    word.take(find_from(word, '@', 0))
}

/// The bot that the word `word` names: what stands between its first `@` and
/// its second one, or its end; `None` where the word holds no `@`.
pub open spec fn mentioned_bot(word: Seq<char>) -> Option<Seq<char>> {
    let at = find_from(word, '@', 0);
    if at < word.len() {
        Some(word.subrange(at + 1, find_from(word, '@', at + 1)))
    } else {
        None
    }
}

/// `c`, in lower case if it is one of `A` to `Z`.
pub open spec fn ascii_lower(c: char) -> char {
    if 'A' <= c <= 'Z' {
        ((c as u8) + 32u8) as char
    } else {
        c
    }
}

/// Whether `a` and `b` are the same text, taking `A` to `Z` for `a` to `z`.
pub open spec fn same_ignoring_ascii_case(a: Seq<char>, b: Seq<char>) -> bool {
    &&& a.len() == b.len()
    &&& forall|i: int| 0 <= i < a.len() ==> ascii_lower(#[trigger] a[i]) == ascii_lower(b[i])
}

/// What the text `s` says to the bot called `bot_name`.
pub open spec fn parse_start_command(s: Seq<char>, bot_name: Seq<char>) -> Result<
    StartCommand,
    ParseError,
> {
    let word = first_word(s);
    if mentioned_bot(word) is Some && !same_ignoring_ascii_case(mentioned_bot(word)->0, bot_name) {
        Err(ParseError::WrongBotName)
    } else if command_name(word) == START@ {
        Ok(StartCommand::Start)
    } else {
        Err(ParseError::UnknownCommand)
    }
}

/// `c`, in lower case if it is one of `A` to `Z`.
fn lower(c: char) -> (r: char)
    ensures
        r == ascii_lower(c),
{
    if 'A' <= c && c <= 'Z' {
        ((c as u8) + 32u8) as char
    } else {
        c
    }
}

/// Whether `v[from..to]` is the text `w`.
fn range_is(v: &Vec<char>, from: usize, to: usize, w: &Vec<char>) -> (r: bool)
    requires
        from <= to <= v.len(),
    ensures
        r == (v@.subrange(from as int, to as int) == w@),
{
    let ghost part = v@.subrange(from as int, to as int);
    if to - from != w.len() {
        return false;
    }
    let mut i: usize = 0;
    while i < w.len()
        invariant
            from <= to <= v.len(),
            to - from == w.len(),
            part == v@.subrange(from as int, to as int),
            i <= w.len(),
            forall|j: int| 0 <= j < i ==> part[j] == w@[j],
        decreases w.len() - i,
    {
        if v[from + i] != w[i] {
            assert(part[i as int] != w@[i as int]);
            return false;
        }
        i += 1;
    }
    assert(part =~= w@);
    true
}

/// Whether `v[from..to]` is the text `w`, taking `A` to `Z` for `a` to `z`.
fn range_is_ignoring_case(v: &Vec<char>, from: usize, to: usize, w: &Vec<char>) -> (r: bool)
    requires
        from <= to <= v.len(),
    ensures
        r == same_ignoring_ascii_case(v@.subrange(from as int, to as int), w@),
{
    let ghost part = v@.subrange(from as int, to as int);
    if to - from != w.len() {
        return false;
    }
    let mut i: usize = 0;
    while i < w.len()
        invariant
            from <= to <= v.len(),
            to - from == w.len(),
            part == v@.subrange(from as int, to as int),
            i <= w.len(),
            forall|j: int| 0 <= j < i ==> ascii_lower(#[trigger] part[j]) == ascii_lower(w@[j]),
        decreases w.len() - i,
    {
        if lower(v[from + i]) != lower(w[i]) {
            assert(ascii_lower(part[i as int]) != ascii_lower(w@[i as int]));
            return false;
        }
        i += 1;
    }
    true
}

impl StartCommand {
    /// Reads the text `s` of a message as a command to the bot called
    /// `bot_name`.
    pub fn parse(s: &str, bot_name: &str) -> (r: Result<StartCommand, ParseError>)
        ensures
            r == parse_start_command(s@, bot_name@),
    {
        let v = chars_of(s);
        let end = find(&v, ' ', 0, v.len());
        assert(v@.take(v.len() as int) == v@);
        let ghost word = first_word(s@);
        assert(word == v@.take(end as int));
        let at = find(&v, '@', 0, end);
        if at < end {
            let close = find(&v, '@', at + 1, end);
            assert(word.subrange(at + 1, close as int) == v@.subrange(at + 1, close as int));
            let name = chars_of(bot_name);
            if !range_is_ignoring_case(&v, at + 1, close, &name) {
                return Err(ParseError::WrongBotName);
            }
        }
        assert(command_name(word) == v@.subrange(0, at as int));
        let start = chars_of(START);
        if range_is(&v, 0, at, &start) {
            Ok(StartCommand::Start)
        } else {
            Err(ParseError::UnknownCommand)
        }
    }
}

} // verus!
