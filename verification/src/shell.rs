//! The reading of a shell line: which command its words name.

use vstd::prelude::*;
use vstd::string::{StrSliceExecFns, StringExecFns};

verus! {

/// What a line of the shell asks for.
#[derive(Clone, Debug, PartialEq, Eq)]
pub enum ShellCommand {
    /// `reset`
    Reset,
    /// `load <path>`
    Load(String),
    /// `log`
    Log,
    /// `dump <path>`
    Dump(String),
    /// `break 0x<address>`
    Break(u16),
    /// `break` with a word that is no address.
    BadAddress,
    /// Anything else.
    Unknown,
}

/// What a line of the shell asks for, as plain values.
pub enum ShellModel {
    Reset,
    Load(Seq<char>),
    Log,
    Dump(Seq<char>),
    Break(u16),
    BadAddress,
    Unknown,
}

impl View for ShellCommand {
    type V = ShellModel;

    open spec fn view(&self) -> ShellModel {
        match self {
            ShellCommand::Reset => ShellModel::Reset,
            ShellCommand::Load(path) => ShellModel::Load(path@),
            ShellCommand::Log => ShellModel::Log,
            ShellCommand::Dump(path) => ShellModel::Dump(path@),
            ShellCommand::Break(address) => ShellModel::Break(*address),
            ShellCommand::BadAddress => ShellModel::BadAddress,
            ShellCommand::Unknown => ShellModel::Unknown,
        }
    }
}

/// The value of a hexadecimal digit, in either case.
pub open spec fn digit_value(c: char) -> Option<int> {
    if '0' <= c <= '9' {
        Some(c as int - '0' as int)
    } else if 'a' <= c <= 'f' {
        Some(c as int - 'a' as int + 10)
    } else if 'A' <= c <= 'F' {
        Some(c as int - 'A' as int + 10)
    } else {
        None
    }
}

/// The number that the characters of `s` from `from` up to `to` spell in
/// hexadecimal; `None` if one of them is no digit or the number does not
/// fit in 16 bits.
pub open spec fn hex_run(s: Seq<char>, from: int, to: int) -> Option<int>
    decreases to - from,
{
    if to <= from {
        Some(0)
    } else {
        match (hex_run(s, from, to - 1), digit_value(s[to - 1])) {
            (Some(v), Some(d)) => if v * 16 + d <= 0xFFFF {
                Some(v * 16 + d)
            } else {
                None
            },
            _ => None,
        }
    }
}

/// Where the digits of an address start: after `0x` and an optional `+`.
pub open spec fn digits_from(s: Seq<char>) -> int {
    if s.len() > 2 && s[2] == '+' {
        3
    } else {
        2
    }
}

/// The address that a word spells: `0x`, an optional `+`, and at least one
/// hexadecimal digit, no more than `0xFFFF` in all.
pub open spec fn address_of(s: Seq<char>) -> Option<u16> {
    if s.len() >= 2 && s[0] == '0' && s[1] == 'x' && digits_from(s) < s.len() {
        match hex_run(s, digits_from(s), s.len() as int) {
            Some(v) => Some(v as u16),
            None => None,
        }
    } else {
        None
    }
}

/// Once a run of characters spells no number, no longer run does.
pub proof fn lemma_hex_run_stays_none(s: Seq<char>, from: int, mid: int, to: int)
    requires
        from <= mid <= to,
        hex_run(s, from, mid) is None,
    ensures
        hex_run(s, from, to) is None,
    decreases to - mid,
{
    if mid < to {
        lemma_hex_run_stays_none(s, from, mid, to - 1);
    }
}

pub fn digit_of(c: char) -> (r: Option<u32>)
    ensures
        r is Some <==> digit_value(c) is Some,
        r matches Some(d) ==> digit_value(c) == Some(d as int) && d < 16,
{
    if '0' <= c && c <= '9' {
        Some(c as u32 - '0' as u32)
    } else if 'a' <= c && c <= 'f' {
        Some(c as u32 - 'a' as u32 + 10)
    } else if 'A' <= c && c <= 'F' {
        Some(c as u32 - 'A' as u32 + 10)
    } else {
        None
    }
}

/// Reads an address from a word.
pub fn parse_address(word: &str) -> (r: Option<u16>)
    ensures
        r == address_of(word@),
{
    let n = word.unicode_len();
    if n < 3 {
        return None;
    }
    if word.get_char(0) != '0' || word.get_char(1) != 'x' {
        return None;
    }
    let start: usize = if word.get_char(2) == '+' {
        3
    } else {
        2
    };
    if start >= n {
        return None;
    }
    let mut value: u32 = 0;
    let mut i: usize = start;
    while i < n
        invariant
            start <= i <= n,
            n == word@.len(),
            start == digits_from(word@),
            hex_run(word@, start as int, i as int) == Some(value as int),
            value <= 0xFFFF,
        decreases n - i,
    {
        let digit = match digit_of(word.get_char(i)) {
            Some(d) => d,
            None => {
                proof {
                    assert(hex_run(word@, start as int, i + 1) is None);
                    lemma_hex_run_stays_none(word@, start as int, i + 1, n as int);
                }
                return None;
            },
        };
        if value * 16 + digit > 0xFFFF {
            proof {
                assert(hex_run(word@, start as int, i + 1) is None);
                lemma_hex_run_stays_none(word@, start as int, i + 1, n as int);
            }
            return None;
        }
        value = value * 16 + digit;
        i = i + 1;
    }
    Some(value as u16)
}

/// What the words of a line ask for; `None` for a line without words. The
/// first word names the command; `load`, `dump` and `break` take exactly
/// one more word.
pub open spec fn parsed(words: Seq<String>) -> Option<ShellModel> {
    if words.len() == 0 {
        None
    } else if words[0]@ == "reset"@ {
        Some(ShellModel::Reset)
    } else if words[0]@ == "load"@ && words.len() == 2 {
        Some(ShellModel::Load(words[1]@))
    } else if words[0]@ == "log"@ {
        Some(ShellModel::Log)
    } else if words[0]@ == "dump"@ && words.len() == 2 {
        Some(ShellModel::Dump(words[1]@))
    } else if words[0]@ == "break"@ && words.len() == 2 {
        match address_of(words[1]@) {
            Some(address) => Some(ShellModel::Break(address)),
            None => Some(ShellModel::BadAddress),
        }
    } else {
        Some(ShellModel::Unknown)
    }
}

fn is_word(word: &String, name: &str) -> (r: bool)
    ensures
        r == (word@ == name@),
{
    let other = String::from_str(name);
    *word == other
}

/// Reads the command from the words of a line.
pub fn parse_words(words: &Vec<String>) -> (r: Option<ShellCommand>)
    ensures
        r is Some <==> parsed(words@) is Some,
        r matches Some(command) ==> parsed(words@) == Some(command@),
{
    if words.len() == 0 {
        return None;
    }
    let first = &words[0];
    if is_word(first, "reset") {
        Some(ShellCommand::Reset)
    } else if is_word(first, "load") && words.len() == 2 {
        Some(ShellCommand::Load(words[1].clone()))
    } else if is_word(first, "log") {
        Some(ShellCommand::Log)
    } else if is_word(first, "dump") && words.len() == 2 {
        Some(ShellCommand::Dump(words[1].clone()))
    } else if is_word(first, "break") && words.len() == 2 {
        match parse_address(words[1].as_str()) {
            Some(address) => Some(ShellCommand::Break(address)),
            None => Some(ShellCommand::BadAddress),
        }
    } else {
        Some(ShellCommand::Unknown)
    }
}

} // verus!
