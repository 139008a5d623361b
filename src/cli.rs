//! The interactive command line: reading a command from a line, and the labels
//! of the status report.
use crate::slot::Slot;
use vstd::prelude::*;

verus! {

/// A character with Unicode's `White_Space` property.
pub open spec fn is_white_space(c: char) -> bool {
    ('\u{9}' <= c && c <= '\u{d}') || c == ' ' || c == '\u{85}' || c == '\u{a0}' || c == '\u{1680}'
        || ('\u{2000}' <= c && c <= '\u{200a}') || c == '\u{2028}' || c == '\u{2029}' || c == '\u{202f}'
        || c == '\u{205f}' || c == '\u{3000}'
}

/// `s` without its leading white space.
pub open spec fn skip_white(s: Seq<char>) -> Seq<char>
    decreases s.len(),
{
    if s.len() > 0 && is_white_space(s[0]) {
        skip_white(s.drop_first())
    } else {
        s
    }
}

/// The longest start of `s` without white space.
pub open spec fn word_run(s: Seq<char>) -> Seq<char>
    decreases s.len(),
{
    if s.len() > 0 && !is_white_space(s[0]) {
        seq![s[0]] + word_run(s.drop_first())
    } else {
        Seq::empty()
    }
}

/// The first whitespace-separated word of a line, if any.
pub open spec fn first_word_of(line: Seq<char>) -> Option<Seq<char>> {
    let rest = skip_white(line);
    if rest.len() == 0 {
        None
    } else {
        Some(word_run(rest))
    }
}

/// `c` with an ASCII capital turned into its small letter.
pub open spec fn ascii_lower(c: char) -> char {
    if 'A' <= c && c <= 'Z' {
        ((c as u8) + 32u8) as char
    } else {
        c
    }
}

pub open spec fn lowered(s: Seq<char>) -> Seq<char> {
    s.map_values(|c: char| ascii_lower(c))
}

/// Relies on `str::split_whitespace`: its first item, the first run of
/// characters without the `White_Space` property.
#[verifier::external_body]
fn first_word(line: &str) -> (r: Option<String>)
    ensures
        match r {
            Some(w) => first_word_of(line@) == Some(w@),
            None => first_word_of(line@) is None,
        },
{
    line.split_whitespace().next().map(|w| w.to_owned())
}

/// Relies on `str::to_ascii_lowercase`: ASCII capitals become small letters,
/// every other character stays.
#[verifier::external_body]
fn ascii_lowercase(s: &str) -> (r: String)
    ensures
        r@ == lowered(s@),
{
    s.to_ascii_lowercase()
}

/// A command of the interactive command line.
#[derive(Debug, PartialEq, Eq)]
pub enum Command {
    Help,
    Status,
    Instances,
    Backend,
    Queue,
    Update,
    Stop,
    /// Any other word, in small letters.
    Unknown(String),
}

/// The command that a word names, capitals and small letters alike.
pub open spec fn names(w: Seq<char>, c: Command) -> bool {
    let l = lowered(w);
    match c {
        Command::Help => l == "help"@ || l == "?"@,
        Command::Status => l == "status"@ || l == "info"@,
        Command::Instances => l == "instances"@,
        Command::Backend => l == "backend"@,
        Command::Queue => l == "queue"@,
        Command::Update => l == "update"@,
        Command::Stop => l == "stop"@ || l == "shutdown"@,
        Command::Unknown(s) => s@ == l && l != "help"@ && l != "?"@ && l != "status"@ && l != "info"@
            && l != "instances"@ && l != "backend"@ && l != "queue"@ && l != "update"@ && l != "stop"@
            && l != "shutdown"@,
    }
}

/// The command a word names, capitals and small letters alike.
pub fn parse_command(word: &str) -> (r: Command)
    ensures
        names(word@, r),
{
    let l = ascii_lowercase(word);
    if l == "help".to_owned() || l == "?".to_owned() {
        Command::Help
    } else if l == "status".to_owned() || l == "info".to_owned() {
        Command::Status
    } else if l == "instances".to_owned() {
        Command::Instances
    } else if l == "backend".to_owned() {
        Command::Backend
    } else if l == "queue".to_owned() {
        Command::Queue
    } else if l == "update".to_owned() {
        Command::Update
    } else if l == "stop".to_owned() || l == "shutdown".to_owned() {
        Command::Stop
    } else {
        Command::Unknown(l)
    }
}

/// The command on a line of input: the one its first word names, or `None` for
/// a blank line.
pub fn handle_command(line: &str) -> (r: Option<Command>)
    ensures
        first_word_of(line@) is None <==> r is None,
        r matches Some(c) ==> names(first_word_of(line@)->0, c),
{
    match first_word(line) {
        Some(w) => Some(parse_command(w.as_str())),
        None => None,
    }
}

pub fn bool_to_icon(flag: bool) -> (r: &'static str)
    ensures
        r@ == (if flag { "yes"@ } else { "no"@ }),
{
    if flag {
        "yes"
    } else {
        "no"
    }
}

/// How the status report names the active slot.
pub fn main_instance_label(active: Option<Slot>) -> (r: &'static str)
    ensures
        r@ == (match active {
            Some(Slot::One) => "1"@,
            Some(Slot::Two) => "2"@,
            None => "(not assigned)"@,
        }),
{
    match active {
        Some(Slot::One) => "1",
        Some(Slot::Two) => "2",
        None => "(not assigned)",
    }
}

/// How the instance report names a slot's state.
pub fn running_label(running: bool) -> (r: &'static str)
    ensures
        r@ == (if running { "running"@ } else { "stopped"@ }),
{
    if running {
        "running"
    } else {
        "stopped"
    }
}

} // verus!
