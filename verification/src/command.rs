//! The command line: one line of text turned into a command.
//!
//! A line is split into words at whitespace. The first word is the
//! keyword, spelled in lower case:
//!
//! - no word at all is the empty command;
//! - `man` followed by page names opens those pages; with two or more
//!   words after `man`, the first of them may be the section of the others
//!   (see [`crate::args`]), and if the probe fails every word is a page;
//! - `help` or `h` shows the help;
//! - `quit` or `q` ends the session;
//! - `wipe` or `w` closes the current tab;
//! - anything else, `man` alone included, is an unknown command.

use crate::args::{
    classified,
    classify_args,
    copy_from,
    interpret,
    probe_heard,
    probe_reply_of,
    reading_of,
    ArgsInterpretation,
    ProbeReply,
    Reading,
    SectionProbe,
    ValidationError,
};
use crate::text::{opt_text, split_words, texts, words};
use vstd::prelude::*;

verus! {

/// A command as it was read from a line.
#[derive(Debug, Clone, PartialEq, Eq)]
pub enum ParsedCommand {
    Man { pages: Vec<String>, section: Option<String> },
    Help,
    Quit,
    Wipe,
    Empty,
    Unknown(String),
}

/// A `ParsedCommand` with its texts as character sequences.
pub enum Command {
    Man { pages: Seq<Seq<char>>, section: Option<Seq<char>> },
    Help,
    Quit,
    Wipe,
    Empty,
    Unknown(Seq<char>),
}

impl View for ParsedCommand {
    type V = Command;

    open spec fn view(&self) -> Command {
        match self {
            ParsedCommand::Man { pages, section } => Command::Man {
                pages: texts(pages@),
                section: opt_text(*section),
            },
            ParsedCommand::Help => Command::Help,
            ParsedCommand::Quit => Command::Quit,
            ParsedCommand::Wipe => Command::Wipe,
            ParsedCommand::Empty => Command::Empty,
            ParsedCommand::Unknown(keyword) => Command::Unknown(keyword@),
        }
    }
}

/// The pages that `args` asks for, `reply` being what the probe answered.
/// Where the probe failed every argument is a page of its own.
pub open spec fn targets(args: Seq<Seq<char>>, reply: ProbeReply) -> Command {
    match classified(args, reply) {
        Ok(Reading::SectionAndPages { section, pages }) => Command::Man {
            pages,
            section: Some(section),
        },
        Ok(Reading::Pages(pages)) => Command::Man { pages, section: None },
        Err(_) => Command::Man { pages: args, section: None },
    }
}

/// The command that a list of words stands for, `reply` being what the
/// probe answered for the words after `man`.
pub open spec fn command_of(words: Seq<Seq<char>>, reply: ProbeReply) -> Command {
    if words.len() == 0 {
        Command::Empty
    } else if words[0] == "man"@ {
        if words.len() == 1 {
            Command::Unknown(words[0])
        } else {
            targets(words.skip(1), reply)
        }
    } else if words[0] == "help"@ || words[0] == "h"@ {
        Command::Help
    } else if words[0] == "quit"@ || words[0] == "q"@ {
        Command::Quit
    } else if words[0] == "wipe"@ || words[0] == "w"@ {
        Command::Wipe
    } else {
        Command::Unknown(words[0])
    }
}

/// The command that a line stands for, `reply` being what the probe
/// answered. The reply plays a part only where `asks_probe` holds.
pub open spec fn parsed(line: Seq<char>, reply: ProbeReply) -> Command {
    command_of(words(line), reply)
}

/// Reading this line takes an answer of the probe: it is `man` followed by
/// two or more words.
pub open spec fn asks_probe(line: Seq<char>) -> bool {
    words(line).len() >= 3 && words(line)[0] == "man"@
}

/// Tells whether `token` is the word `word`.
fn is_word(token: &String, word: &str) -> (r: bool)
    ensures
        r == (token@ == word@),
{
    let other = word.to_owned();
    *token == other
}

/// Turns a reading of the words after `man` into the command to open
/// pages; `args` are those words, which all become pages where the reading
/// failed.
fn open_command(args: &[String], outcome: Result<ArgsInterpretation, ValidationError>) -> (command:
    ParsedCommand)
    ensures
        command@ == match reading_of(outcome) {
            Ok(Reading::SectionAndPages { section, pages }) => Command::Man {
                pages,
                section: Some(section),
            },
            Ok(Reading::Pages(pages)) => Command::Man { pages, section: None },
            Err(_) => Command::Man { pages: texts(args@), section: None },
        },
{
    match outcome {
        Ok(ArgsInterpretation::SectionAndPages { section, pages }) => ParsedCommand::Man {
            pages,
            section: Some(section),
        },
        Ok(ArgsInterpretation::Pages(pages)) => ParsedCommand::Man { pages, section: None },
        Err(_) => {
            let pages = copy_from(args, 0);
            assert(texts(args@).skip(0) =~= texts(args@));
            ParsedCommand::Man { pages, section: None }
        },
    }
}

/// The command for a keyword that opens nothing.
fn keyword_command(keyword: &String) -> (command: ParsedCommand)
    requires
        keyword@ != "man"@,
    ensures
        command@ == command_of(seq![keyword@], Ok(false)),
        forall|rest: Seq<Seq<char>>, reply: ProbeReply| #[trigger]
            command_of(seq![keyword@] + rest, reply) == command@,
{
    assert forall|rest: Seq<Seq<char>>, reply: ProbeReply| #[trigger]
        command_of(seq![keyword@] + rest, reply) == command_of(seq![keyword@], Ok(false)) by {
        assert((seq![keyword@] + rest)[0] == keyword@);
    }
    if is_word(keyword, "help") || is_word(keyword, "h") {
        ParsedCommand::Help
    } else if is_word(keyword, "quit") || is_word(keyword, "q") {
        ParsedCommand::Quit
    } else if is_word(keyword, "wipe") || is_word(keyword, "w") {
        ParsedCommand::Wipe
    } else {
        ParsedCommand::Unknown(keyword.clone())
    }
}

/// The command that opens what `args` asks for, `probe` deciding whether
/// the first of two or more arguments is a section.
///
/// The probe is asked exactly if there are two or more arguments. If it
/// fails every argument is a page of its own.
pub fn open_targets<P: SectionProbe + ?Sized>(args: &[String], probe: &P) -> (command:
    ParsedCommand)
    ensures
        exists|reply: ProbeReply|
            #![trigger targets(texts(args@), reply)]
            {
                &&& probe_heard(probe, texts(args@), reply)
                &&& command@ == targets(texts(args@), reply)
            },
        texts(args@).len() < 2 ==> command@ == targets(texts(args@), Ok(false)),
{
    let outcome = classify_args(args, probe);
    let command = open_command(args, outcome);
    proof {
        let reply = choose|reply: ProbeReply|
            #![trigger classified(texts(args@), reply)]
            {
                &&& probe_heard(probe, texts(args@), reply)
                &&& reading_of(outcome) == classified(texts(args@), reply)
            };
        assert(command@ == targets(texts(args@), reply));
    }
    command
}

/// Reads a line, given what the probe answered for the words after `man`.
/// Where the line does not ask the probe the answer is dropped.
pub fn parse_with(line: &str, answer: Result<bool, ValidationError>) -> (command: ParsedCommand)
    ensures
        command@ == parsed(line@, probe_reply_of(answer)),
{
    let tokens = split_words(line);
    if tokens.len() == 0 {
        return ParsedCommand::Empty;
    }
    if is_word(&tokens[0], "man") {
        if tokens.len() == 1 {
            return ParsedCommand::Unknown(tokens[0].clone());
        }
        let args = copy_from(tokens.as_slice(), 1);
        let outcome = interpret(args.as_slice(), answer);
        open_command(args.as_slice(), outcome)
    } else {
        let command = keyword_command(&tokens[0]);
        proof {
            assert(seq![tokens[0]@] + words(line@).skip(1) =~= words(line@));
        }
        command
    }
}

/// `reply` is an answer of `probe` to what reading `line` asks it: whether
/// any of the words behind the second is a page of the section that the
/// second word names. Where the line is not `man` followed by two or more
/// words nothing is asked, and any reply will do.
pub open spec fn line_heard<P: SectionProbe + ?Sized>(
    probe: &P,
    line: Seq<char>,
    reply: ProbeReply,
) -> bool {
    asks_probe(line) ==> probe.found(words(line)[1], words(line).skip(2), reply)
}

/// Reads a line, asking `probe` where the line is `man` followed by two
/// or more words.
///
/// The command is what `parse_with` makes of the probe's answer.
pub fn parse_command<P: SectionProbe + ?Sized>(line: &str, probe: &P) -> (command: ParsedCommand)
    ensures
        exists|reply: ProbeReply|
            #![trigger parsed(line@, reply)]
            {
                &&& line_heard(probe, line@, reply)
                &&& command@ == parsed(line@, reply)
            },
        !asks_probe(line@) ==> command@ == parsed(line@, Ok(false)),
{
    let tokens = split_words(line);
    if tokens.len() == 0 {
        assert(ParsedCommand::Empty@ == parsed(line@, Ok(false)));
        return ParsedCommand::Empty;
    }
    if is_word(&tokens[0], "man") {
        if tokens.len() == 1 {
            let command = ParsedCommand::Unknown(tokens[0].clone());
            assert(command@ == parsed(line@, Ok(false)));
            return command;
        }
        let args = copy_from(tokens.as_slice(), 1);
        let outcome = classify_args(args.as_slice(), probe);
        let command = open_command(args.as_slice(), outcome);
        proof {
            let reply = choose|reply: ProbeReply|
                #![trigger classified(texts(args@), reply)]
                {
                    &&& probe_heard(probe, texts(args@), reply)
                    &&& reading_of(outcome) == classified(texts(args@), reply)
                };
            assert(command@ == parsed(line@, reply));
            if asks_probe(line@) {
                assert(texts(args@)[0] == words(line@)[1]);
                assert(texts(args@).skip(1) =~= words(line@).skip(2));
            }
        }
        command
    } else {
        let command = keyword_command(&tokens[0]);
        proof {
            assert(seq![tokens[0]@] + words(line@).skip(1) =~= words(line@));
            assert(command@ == parsed(line@, Ok(false)));
        }
        command
    }
}

} // verus!
