//! Commands and the line parser.
//!
//! Parsing is total: every input line, the empty one included, maps to
//! exactly one command.  Arguments are carried raw; percent-decoding is the
//! dispatcher's business.

use vstd::prelude::*;

use crate::text::{find_char, scan_char, str_eq};

verus! {

/// A cosmetic field: accepted and acknowledged, with no behavioral effect.
#[derive(Clone, Copy, PartialEq, Eq, Structural, Debug)]
pub enum CosmeticKind {
    OkLabel,
    CancelLabel,
    NotOkLabel,
    ErrorText,
    QualityBar,
    QualityBarTooltip,
    Confirm,
    Message,
}

/// One parsed protocol command.
#[derive(Debug, Clone, PartialEq, Eq)]
pub enum Command {
    Comment,
    Bye,
    Reset,
    End,
    Help,
    SetOption(String, Option<String>),
    Nop,
    GetSecret,
    SetPrompt(String),
    SetDescription(String),
    SetTitle(String),
    SetCosmetic(CosmeticKind, Option<String>),
    Unknown(String),
}

/// Mathematical model of a [`Command`].
pub enum CommandV {
    Comment,
    Bye,
    Reset,
    End,
    Help,
    SetOption(Seq<char>, Option<Seq<char>>),
    Nop,
    GetSecret,
    SetPrompt(Seq<char>),
    SetDescription(Seq<char>),
    SetTitle(Seq<char>),
    SetCosmetic(CosmeticKind, Option<Seq<char>>),
    Unknown(Seq<char>),
}

/// The view of an optional owned string.
pub open spec fn opt_text_view(o: Option<String>) -> Option<Seq<char>> {
    match o {
        Some(s) => Some(s@),
        None => None,
    }
}

impl View for Command {
    type V = CommandV;

    open spec fn view(&self) -> CommandV {
        match self {
            Command::Comment => CommandV::Comment,
            Command::Bye => CommandV::Bye,
            Command::Reset => CommandV::Reset,
            Command::End => CommandV::End,
            Command::Help => CommandV::Help,
            Command::SetOption(n, v) => CommandV::SetOption(n@, opt_text_view(*v)),
            Command::Nop => CommandV::Nop,
            Command::GetSecret => CommandV::GetSecret,
            Command::SetPrompt(t) => CommandV::SetPrompt(t@),
            Command::SetDescription(t) => CommandV::SetDescription(t@),
            Command::SetTitle(t) => CommandV::SetTitle(t@),
            Command::SetCosmetic(k, t) => CommandV::SetCosmetic(*k, opt_text_view(*t)),
            Command::Unknown(raw) => CommandV::Unknown(raw@),
        }
    }
}

/// Classify a verb and its raw argument.  `line` is the whole input line,
/// kept for the `Unknown` case; `has_rest` says whether a space was found.
pub open spec fn spec_classify(
    line: Seq<char>,
    verb: Seq<char>,
    rest: Seq<char>,
    has_rest: bool,
) -> CommandV {
    let cosmetic_text = if has_rest {
        Some(rest)
    } else {
        None
    };
    if verb == "BYE"@ {
        CommandV::Bye
    } else if verb == "RESET"@ {
        CommandV::Reset
    } else if verb == "END"@ {
        CommandV::End
    } else if verb == "HELP"@ {
        CommandV::Help
    } else if verb == "NOP"@ {
        CommandV::Nop
    } else if verb == "GETPIN"@ {
        CommandV::GetSecret
    } else if verb == "SETDESC"@ {
        CommandV::SetDescription(rest)
    } else if verb == "SETTITLE"@ {
        CommandV::SetTitle(rest)
    } else if verb == "SETPROMPT"@ {
        CommandV::SetPrompt(rest)
    } else if verb == "SETOK"@ {
        CommandV::SetCosmetic(CosmeticKind::OkLabel, cosmetic_text)
    } else if verb == "SETCANCEL"@ {
        CommandV::SetCosmetic(CosmeticKind::CancelLabel, cosmetic_text)
    } else if verb == "SETNOTOK"@ {
        CommandV::SetCosmetic(CosmeticKind::NotOkLabel, cosmetic_text)
    } else if verb == "SETERROR"@ {
        CommandV::SetCosmetic(CosmeticKind::ErrorText, cosmetic_text)
    } else if verb == "SETQUALITYBAR"@ {
        CommandV::SetCosmetic(CosmeticKind::QualityBar, cosmetic_text)
    } else if verb == "SETQUALITYBAR_TT"@ {
        CommandV::SetCosmetic(CosmeticKind::QualityBarTooltip, cosmetic_text)
    } else if verb == "CONFIRM"@ {
        CommandV::SetCosmetic(CosmeticKind::Confirm, cosmetic_text)
    } else if verb == "MESSAGE"@ {
        CommandV::SetCosmetic(CosmeticKind::Message, cosmetic_text)
    } else if verb == "OPTION"@ {
        match find_char(rest, '=') {
            Some(i) => CommandV::SetOption(
                rest.subrange(0, i),
                Some(rest.subrange(i + 1, rest.len() as int)),
            ),
            None => CommandV::SetOption(rest, None),
        }
    } else {
        CommandV::Unknown(line)
    }
}

/// The command a line parses to.  Total over every line.
pub open spec fn spec_parse(line: Seq<char>) -> CommandV {
    if line.len() == 0 || line[0] == '#' {
        CommandV::Comment
    } else {
        match find_char(line, ' ') {
            Some(i) => spec_classify(
                line,
                line.subrange(0, i),
                line.subrange(i + 1, line.len() as int),
                true,
            ),
            None => spec_classify(line, line, Seq::empty(), false),
        }
    }
}

/// Parse one input line into a command.  Never fails.
pub fn parse(line: &str) -> (c: Command)
    ensures
        c@ == spec_parse(line@),
{
    let n = line.unicode_len();
    if n == 0 {
        return Command::Comment;
    }
    if line.get_char(0) == '#' {
        return Command::Comment;
    }
    let verb: &str;
    let rest: &str;
    let has_rest: bool;
    match scan_char(line, ' ') {
        Some(i) => {
            verb = line.substring_char(0, i);
            rest = line.substring_char(i + 1, n);
            has_rest = true;
        },
        None => {
            verb = line;
            rest = "";
            has_rest = false;
            proof {
                reveal_strlit("");
                assert(rest@ =~= Seq::<char>::empty());
            }
        },
    }
    if str_eq(verb, "BYE") {
        Command::Bye
    } else if str_eq(verb, "RESET") {
        Command::Reset
    } else if str_eq(verb, "END") {
        Command::End
    } else if str_eq(verb, "HELP") {
        Command::Help
    } else if str_eq(verb, "NOP") {
        Command::Nop
    } else if str_eq(verb, "GETPIN") {
        Command::GetSecret
    } else if str_eq(verb, "SETDESC") {
        Command::SetDescription(String::from_str(rest))
    } else if str_eq(verb, "SETTITLE") {
        Command::SetTitle(String::from_str(rest))
    } else if str_eq(verb, "SETPROMPT") {
        Command::SetPrompt(String::from_str(rest))
    } else if str_eq(verb, "SETOK") {
        cosmetic(CosmeticKind::OkLabel, rest, has_rest)
    } else if str_eq(verb, "SETCANCEL") {
        cosmetic(CosmeticKind::CancelLabel, rest, has_rest)
    } else if str_eq(verb, "SETNOTOK") {
        cosmetic(CosmeticKind::NotOkLabel, rest, has_rest)
    } else if str_eq(verb, "SETERROR") {
        cosmetic(CosmeticKind::ErrorText, rest, has_rest)
    } else if str_eq(verb, "SETQUALITYBAR") {
        cosmetic(CosmeticKind::QualityBar, rest, has_rest)
    } else if str_eq(verb, "SETQUALITYBAR_TT") {
        cosmetic(CosmeticKind::QualityBarTooltip, rest, has_rest)
    } else if str_eq(verb, "CONFIRM") {
        cosmetic(CosmeticKind::Confirm, rest, has_rest)
    } else if str_eq(verb, "MESSAGE") {
        cosmetic(CosmeticKind::Message, rest, has_rest)
    } else if str_eq(verb, "OPTION") {
        let rn = rest.unicode_len();
        match scan_char(rest, '=') {
            Some(i) => Command::SetOption(
                String::from_str(rest.substring_char(0, i)),
                Some(String::from_str(rest.substring_char(i + 1, rn))),
            ),
            None => Command::SetOption(String::from_str(rest), None),
        }
    } else {
        Command::Unknown(String::from_str(line))
    }
}

/// A cosmetic command with its optional raw argument.
fn cosmetic(k: CosmeticKind, rest: &str, has_rest: bool) -> (c: Command)
    ensures
        c@ == CommandV::SetCosmetic(
            k,
            if has_rest {
                Some(rest@)
            } else {
                None
            },
        ),
{
    Command::SetCosmetic(
        k,
        if has_rest {
            Some(String::from_str(rest))
        } else {
            None
        },
    )
}

} // verus!
