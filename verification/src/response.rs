//! Responses and their exact wire text.
//!
//! Every response renders to exactly one output line; the line terminator is
//! the writer's concern.  Error codes are the fixed numeric identifiers the
//! calling agent expects, rendered in decimal.

use vstd::prelude::*;

verus! {

/// Numeric protocol value of the unknown/unspecified-command error.
pub const UNKNOWN_COMMAND_CODE: u32 = 536871187;

/// Numeric protocol value of the operation-cancelled error.
pub const CANCELLED_CODE: u32 = 83886179;

/// Numeric protocol value shared by all unexpected/internal failures.
pub const UNEXPECTED_CODE: u32 = 83886167;

/// The error codes the engine can report.  `Surfaced` carries a code taken
/// verbatim from an underlying failure.
#[derive(Clone, Copy, PartialEq, Eq, Structural, Debug)]
pub enum ErrorCode {
    UnknownCommand,
    Unexpected,
    Cancelled,
    Surfaced(u32),
}

/// The numeric identifier of an error code.
pub open spec fn code_number(c: ErrorCode) -> u32 {
    match c {
        ErrorCode::UnknownCommand => UNKNOWN_COMMAND_CODE,
        ErrorCode::Unexpected => UNEXPECTED_CODE,
        ErrorCode::Cancelled => CANCELLED_CODE,
        ErrorCode::Surfaced(n) => n,
    }
}

/// One protocol response.
#[derive(Debug, Clone, PartialEq, Eq)]
pub enum Response {
    Acknowledged(Option<String>),
    Failure(ErrorCode, String),
    Remark(Option<String>),
    Farewell(Option<String>),
    DataLine(String),
    OptionEcho(String, Option<String>),
}

/// Mathematical model of a [`Response`]: the same variants over character
/// sequences.
pub enum ResponseV {
    Acknowledged(Option<Seq<char>>),
    Failure(ErrorCode, Seq<char>),
    Remark(Option<Seq<char>>),
    Farewell(Option<Seq<char>>),
    DataLine(Seq<char>),
    OptionEcho(Seq<char>, Option<Seq<char>>),
}

/// The view of an optional owned string.
pub open spec fn opt_view(o: Option<String>) -> Option<Seq<char>> {
    match o {
        Some(s) => Some(s@),
        None => None,
    }
}

impl View for Response {
    type V = ResponseV;

    open spec fn view(&self) -> ResponseV {
        match self {
            Response::Acknowledged(t) => ResponseV::Acknowledged(opt_view(*t)),
            Response::Failure(c, m) => ResponseV::Failure(*c, m@),
            Response::Remark(t) => ResponseV::Remark(opt_view(*t)),
            Response::Farewell(t) => ResponseV::Farewell(opt_view(*t)),
            Response::DataLine(t) => ResponseV::DataLine(t@),
            Response::OptionEcho(n, v) => ResponseV::OptionEcho(n@, opt_view(*v)),
        }
    }
}

/// The character of a single decimal digit.
pub open spec fn digit_char(d: nat) -> char {
    if d == 0 {
        '0'
    } else if d == 1 {
        '1'
    } else if d == 2 {
        '2'
    } else if d == 3 {
        '3'
    } else if d == 4 {
        '4'
    } else if d == 5 {
        '5'
    } else if d == 6 {
        '6'
    } else if d == 7 {
        '7'
    } else if d == 8 {
        '8'
    } else {
        '9'
    }
}

/// Decimal digits of `n`, most significant first, with no leading zero
/// except for `n == 0` itself.
pub open spec fn dec_digits(n: nat) -> Seq<char>
    decreases n,
{
    if n < 10 {
        seq![digit_char(n)]
    } else {
        dec_digits(n / 10).push(digit_char(n % 10))
    }
}

/// One decimal digit as a string slice.
fn digit_str(d: u32) -> (r: &'static str)
    requires
        d < 10,
    ensures
        r@ == seq![digit_char(d as nat)],
{
    let r: &'static str = if d == 0 {
        "0"
    } else if d == 1 {
        "1"
    } else if d == 2 {
        "2"
    } else if d == 3 {
        "3"
    } else if d == 4 {
        "4"
    } else if d == 5 {
        "5"
    } else if d == 6 {
        "6"
    } else if d == 7 {
        "7"
    } else if d == 8 {
        "8"
    } else {
        "9"
    };
    proof {
        reveal_strlit("0");
        reveal_strlit("1");
        reveal_strlit("2");
        reveal_strlit("3");
        reveal_strlit("4");
        reveal_strlit("5");
        reveal_strlit("6");
        reveal_strlit("7");
        reveal_strlit("8");
        reveal_strlit("9");
        assert(r@ =~= seq![digit_char(d as nat)]);
    }
    r
}

/// Render `n` in decimal.
pub fn dec_string(n: u32) -> (r: String)
    ensures
        r@ == dec_digits(n as nat),
    decreases n,
{
    if n < 10 {
        String::from_str(digit_str(n))
    } else {
        let mut s = dec_string(n / 10);
        s.append(digit_str(n % 10));
        proof {
            assert(s@ =~= dec_digits(n as nat));
        }
        s
    }
}

/// The exact wire text of a response, without the line terminator.
pub open spec fn spec_encode(r: ResponseV) -> Seq<char> {
    match r {
        ResponseV::Acknowledged(None) => "OK"@,
        ResponseV::Acknowledged(Some(t)) => "OK "@ + t,
        ResponseV::Failure(c, m) => "ERR "@ + dec_digits(code_number(c) as nat) + " "@ + m,
        ResponseV::Remark(None) => "#"@,
        ResponseV::Remark(Some(t)) => "# "@ + t,
        ResponseV::Farewell(None) => "BYE"@,
        ResponseV::Farewell(Some(t)) => "BYE "@ + t,
        ResponseV::DataLine(t) => "D "@ + t,
        ResponseV::OptionEcho(n, None) => "OPTION "@ + n,
        ResponseV::OptionEcho(n, Some(v)) => "OPTION "@ + n + "="@ + v,
    }
}

/// The numeric identifier of an error code, as executable code.
pub fn code_number_exec(c: &ErrorCode) -> (n: u32)
    ensures
        n == code_number(*c),
{
    match c {
        ErrorCode::UnknownCommand => UNKNOWN_COMMAND_CODE,
        ErrorCode::Unexpected => UNEXPECTED_CODE,
        ErrorCode::Cancelled => CANCELLED_CODE,
        ErrorCode::Surfaced(n) => *n,
    }
}

/// Render one response to its exact wire text (no line terminator).
pub fn encode(r: &Response) -> (s: String)
    ensures
        s@ == spec_encode(r@),
{
    match r {
        Response::Acknowledged(None) => String::from_str("OK"),
        Response::Acknowledged(Some(t)) => {
            let mut s = String::from_str("OK ");
            s.append(t.as_str());
            s
        },
        Response::Failure(c, m) => {
            let mut s = String::from_str("ERR ");
            s.append(dec_string(code_number_exec(c)).as_str());
            s.append(" ");
            s.append(m.as_str());
            proof {
                assert(s@ =~= spec_encode(r@));
            }
            s
        },
        Response::Remark(None) => String::from_str("#"),
        Response::Remark(Some(t)) => {
            let mut s = String::from_str("# ");
            s.append(t.as_str());
            s
        },
        Response::Farewell(None) => String::from_str("BYE"),
        Response::Farewell(Some(t)) => {
            let mut s = String::from_str("BYE ");
            s.append(t.as_str());
            s
        },
        Response::DataLine(t) => {
            let mut s = String::from_str("D ");
            s.append(t.as_str());
            s
        },
        Response::OptionEcho(n, None) => {
            let mut s = String::from_str("OPTION ");
            s.append(n.as_str());
            s
        },
        Response::OptionEcho(n, Some(v)) => {
            let mut s = String::from_str("OPTION ");
            s.append(n.as_str());
            s.append("=");
            s.append(v.as_str());
            proof {
                assert(s@ =~= spec_encode(r@));
            }
            s
        },
    }
}

} // verus!
