//! The protocol state machine.
//!
//! `dispatch` takes the session state and one parsed command and decides the
//! new state, the responses to emit, and whether the session ends.  The one
//! command it cannot answer alone is the secret request: there it asks the
//! caller to run the external picker and hand the outcome to
//! `dispatch_secret`.

use vstd::prelude::*;

use crate::command::{Command, CommandV};
use crate::decode::{decode_or_raw, spec_decode_or_raw, percent_decoded};
use crate::response::{ErrorCode, Response, ResponseV};
use crate::state::{initial_state, SessionState, StateV};

verus! {

/// A batch of responses to emit, and whether the session ends after them.
#[derive(Debug, Clone, PartialEq, Eq)]
pub struct Reply {
    pub responses: Vec<Response>,
    pub terminate: bool,
}

/// What the dispatcher decided for one command.
#[derive(Debug, Clone, PartialEq, Eq)]
pub enum Dispatch {
    /// Emit these responses; end the session if `terminate` holds.
    Answer(Reply),
    /// Run the external picker on the current state, then call
    /// [`dispatch_secret`] with its outcome.
    AskSecret,
}

/// A failure of the picker gateway: an error code and its message.
#[derive(Debug, Clone, PartialEq, Eq)]
pub struct GatewayError {
    pub code: ErrorCode,
    pub message: String,
}

/// Mathematical model of a [`GatewayError`].
pub struct GatewayErrorV {
    pub code: ErrorCode,
    pub message: Seq<char>,
}

impl View for GatewayError {
    type V = GatewayErrorV;

    open spec fn view(&self) -> GatewayErrorV {
        GatewayErrorV { code: self.code, message: self.message@ }
    }
}

/// The views of a batch of responses.
pub open spec fn responses_view(v: Seq<Response>) -> Seq<ResponseV> {
    v.map_values(|r: Response| r@)
}

/// The session state after one command.  Only `RESET`, `SETTITLE` and
/// `SETDESC` touch it; the two setters store the percent-decoded argument,
/// or the raw argument when it does not decode.
pub open spec fn spec_next_state(s: StateV, c: CommandV) -> StateV {
    match c {
        CommandV::Reset => initial_state(),
        CommandV::SetTitle(text) => StateV { title: Some(spec_decode_or_raw(text)), ..s },
        CommandV::SetDescription(text) => StateV {
            description: Some(spec_decode_or_raw(text)),
            ..s
        },
        _ => s,
    }
}

/// The responses one command draws, for every command but the secret
/// request (whose responses depend on the picker's outcome).
pub open spec fn spec_responses(c: CommandV) -> Seq<ResponseV> {
    match c {
        CommandV::Comment => Seq::empty(),
        CommandV::Bye => seq![ResponseV::Farewell(Some("closing connection"@))],
        CommandV::End => seq![
            ResponseV::Failure(ErrorCode::Unexpected, "not implemented"@),
        ],
        CommandV::Help => seq![
            ResponseV::Failure(ErrorCode::Unexpected, "not implemented"@),
        ],
        CommandV::GetSecret => Seq::empty(),
        CommandV::Unknown(raw) => seq![
            ResponseV::Remark(Some(raw)),
            ResponseV::Failure(ErrorCode::UnknownCommand, "unknown command"@),
        ],
        _ => seq![ResponseV::Acknowledged(None)],
    }
}

/// Whether a command ends the session: only `BYE` does.
pub open spec fn spec_terminates(c: CommandV) -> bool {
    c is Bye
}

/// Decide state change, responses and termination for one command.
pub fn dispatch(state: &mut SessionState, c: &Command) -> (d: Dispatch)
    ensures
        final(state)@ == spec_next_state(old(state)@, c@),
        c@ is GetSecret <==> d is AskSecret,
        d matches Dispatch::Answer(reply) ==> responses_view(reply.responses@) == spec_responses(
            c@,
        ) && reply.terminate == spec_terminates(c@),
{
    match c {
        Command::Comment => answer_empty(),
        Command::Bye => {
            let mut responses: Vec<Response> = Vec::new();
            responses.push(
                Response::Farewell(Some(String::from_str("closing connection"))),
            );
            proof {
                assert(responses_view(responses@) =~= spec_responses(c@));
            }
            Dispatch::Answer(Reply { responses, terminate: true })
        },
        Command::Reset => {
            state.reset();
            answer_ok(c)
        },
        Command::End => answer_not_implemented(c),
        Command::Help => answer_not_implemented(c),
        Command::SetOption(_, _) => answer_ok(c),
        Command::Nop => answer_ok(c),
        Command::GetSecret => Dispatch::AskSecret,
        Command::SetPrompt(_) => answer_ok(c),
        Command::SetDescription(text) => {
            state.description = Some(decode_or_raw(text.as_str()));
            answer_ok(c)
        },
        Command::SetTitle(text) => {
            state.title = Some(decode_or_raw(text.as_str()));
            answer_ok(c)
        },
        Command::SetCosmetic(_, _) => answer_ok(c),
        Command::Unknown(raw) => {
            let mut responses: Vec<Response> = Vec::new();
            responses.push(Response::Remark(Some(raw.clone())));
            responses.push(
                Response::Failure(
                    ErrorCode::UnknownCommand,
                    String::from_str("unknown command"),
                ),
            );
            proof {
                assert(responses_view(responses@) =~= spec_responses(c@));
            }
            Dispatch::Answer(Reply { responses, terminate: false })
        },
    }
}

/// An answer with no responses at all.
fn answer_empty() -> (d: Dispatch)
    ensures
        d matches Dispatch::Answer(reply) && responses_view(reply.responses@) == Seq::<
            ResponseV,
        >::empty() && !reply.terminate,
{
    let responses: Vec<Response> = Vec::new();
    proof {
        assert(responses_view(responses@) =~= Seq::<ResponseV>::empty());
    }
    Dispatch::Answer(Reply { responses, terminate: false })
}

/// The plain `OK` answer shared by the acknowledging commands.
fn answer_ok(c: &Command) -> (d: Dispatch)
    requires
        spec_responses(c@) == seq![ResponseV::Acknowledged(None::<Seq<char>>)],
        !spec_terminates(c@),
    ensures
        d matches Dispatch::Answer(reply) && responses_view(reply.responses@) == spec_responses(
            c@,
        ) && !reply.terminate,
{
    let mut responses: Vec<Response> = Vec::new();
    responses.push(Response::Acknowledged(None));
    proof {
        assert(responses_view(responses@) =~= spec_responses(c@));
    }
    Dispatch::Answer(Reply { responses, terminate: false })
}

/// The deterministic answer to the unimplemented `END` and `HELP`.
fn answer_not_implemented(c: &Command) -> (d: Dispatch)
    requires
        spec_responses(c@) == seq![
            ResponseV::Failure(ErrorCode::Unexpected, "not implemented"@),
        ],
        !spec_terminates(c@),
    ensures
        d matches Dispatch::Answer(reply) && responses_view(reply.responses@) == spec_responses(
            c@,
        ) && !reply.terminate,
{
    let mut responses: Vec<Response> = Vec::new();
    responses.push(
        Response::Failure(ErrorCode::Unexpected, String::from_str("not implemented")),
    );
    proof {
        assert(responses_view(responses@) =~= spec_responses(c@));
    }
    Dispatch::Answer(Reply { responses, terminate: false })
}

/// The gateway error that stands for the picker's cancellation.
pub open spec fn cancelled_error() -> GatewayErrorV {
    GatewayErrorV { code: ErrorCode::Cancelled, message: "operation cancelled"@ }
}

/// The gateway outcome for what the picker printed: its one output line is
/// the secret, and no output at all is the user's cancellation.
pub open spec fn spec_secret_outcome(line: Option<Seq<char>>) -> Result<
    Seq<char>,
    GatewayErrorV,
> {
    match line {
        Some(secret) => Ok(secret),
        None => Err(cancelled_error()),
    }
}

/// Interpret the picker's output: one line is the secret, verbatim; no line
/// at all signals cancellation.
pub fn secret_outcome(line: Option<String>) -> (r: Result<String, GatewayError>)
    ensures
        match r {
            Ok(secret) => spec_secret_outcome(line_view(line)) == Ok::<_, GatewayErrorV>(
                secret@,
            ),
            Err(e) => spec_secret_outcome(line_view(line)) == Err::<Seq<char>, _>(e@),
        },
{
    match line {
        Some(secret) => Ok(secret),
        None => Err(
            GatewayError {
                code: ErrorCode::Cancelled,
                message: String::from_str("operation cancelled"),
            },
        ),
    }
}

/// The view of the picker's optional output line.
pub open spec fn line_view(line: Option<String>) -> Option<Seq<char>> {
    match line {
        Some(l) => Some(l@),
        None => None,
    }
}

/// A gateway error that surfaces an unexpected/internal failure.
pub fn unexpected_error(message: String) -> (e: GatewayError)
    ensures
        e@ == (GatewayErrorV { code: ErrorCode::Unexpected, message: message@ }),
{
    GatewayError { code: ErrorCode::Unexpected, message }
}

/// The responses the secret request draws from a gateway outcome: the
/// secret as a data line and an `OK`, or the failure alone.
pub open spec fn spec_secret_responses(r: Result<Seq<char>, GatewayErrorV>) -> Seq<
    ResponseV,
> {
    match r {
        Ok(secret) => seq![
            ResponseV::DataLine(secret),
            ResponseV::Acknowledged(None),
        ],
        Err(e) => seq![ResponseV::Failure(e.code, e.message)],
    }
}

/// Whether a gateway outcome ends the session: every failure does.
pub open spec fn spec_secret_terminates(r: Result<Seq<char>, GatewayErrorV>) -> bool {
    r is Err
}

/// The view of a gateway outcome.
pub open spec fn outcome_view(r: Result<String, GatewayError>) -> Result<
    Seq<char>,
    GatewayErrorV,
> {
    match r {
        Ok(secret) => Ok(secret@),
        Err(e) => Err(e@),
    }
}

/// Answer the secret request from the gateway's outcome.  The session goes
/// on after a delivered secret and ends after any failure.
pub fn dispatch_secret(r: Result<String, GatewayError>) -> (reply: Reply)
    ensures
        responses_view(reply.responses@) == spec_secret_responses(outcome_view(r)),
        reply.terminate == spec_secret_terminates(outcome_view(r)),
{
    let ghost rv = outcome_view(r);
    match r {
        Ok(secret) => {
            let mut responses: Vec<Response> = Vec::new();
            responses.push(Response::DataLine(secret));
            responses.push(Response::Acknowledged(None));
            proof {
                assert(responses_view(responses@) =~= spec_secret_responses(rv));
            }
            Reply { responses, terminate: false }
        },
        Err(e) => {
            let mut responses: Vec<Response> = Vec::new();
            responses.push(Response::Failure(e.code, e.message));
            proof {
                assert(responses_view(responses@) =~= spec_secret_responses(rv));
            }
            Reply { responses, terminate: true }
        },
    }
}

/// The greeting every session opens with, before any input is read.
pub fn greeting() -> (r: Response)
    ensures
        r@ == ResponseV::Acknowledged(Some("Pleased to meet you"@)),
{
    Response::Acknowledged(Some(String::from_str("Pleased to meet you")))
}

/// After `SETTITLE text`, the state the picker is shown carries the decoded
/// form of `text` as its title — or `text` itself when it does not decode —
/// and the secret request changes no state on the way.
pub proof fn lemma_title_reaches_gateway(s: StateV, text: Seq<char>)
    ensures
        spec_next_state(s, CommandV::SetTitle(text)).title == Some(spec_decode_or_raw(text)),
        spec_next_state(
            spec_next_state(s, CommandV::SetTitle(text)),
            CommandV::GetSecret,
        ) == spec_next_state(s, CommandV::SetTitle(text)),
        percent_decoded(text) is None ==> spec_next_state(
            s,
            CommandV::SetTitle(text),
        ).title == Some(text),
{
}

/// `RESET` restores the initial empty state, whatever came before.
pub proof fn lemma_reset_restores_initial(s: StateV)
    ensures
        spec_next_state(s, CommandV::Reset) == initial_state(),
{
}

/// `BYE` draws exactly the farewell line and ends the session.
pub proof fn lemma_bye_terminates(s: StateV)
    ensures
        spec_responses(CommandV::Bye) == seq![
            ResponseV::Farewell(Some("closing connection"@)),
        ],
        spec_terminates(CommandV::Bye),
        spec_next_state(s, CommandV::Bye) == s,
{
}

/// A picker that produced no output draws exactly one error carrying the
/// cancelled code — and never a data line.
pub proof fn lemma_no_output_is_cancelled()
    ensures
        spec_secret_responses(spec_secret_outcome(None)) == seq![
            ResponseV::Failure(ErrorCode::Cancelled, "operation cancelled"@),
        ],
        spec_secret_terminates(spec_secret_outcome(None)),
        forall|i: int|
            0 <= i < spec_secret_responses(spec_secret_outcome(None)).len()
                ==> !(spec_secret_responses(spec_secret_outcome(None))[i] is DataLine),
{
}

/// `OPTION` is accepted but inert: it answers `OK` and changes no state.
pub proof fn lemma_option_inert(s: StateV, name: Seq<char>, value: Option<Seq<char>>)
    ensures
        spec_next_state(s, CommandV::SetOption(name, value)) == s,
        spec_responses(CommandV::SetOption(name, value)) == seq![
            ResponseV::Acknowledged(None::<Seq<char>>),
        ],
        !spec_terminates(CommandV::SetOption(name, value)),
{
}

/// An unrecognized line draws its echo as a comment, then the
/// unknown-command error, and changes no state.
pub proof fn lemma_unknown_is_reported(s: StateV, raw: Seq<char>)
    ensures
        spec_next_state(s, CommandV::Unknown(raw)) == s,
        spec_responses(CommandV::Unknown(raw)) == seq![
            ResponseV::Remark(Some(raw)),
            ResponseV::Failure(ErrorCode::UnknownCommand, "unknown command"@),
        ],
        !spec_terminates(CommandV::Unknown(raw)),
{
}

} // verus!
