//! A whole session as a pure function.
//!
//! `run_session` plays a session against pre-framed input lines and a list
//! of picker outcomes, exactly as the live loop does against streams: greet,
//! then read, parse, dispatch and answer until a terminal transition or the
//! end of input.  Each secret request consumes the next picker outcome; a
//! missing one counts as the picker printing nothing.

use vstd::prelude::*;

use crate::command::{parse, spec_parse};
use crate::dispatch::{
    dispatch, dispatch_secret, greeting, line_view, responses_view, secret_outcome,
    spec_next_state, spec_responses, spec_secret_outcome, spec_secret_responses,
    spec_secret_terminates, spec_terminates, Dispatch,
};
use crate::response::{Response, ResponseV};
use crate::state::{initial_state, SessionState, StateV};

verus! {

/// The views of the input lines.
pub open spec fn lines_view(lines: Seq<String>) -> Seq<Seq<char>> {
    lines.map_values(|l: String| l@)
}

/// The views of the picker outcomes.
pub open spec fn picker_view(picker: Seq<Option<String>>) -> Seq<Option<Seq<char>>> {
    picker.map_values(|l: Option<String>| line_view(l))
}

/// Every response a session emits after the greeting, given its input lines
/// and the picker's successive outcomes.
pub open spec fn spec_session(
    s: StateV,
    lines: Seq<Seq<char>>,
    picker: Seq<Option<Seq<char>>>,
) -> Seq<ResponseV>
    decreases lines.len(),
{
    if lines.len() == 0 {
        Seq::empty()
    } else {
        let c = spec_parse(lines[0]);
        if c is GetSecret {
            let outcome = spec_secret_outcome(
                if picker.len() > 0 {
                    picker[0]
                } else {
                    None
                },
            );
            let rs = spec_secret_responses(outcome);
            if spec_secret_terminates(outcome) {
                rs
            } else {
                rs + spec_session(
                    spec_next_state(s, c),
                    lines.drop_first(),
                    picker.drop_first(),
                )
            }
        } else {
            let rs = spec_responses(c);
            if spec_terminates(c) {
                rs
            } else {
                rs + spec_session(spec_next_state(s, c), lines.drop_first(), picker)
            }
        }
    }
}

/// The greeting's model.
pub open spec fn greeting_response() -> ResponseV {
    ResponseV::Acknowledged(Some("Pleased to meet you"@))
}

/// Play a whole session: the greeting comes first, before any input line is
/// looked at, and the rest is `spec_session` over the input.
pub fn run_session(lines: &Vec<String>, picker: &Vec<Option<String>>) -> (out: Vec<
    Response,
>)
    ensures
        responses_view(out@) == seq![greeting_response()] + spec_session(
            initial_state(),
            lines_view(lines@),
            picker_view(picker@),
        ),
{
    let ghost all_lines = lines_view(lines@);
    let ghost all_picker = picker_view(picker@);
    let mut out: Vec<Response> = Vec::new();
    out.push(greeting());
    proof {
        assert(responses_view(out@) =~= seq![greeting_response()]);
    }
    let mut state = SessionState::new();
    let mut i: usize = 0;
    let mut p: usize = 0;
    proof {
        assert(all_lines.skip(0) =~= all_lines);
        assert(all_picker.skip(0) =~= all_picker);
    }
    while i < lines.len()
        invariant
            i <= lines.len(),
            p <= picker.len(),
            all_lines == lines_view(lines@),
            all_picker == picker_view(picker@),
            all_lines.len() == lines@.len(),
            all_picker.len() == picker@.len(),
            seq![greeting_response()] + spec_session(initial_state(), all_lines, all_picker)
                == responses_view(out@) + spec_session(
                state@,
                all_lines.skip(i as int),
                all_picker.skip(p as int),
            ),
        decreases lines.len() - i,
    {
        let ghost rest_lines = all_lines.skip(i as int);
        let ghost rest_picker = all_picker.skip(p as int);
        proof {
            assert(all_lines[i as int] == lines@[i as int]@);
            assert(rest_lines[0] == all_lines[i as int]);
            assert(rest_lines.drop_first() =~= all_lines.skip(i as int + 1));
        }
        let c = parse(lines[i].as_str());
        let d = dispatch(&mut state, &c);
        match d {
            Dispatch::Answer(mut reply) => {
                proof {
                    assert(responses_view(out@ + reply.responses@) =~= responses_view(out@)
                        + responses_view(reply.responses@));
                }
                out.append(&mut reply.responses);
                if reply.terminate {
                    return out;
                }
                proof {
                    assert(rest_picker =~= all_picker.skip(p as int));
                }
            },
            Dispatch::AskSecret => {
                let outcome = if p < picker.len() {
                    let line = clone_picker_entry(&picker[p]);
                    p = p + 1;
                    secret_outcome(line)
                } else {
                    secret_outcome(None)
                };
                proof {
                    assert(rest_picker.len() > 0 ==> all_picker[p as int - 1] == line_view(
                        picker@[p as int - 1],
                    ));
                    assert(rest_picker.len() > 0 ==> rest_picker[0] == all_picker[p as int
                        - 1]);
                    assert(rest_picker.len() > 0 ==> rest_picker.drop_first()
                        =~= all_picker.skip(p as int));
                }
                let mut reply = dispatch_secret(outcome);
                proof {
                    assert(responses_view(out@ + reply.responses@) =~= responses_view(out@)
                        + responses_view(reply.responses@));
                }
                out.append(&mut reply.responses);
                if reply.terminate {
                    return out;
                }
            },
        }
        i = i + 1;
    }
    proof {
        assert(all_lines.skip(i as int) =~= Seq::<Seq<char>>::empty());
        assert(responses_view(out@) + Seq::<ResponseV>::empty() =~= responses_view(out@));
    }
    out
}

/// Clone one stored picker outcome.
fn clone_picker_entry(e: &Option<String>) -> (r: Option<String>)
    ensures
        line_view(r) == line_view(*e),
{
    match e {
        Some(s) => Some(s.clone()),
        None => None,
    }
}

/// After a terminal `BYE`, the pending input lines do not matter: the
/// session's remaining output is the farewell alone.
pub proof fn lemma_bye_ignores_pending(
    s: StateV,
    lines: Seq<Seq<char>>,
    picker: Seq<Option<Seq<char>>>,
)
    requires
        lines.len() > 0,
        spec_parse(lines[0]) is Bye,
    ensures
        spec_session(s, lines, picker) == seq![
            ResponseV::Farewell(Some("closing connection"@)),
        ],
{
    assert(spec_session(s, lines, picker) =~= seq![
        ResponseV::Farewell(Some("closing connection"@)),
    ]);
}

} // verus!
