//! Tests of the protocol engine: parsing, dispatch, encoding, and whole
//! sessions, all against exact wire text.

use pinentry_engine::command::{parse, Command, CosmeticKind};
use pinentry_engine::decode::decode_or_raw;
use pinentry_engine::dispatch::{
    dispatch, dispatch_secret, greeting, secret_outcome, unexpected_error, Dispatch,
};
use pinentry_engine::response::{encode, ErrorCode, Response};
use pinentry_engine::session::run_session;
use pinentry_engine::state::SessionState;

fn encoded(responses: &[Response]) -> Vec<String> {
    responses.iter().map(encode).collect()
}

fn answer(state: &mut SessionState, line: &str) -> Vec<String> {
    match dispatch(state, &parse(line)) {
        Dispatch::Answer(reply) => encoded(&reply.responses),
        Dispatch::AskSecret => panic!("unexpected secret request for {line}"),
    }
}

#[test]
fn parse_empty_line_is_comment() {
    assert_eq!(parse(""), Command::Comment);
}

#[test]
fn parse_hash_only_is_comment() {
    assert_eq!(parse("#"), Command::Comment);
    assert_eq!(parse("# anything at all"), Command::Comment);
}

#[test]
fn parse_plain_verbs() {
    assert_eq!(parse("BYE"), Command::Bye);
    assert_eq!(parse("RESET"), Command::Reset);
    assert_eq!(parse("END"), Command::End);
    assert_eq!(parse("HELP"), Command::Help);
    assert_eq!(parse("NOP"), Command::Nop);
    assert_eq!(parse("GETPIN"), Command::GetSecret);
}

#[test]
fn parse_verbs_ignore_arguments_they_do_not_expect() {
    assert_eq!(parse("BYE now"), Command::Bye);
    assert_eq!(parse("NOP whatever"), Command::Nop);
}

#[test]
fn parse_setters_carry_raw_text() {
    assert_eq!(
        parse("SETTITLE a%20b"),
        Command::SetTitle(String::from("a%20b"))
    );
    assert_eq!(
        parse("SETDESC hello there"),
        Command::SetDescription(String::from("hello there"))
    );
    assert_eq!(
        parse("SETPROMPT PIN:"),
        Command::SetPrompt(String::from("PIN:"))
    );
    assert_eq!(parse("SETTITLE"), Command::SetTitle(String::new()));
}

#[test]
fn parse_option_splits_on_first_equals() {
    assert_eq!(
        parse("OPTION foo=bar"),
        Command::SetOption(String::from("foo"), Some(String::from("bar")))
    );
    assert_eq!(
        parse("OPTION foo"),
        Command::SetOption(String::from("foo"), None)
    );
    assert_eq!(
        parse("OPTION a=b=c"),
        Command::SetOption(String::from("a"), Some(String::from("b=c")))
    );
}

#[test]
fn parse_cosmetic_verbs() {
    assert_eq!(
        parse("SETOK Go"),
        Command::SetCosmetic(CosmeticKind::OkLabel, Some(String::from("Go")))
    );
    assert_eq!(
        parse("SETQUALITYBAR"),
        Command::SetCosmetic(CosmeticKind::QualityBar, None)
    );
    assert_eq!(
        parse("CONFIRM --one-button"),
        Command::SetCosmetic(CosmeticKind::Confirm, Some(String::from("--one-button")))
    );
}

#[test]
fn parse_unknown_keeps_the_whole_line() {
    assert_eq!(parse("FROB x"), Command::Unknown(String::from("FROB x")));
    assert_eq!(parse("bye"), Command::Unknown(String::from("bye")));
}

#[test]
fn encode_exact_wire_text() {
    assert_eq!(encode(&Response::Acknowledged(None)), "OK");
    assert_eq!(
        encode(&Response::Acknowledged(Some(String::from("done")))),
        "OK done"
    );
    assert_eq!(encode(&Response::Remark(None)), "#");
    assert_eq!(encode(&Response::Remark(Some(String::from("note")))), "# note");
    assert_eq!(encode(&Response::Farewell(None)), "BYE");
    assert_eq!(
        encode(&Response::Farewell(Some(String::from("closing connection")))),
        "BYE closing connection"
    );
    assert_eq!(encode(&Response::DataLine(String::from("hunter2"))), "D hunter2");
    assert_eq!(
        encode(&Response::OptionEcho(String::from("ttl"), None)),
        "OPTION ttl"
    );
    assert_eq!(
        encode(&Response::OptionEcho(String::from("ttl"), Some(String::from("60")))),
        "OPTION ttl=60"
    );
}

#[test]
fn encode_error_codes_in_decimal() {
    assert_eq!(
        encode(&Response::Failure(
            ErrorCode::UnknownCommand,
            String::from("unknown command")
        )),
        "ERR 536871187 unknown command"
    );
    assert_eq!(
        encode(&Response::Failure(
            ErrorCode::Cancelled,
            String::from("operation cancelled")
        )),
        "ERR 83886179 operation cancelled"
    );
    assert_eq!(
        encode(&Response::Failure(ErrorCode::Unexpected, String::from("spawn"))),
        "ERR 83886167 spawn"
    );
    assert_eq!(
        encode(&Response::Failure(ErrorCode::Surfaced(0), String::from("io"))),
        "ERR 0 io"
    );
    assert_eq!(
        encode(&Response::Failure(ErrorCode::Surfaced(1000), String::from("io"))),
        "ERR 1000 io"
    );
}

#[test]
fn greeting_comes_exactly_as_specified() {
    assert_eq!(encode(&greeting()), "OK Pleased to meet you");
}

#[test]
fn session_starts_with_greeting_before_any_input() {
    let out = run_session(&vec![], &vec![]);
    assert_eq!(encoded(&out), vec![String::from("OK Pleased to meet you")]);
}

#[test]
fn decode_reverses_percent_escapes() {
    assert_eq!(decode_or_raw("a%20b%21"), "a b!");
    assert_eq!(decode_or_raw("plain"), "plain");
}

#[test]
fn decode_failure_returns_text_unchanged() {
    assert_eq!(decode_or_raw("100%"), "100%");
    assert_eq!(decode_or_raw("%zz"), "%zz");
    assert_eq!(decode_or_raw("%e2%28%a1"), "%e2%28%a1");
}

#[test]
fn settitle_stores_decoded_text() {
    let mut state = SessionState::new();
    assert_eq!(answer(&mut state, "SETTITLE my%20title"), vec!["OK"]);
    assert_eq!(state.title, Some(String::from("my title")));
    assert_eq!(state.description, None);
}

#[test]
fn settitle_keeps_raw_text_on_decode_failure() {
    let mut state = SessionState::new();
    assert_eq!(answer(&mut state, "SETTITLE 100%"), vec!["OK"]);
    assert_eq!(state.title, Some(String::from("100%")));
}

#[test]
fn setdesc_stores_decoded_text() {
    let mut state = SessionState::new();
    assert_eq!(answer(&mut state, "SETDESC a%3Db"), vec!["OK"]);
    assert_eq!(state.description, Some(String::from("a=b")));
    assert_eq!(state.title, None);
}

#[test]
fn reset_restores_the_initial_state() {
    let mut state = SessionState::new();
    answer(&mut state, "SETTITLE t");
    answer(&mut state, "SETDESC d");
    assert_eq!(answer(&mut state, "RESET"), vec!["OK"]);
    assert_eq!(state, SessionState::new());
}

#[test]
fn bye_says_farewell_and_terminates() {
    let mut state = SessionState::new();
    match dispatch(&mut state, &parse("BYE")) {
        Dispatch::Answer(reply) => {
            assert_eq!(encoded(&reply.responses), vec!["BYE closing connection"]);
            assert!(reply.terminate);
        }
        Dispatch::AskSecret => panic!("BYE must not ask for a secret"),
    }
}

#[test]
fn bye_ignores_pending_input() {
    let lines = vec![
        String::from("SETTITLE t"),
        String::from("BYE"),
        String::from("NOP"),
        String::from("GETPIN"),
    ];
    let out = run_session(&lines, &vec![Some(String::from("s"))]);
    assert_eq!(
        encoded(&out),
        vec![
            String::from("OK Pleased to meet you"),
            String::from("OK"),
            String::from("BYE closing connection"),
        ]
    );
}

#[test]
fn end_and_help_answer_not_implemented() {
    let mut state = SessionState::new();
    assert_eq!(
        answer(&mut state, "END"),
        vec!["ERR 83886167 not implemented"]
    );
    assert_eq!(
        answer(&mut state, "HELP"),
        vec!["ERR 83886167 not implemented"]
    );
}

#[test]
fn option_is_acknowledged_and_inert() {
    let mut state = SessionState::new();
    answer(&mut state, "SETTITLE kept");
    let before = state.clone();
    assert_eq!(answer(&mut state, "OPTION foo=bar"), vec!["OK"]);
    assert_eq!(state, before);
    assert_eq!(answer(&mut state, "OPTION foo"), vec!["OK"]);
    assert_eq!(state, before);
}

#[test]
fn comment_draws_no_response() {
    let mut state = SessionState::new();
    assert_eq!(answer(&mut state, "# just chatting"), Vec::<String>::new());
    assert_eq!(answer(&mut state, ""), Vec::<String>::new());
}

#[test]
fn cosmetic_commands_are_acknowledged_and_inert() {
    let mut state = SessionState::new();
    let before = state.clone();
    for line in ["SETPROMPT PIN:", "SETOK Go", "SETCANCEL Stop", "SETNOTOK No",
        "SETERROR oops", "SETQUALITYBAR", "SETQUALITYBAR_TT hint", "CONFIRM", "MESSAGE hi"] {
        assert_eq!(answer(&mut state, line), vec!["OK"], "for {line}");
    }
    assert_eq!(state, before);
}

#[test]
fn unknown_command_is_echoed_then_rejected() {
    let mut state = SessionState::new();
    assert_eq!(
        answer(&mut state, "FROB x"),
        vec!["# FROB x", "ERR 536871187 unknown command"]
    );
}

#[test]
fn getpin_asks_for_the_picker() {
    let mut state = SessionState::new();
    assert_eq!(dispatch(&mut state, &parse("GETPIN")), Dispatch::AskSecret);
}

#[test]
fn secret_line_is_delivered_verbatim_then_acknowledged() {
    let reply = dispatch_secret(secret_outcome(Some(String::from("hunter2"))));
    assert_eq!(encoded(&reply.responses), vec!["D hunter2", "OK"]);
    assert!(!reply.terminate);
}

#[test]
fn no_picker_output_is_cancellation() {
    let reply = dispatch_secret(secret_outcome(None));
    assert_eq!(
        encoded(&reply.responses),
        vec!["ERR 83886179 operation cancelled"]
    );
    assert!(reply.terminate);
    assert!(!reply
        .responses
        .iter()
        .any(|r| matches!(r, Response::DataLine(_))));
}

#[test]
fn gateway_failure_reports_and_terminates() {
    let reply = dispatch_secret(Err(unexpected_error(String::from(
        "error while spawning picker",
    ))));
    assert_eq!(
        encoded(&reply.responses),
        vec!["ERR 83886167 error while spawning picker"]
    );
    assert!(reply.terminate);
}

#[test]
fn full_session_with_secret() {
    let lines = vec![
        String::from("OPTION no-grab"),
        String::from("SETTITLE ssh%20key"),
        String::from("GETPIN"),
        String::from("BYE"),
    ];
    let out = run_session(&lines, &vec![Some(String::from("hunter2"))]);
    assert_eq!(
        encoded(&out),
        vec![
            String::from("OK Pleased to meet you"),
            String::from("OK"),
            String::from("OK"),
            String::from("D hunter2"),
            String::from("OK"),
            String::from("BYE closing connection"),
        ]
    );
}

#[test]
fn session_ends_after_cancelled_secret() {
    let lines = vec![
        String::from("GETPIN"),
        String::from("NOP"),
    ];
    let out = run_session(&lines, &vec![None]);
    assert_eq!(
        encoded(&out),
        vec![
            String::from("OK Pleased to meet you"),
            String::from("ERR 83886179 operation cancelled"),
        ]
    );
}

#[test]
fn session_without_picker_outcomes_treats_secret_as_cancelled() {
    let lines = vec![String::from("GETPIN")];
    let out = run_session(&lines, &vec![]);
    assert_eq!(
        encoded(&out),
        vec![
            String::from("OK Pleased to meet you"),
            String::from("ERR 83886179 operation cancelled"),
        ]
    );
}
