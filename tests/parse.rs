use rusty_chat_client::command::{Command, Endpoint};
use rusty_chat_client::error::{ChatError, ErrorKind};
use rusty_chat_client::room::is_valid_room_name;
use rusty_chat_client::text::{decimal_string, same_text, split_spaces_exec, tokenize};

/// Reads `a.b.c.d:port`, enough for the addresses these tests use.
fn dotted_quad(s: String) -> Result<Endpoint, String> {
    let bad = || "invalid socket address syntax".to_string();
    let (host, port) = s.rsplit_once(':').ok_or_else(bad)?;
    let port: u16 = port.parse().map_err(|_| bad())?;
    let parts: Vec<&str> = host.split('.').collect();
    if parts.len() != 4 {
        return Err(bad());
    }
    let mut ip4: u32 = 0;
    for p in parts {
        let b: u8 = p.parse().map_err(|_| bad())?;
        ip4 = (ip4 << 8) | b as u32;
    }
    Ok(Endpoint::V4 { ip4, port })
}

fn parse(line: &str) -> Result<Command, ChatError> {
    Command::parse_command(line, &dotted_quad)
}

fn err(kind: ErrorKind, msg: &str) -> Result<Command, ChatError> {
    Err(ChatError::new(kind, msg.to_string()))
}

const UNKNOWN: &str = "Command unknown or doesn't exist";
const NO_ARGS: &str = "Command does not need arguments";
const INVALID_ROOM: &str = "Invalid room name, use alphanumeric characters only";

#[test]
fn join_lobby() {
    assert_eq!(parse("join lobby"), Ok(Command::JoinRoom("lobby".to_string())));
}

#[test]
fn join_with_punctuation_is_invalid() {
    assert_eq!(parse("join lobby!"), err(ErrorKind::CommandInvalidArgs, INVALID_ROOM));
}

#[test]
fn join_without_name_is_missing() {
    assert_eq!(
        parse("join"),
        err(ErrorKind::CommandMissingArgs, "Missing argument for room name")
    );
}

#[test]
fn join_with_two_names_is_too_many() {
    assert_eq!(
        parse("join a b"),
        err(ErrorKind::CommandTooManyArgs, "Too many arguments. Needed: 1, Got: 2")
    );
}

#[test]
fn connect_to_address() {
    assert_eq!(
        parse("connect 127.0.0.1:9000"),
        Ok(Command::ConnectServer(Endpoint::V4 { ip4: 0x7f00_0001, port: 9000 }))
    );
}

#[test]
fn unknown_keyword() {
    assert_eq!(parse("fly away"), err(ErrorKind::CommandUnknown, UNKNOWN));
}

#[test]
fn unknown_keyword_any_arity() {
    assert_eq!(parse("fly"), err(ErrorKind::CommandUnknown, UNKNOWN));
    assert_eq!(parse("fly a b c"), err(ErrorKind::CommandUnknown, UNKNOWN));
    assert_eq!(parse("Join lobby"), err(ErrorKind::CommandUnknown, UNKNOWN));
}

#[test]
fn blank_lines_are_unknown() {
    assert_eq!(parse(""), err(ErrorKind::CommandUnknown, UNKNOWN));
    assert_eq!(parse("   "), err(ErrorKind::CommandUnknown, UNKNOWN));
    assert_eq!(parse(" join lobby"), err(ErrorKind::CommandUnknown, UNKNOWN));
}

#[test]
fn connect_garbage_is_invalid() {
    assert_eq!(
        parse("connect nowhere"),
        err(ErrorKind::CommandInvalidArgs, "invalid socket address syntax")
    );
}

#[test]
fn connect_arity() {
    assert_eq!(
        parse("connect"),
        err(ErrorKind::CommandMissingArgs, "Missing argument for server address")
    );
    assert_eq!(
        parse("connect 1.2.3.4:5 x"),
        err(ErrorKind::CommandTooManyArgs, "Too many arguments. Needed: 1, Got: 2")
    );
}

#[test]
fn parser_result_is_passed_on() {
    let refuse = |_s: String| -> Result<Endpoint, String> { Err("no".to_string()) };
    assert_eq!(
        Command::parse_command("connect 127.0.0.1:9000", &refuse),
        err(ErrorKind::CommandInvalidArgs, "no")
    );
    assert_eq!(
        Command::connect_with(Ok(Endpoint::V4 { ip4: 1, port: 2 })),
        Ok(Command::ConnectServer(Endpoint::V4 { ip4: 1, port: 2 }))
    );
    assert_eq!(
        Command::connect_with(Err("bad".to_string())),
        err(ErrorKind::CommandInvalidArgs, "bad")
    );
}

#[test]
fn room_commands() {
    assert_eq!(parse("create r1"), Ok(Command::CreateRoom("r1".to_string())));
    assert_eq!(parse("delete R2"), Ok(Command::DeleteRoom("R2".to_string())));
    assert_eq!(parse("create a-b"), err(ErrorKind::CommandInvalidArgs, INVALID_ROOM));
    assert_eq!(
        parse("delete"),
        err(ErrorKind::CommandMissingArgs, "Missing argument for room name")
    );
}

#[test]
fn empty_room_name_is_invalid() {
    assert_eq!(parse("join "), err(ErrorKind::CommandInvalidArgs, INVALID_ROOM));
}

#[test]
fn double_space_counts_as_argument() {
    assert_eq!(
        parse("join  lobby"),
        err(ErrorKind::CommandTooManyArgs, "Too many arguments. Needed: 1, Got: 2")
    );
}

#[test]
fn too_many_counts_every_argument() {
    assert_eq!(
        parse("create a b c d e f g h i j k"),
        err(ErrorKind::CommandTooManyArgs, "Too many arguments. Needed: 1, Got: 11")
    );
}

#[test]
fn zero_argument_commands() {
    assert_eq!(parse("disconnect"), Ok(Command::DisconnectServer));
    assert_eq!(parse("leave"), Ok(Command::LeaveRoom));
    assert_eq!(parse("exit"), Ok(Command::Exit));
    assert_eq!(parse("help"), Ok(Command::Help));
    assert_eq!(parse("help me"), err(ErrorKind::CommandTooManyArgs, NO_ARGS));
    assert_eq!(parse("exit now"), err(ErrorKind::CommandTooManyArgs, NO_ARGS));
    assert_eq!(parse("leave x y"), err(ErrorKind::CommandTooManyArgs, NO_ARGS));
    assert_eq!(parse("disconnect 1"), err(ErrorKind::CommandTooManyArgs, NO_ARGS));
    assert_eq!(parse("exit "), err(ErrorKind::CommandTooManyArgs, NO_ARGS));
}

#[test]
fn room_name_rule() {
    assert!(is_valid_room_name("lobby42"));
    assert!(is_valid_room_name("café"));
    assert!(!is_valid_room_name(""));
    assert!(!is_valid_room_name("   "));
    assert!(!is_valid_room_name("a b"));
    assert!(!is_valid_room_name("room!"));
}

#[test]
fn split_keeps_empty_pieces() {
    let p = split_spaces_exec("a  b ");
    assert_eq!(p, vec!["a".to_string(), "".to_string(), "b".to_string(), "".to_string()]);
    assert_eq!(split_spaces_exec(""), vec!["".to_string()]);
}

#[test]
fn tokenize_line() {
    let t = tokenize("join a b");
    assert_eq!(t.keyword, Some("join".to_string()));
    assert_eq!(t.args, vec!["a".to_string(), "b".to_string()]);
    let blank = tokenize("  ");
    assert_eq!(blank.keyword, None);
    assert!(blank.args.is_empty());
}

#[test]
fn decimal_numerals() {
    assert_eq!(decimal_string(0), "0");
    assert_eq!(decimal_string(7), "7");
    assert_eq!(decimal_string(10), "10");
    assert_eq!(decimal_string(4096), "4096");
    assert_eq!(decimal_string(usize::MAX), usize::MAX.to_string());
}

#[test]
fn text_equality() {
    assert!(same_text("join", "join"));
    assert!(!same_text("join", "joins"));
    assert!(!same_text("join", "Join"));
    assert!(same_text("", ""));
}

#[test]
fn chat_error_keeps_fields() {
    let e = ChatError::new(ErrorKind::RoomAlreadyExists, "taken".to_string());
    assert_eq!(e.kind, ErrorKind::RoomAlreadyExists);
    assert_eq!(e.msg, "taken");
}
