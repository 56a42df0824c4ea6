use vstd::prelude::*;
use crate::error::{ChatError, ErrorKind};
use crate::room::{is_valid_room_name, valid_room_name};
use crate::text::{decimal, decimal_string, only_spaces, same_text, split_spaces, tokenize, views};

verus! {

/// A server's network address, held as plain numbers.
#[derive(Clone, Copy, Debug, PartialEq, Eq, Structural)]
pub enum Endpoint {
    /// An IPv4 address, its four octets big-endian in `ip4`, and a port.
    V4 { ip4: u32, port: u16 },
    /// An IPv6 address, its sixteen octets big-endian in `ip6`, a port, and the
    /// flow label and scope that the address text may carry.
    V6 { ip6: u128, port: u16, flowinfo: u32, scope_id: u32 },
}

/// A validated user request. Room payloads are always valid room names.
#[derive(Clone, Debug, PartialEq, Eq)]
pub enum Command {
    ConnectServer(Endpoint),
    DisconnectServer,
    CreateRoom(String),
    DeleteRoom(String),
    JoinRoom(String),
    LeaveRoom,
    Exit,
    Help,
}

/// A `Command` with its strings seen as character sequences.
pub enum CommandView {
    ConnectServer(Endpoint),
    DisconnectServer,
    CreateRoom(Seq<char>),
    DeleteRoom(Seq<char>),
    JoinRoom(Seq<char>),
    LeaveRoom,
    Exit,
    Help,
}

impl View for Command {
    type V = CommandView;

    open spec fn view(&self) -> CommandView {
        match self {
            Command::ConnectServer(e) => CommandView::ConnectServer(*e),
            Command::DisconnectServer => CommandView::DisconnectServer,
            Command::CreateRoom(n) => CommandView::CreateRoom(n@),
            Command::DeleteRoom(n) => CommandView::DeleteRoom(n@),
            Command::JoinRoom(n) => CommandView::JoinRoom(n@),
            Command::LeaveRoom => CommandView::LeaveRoom,
            Command::Exit => CommandView::Exit,
            Command::Help => CommandView::Help,
        }
    }
}

impl CommandView {
    /// Every room name that the command carries is valid.
    pub open spec fn wf(self) -> bool {
        match self {
            CommandView::CreateRoom(n) => valid_room_name(n),
            CommandView::DeleteRoom(n) => valid_room_name(n),
            CommandView::JoinRoom(n) => valid_room_name(n),
            _ => true,
        }
    }
}

/// A rejection as kind and message text.
pub type Rejection = (ErrorKind, Seq<char>);

pub open spec fn unknown_msg() -> Seq<char> {
    "Command unknown or doesn't exist"@
}

pub open spec fn missing_room_msg() -> Seq<char> {
    "Missing argument for room name"@
}

pub open spec fn missing_address_msg() -> Seq<char> {
    "Missing argument for server address"@
}

pub open spec fn no_args_msg() -> Seq<char> {
    "Command does not need arguments"@
}

pub open spec fn invalid_room_msg() -> Seq<char> {
    "Invalid room name, use alphanumeric characters only"@
}

pub open spec fn too_many_msg(n: nat) -> Seq<char> {
    "Too many arguments. Needed: 1, Got: "@ + decimal(n)
}

/// The arity check of a command that takes no argument.
pub open spec fn no_arg_check(args: Seq<Seq<char>>) -> Option<Rejection> {
    if args.len() != 0 {
        Some((ErrorKind::CommandTooManyArgs, no_args_msg()))
    } else {
        None
    }
}

/// The arity check of a command that takes exactly one argument; `missing` is
/// the message given when there is none.
pub open spec fn one_arg_check(args: Seq<Seq<char>>, missing: Seq<char>) -> Option<Rejection> {
    if args.len() == 0 {
        Some((ErrorKind::CommandMissingArgs, missing))
    } else if args.len() > 1 {
        Some((ErrorKind::CommandTooManyArgs, too_many_msg(args.len())))
    } else {
        None
    }
}

/// The full check of a room command: arity first, then the name.
pub open spec fn room_check(args: Seq<Seq<char>>) -> Option<Rejection> {
    if one_arg_check(args, missing_room_msg()) is Some {
        one_arg_check(args, missing_room_msg())
    } else if !valid_room_name(args[0]) {
        Some((ErrorKind::CommandInvalidArgs, invalid_room_msg()))
    } else {
        None
    }
}

/// What a command that takes no argument answers.
pub open spec fn no_arg_outcome(args: Seq<Seq<char>>, cmd: CommandView) -> Result<
    CommandView,
    Rejection,
> {
    match no_arg_check(args) {
        Some(e) => Err(e),
        None => Ok(cmd),
    }
}

/// What a room command answers; `make` builds the command from the name.
pub open spec fn room_outcome(
    args: Seq<Seq<char>>,
    make: spec_fn(Seq<char>) -> CommandView,
) -> Result<CommandView, Rejection> {
    match room_check(args) {
        Some(e) => Err(e),
        None => Ok(make(args[0])),
    }
}

/// Whether `e` has kind `k` and message `m`.
pub open spec fn error_is(e: ChatError, r: Rejection) -> bool {
    e.kind == r.0 && e.msg@ == r.1
}

/// Whether the result `r` is the answer `o`.
pub open spec fn answers(r: Result<Command, ChatError>, o: Result<CommandView, Rejection>) -> bool {
    match o {
        Ok(c) => r is Ok && r->Ok_0@ == c,
        Err(e) => r is Err && error_is(r->Err_0, e),
    }
}

/// The answer of `connect` to the outcome of parsing its address.
pub open spec fn connect_outcome(parsed: Result<Endpoint, String>) -> Result<CommandView, Rejection> {
    match parsed {
        Ok(e) => Ok(CommandView::ConnectServer(e)),
        Err(m) => Err((ErrorKind::CommandInvalidArgs, m@)),
    }
}

/// Whether `r` is what `connect` answers for the single argument `a`, when
/// `parse` reads addresses: the command built from an address that `parse`
/// returned for `a`, or an invalid-argument error with the message that
/// `parse` returned for `a`.
pub open spec fn connect_answers<F: Fn(String) -> Result<Endpoint, String>>(
    r: Result<Command, ChatError>,
    a: Seq<char>,
    parse: F,
) -> bool {
    exists|s: String, p: Result<Endpoint, String>|
        s@ == a && #[trigger] parse.ensures((s,), p) && answers(r, connect_outcome(p))
}

/// Everything but the address parse: what a line is answered with, or the
/// address text that decides it.
pub enum Expected {
    Done(Result<CommandView, Rejection>),
    Address(Seq<char>),
}

/// The keyword of a line, absent on a blank line.
pub open spec fn keyword_of(line: Seq<char>) -> Option<Seq<char>> {
    if only_spaces(line) {
        None
    } else {
        Some(split_spaces(line)[0])
    }
}

/// The arguments of a line that is not blank.
pub open spec fn args_of(line: Seq<char>) -> Seq<Seq<char>> {
    split_spaces(line).drop_first()
}

/// The recognised keywords.
pub open spec fn is_keyword(k: Seq<char>) -> bool {
    k == "connect"@ || k == "disconnect"@ || k == "create"@ || k == "delete"@ || k == "join"@
        || k == "leave"@ || k == "exit"@ || k == "help"@
}

/// What the keyword `k` with arguments `args` is answered with.
pub open spec fn expected_for(k: Seq<char>, args: Seq<Seq<char>>) -> Expected {
    if k == "connect"@ {
        match one_arg_check(args, missing_address_msg()) {
            Some(e) => Expected::Done(Err(e)),
            None => Expected::Address(args[0]),
        }
    } else if k == "disconnect"@ {
        Expected::Done(no_arg_outcome(args, CommandView::DisconnectServer))
    } else if k == "create"@ {
        Expected::Done(room_outcome(args, |n: Seq<char>| CommandView::CreateRoom(n)))
    } else if k == "delete"@ {
        Expected::Done(room_outcome(args, |n: Seq<char>| CommandView::DeleteRoom(n)))
    } else if k == "join"@ {
        Expected::Done(room_outcome(args, |n: Seq<char>| CommandView::JoinRoom(n)))
    } else if k == "leave"@ {
        Expected::Done(no_arg_outcome(args, CommandView::LeaveRoom))
    } else if k == "exit"@ {
        Expected::Done(no_arg_outcome(args, CommandView::Exit))
    } else if k == "help"@ {
        Expected::Done(no_arg_outcome(args, CommandView::Help))
    } else {
        Expected::Done(Err((ErrorKind::CommandUnknown, unknown_msg())))
    }
}

/// What a whole line is answered with.
pub open spec fn expected(line: Seq<char>) -> Expected {
    match keyword_of(line) {
        None => Expected::Done(Err((ErrorKind::CommandUnknown, unknown_msg()))),
        Some(k) => expected_for(k, args_of(line)),
    }
}

fn reject(kind: ErrorKind, msg: &str) -> (r: ChatError)
    ensures
        r.kind == kind,
        r.msg@ == msg@,
{
    ChatError::new(kind, String::from_str(msg))
}

fn too_many(n: usize) -> (r: ChatError)
    ensures
        error_is(r, (ErrorKind::CommandTooManyArgs, too_many_msg(n as nat))),
{
    let mut msg = String::from_str("Too many arguments. Needed: 1, Got: ");
    let count = decimal_string(n);
    msg.append(count.as_str());
    ChatError::new(ErrorKind::CommandTooManyArgs, msg)
}

fn check_no_args(args: &Vec<String>) -> (r: Option<ChatError>)
    ensures
        match no_arg_check(views(args@)) {
            Some(e) => r is Some && error_is(r->0, e),
            None => r is None,
        },
{
    if args.len() != 0 {
        Some(reject(ErrorKind::CommandTooManyArgs, "Command does not need arguments"))
    } else {
        None
    }
}

fn check_one_arg(args: &Vec<String>, missing: &str) -> (r: Option<ChatError>)
    ensures
        match one_arg_check(views(args@), missing@) {
            Some(e) => r is Some && error_is(r->0, e),
            None => r is None,
        },
{
    if args.len() == 0 {
        Some(reject(ErrorKind::CommandMissingArgs, missing))
    } else if args.len() > 1 {
        Some(too_many(args.len()))
    } else {
        None
    }
}

/// The single argument of a room command, once its count and its
/// characters have been checked.
fn room_arg(args: &Vec<String>) -> (r: Result<String, ChatError>)
    ensures
        match room_check(views(args@)) {
            Some(e) => r is Err && error_is(r->Err_0, e),
            None => r is Ok && r->Ok_0@ == args@[0]@,
        },
{
    match check_one_arg(args, "Missing argument for room name") {
        Some(e) => Err(e),
        None => {
            assert(views(args@)[0] == args@[0]@);
            if !is_valid_room_name(args[0].as_str()) {
                Err(
                    reject(
                        ErrorKind::CommandInvalidArgs,
                        "Invalid room name, use alphanumeric characters only",
                    ),
                )
            } else {
                Ok(args[0].clone())
            }
        },
    }
}

impl Command {
    /// `connect` once its address has been parsed: the command on an address,
    /// the parser's message as an invalid-argument error otherwise.
    pub fn connect_with(parsed: Result<Endpoint, String>) -> (r: Result<Command, ChatError>)
        ensures
            answers(r, connect_outcome(parsed)),
    {
        match parsed {
            Ok(e) => Ok(Command::ConnectServer(e)),
            Err(m) => Err(ChatError::new(ErrorKind::CommandInvalidArgs, m)),
        }
    }

    /// `connect <address>`: exactly one argument, which `parse` must accept.
    pub fn parse_connect_server<F: Fn(String) -> Result<Endpoint, String>>(
        args: &Vec<String>,
        parse: &F,
    ) -> (r: Result<Command, ChatError>)
        requires
            forall|s: String| #[trigger] parse.requires((s,)),
        ensures
            match one_arg_check(views(args@), missing_address_msg()) {
                Some(e) => r is Err && error_is(r->Err_0, e),
                None => connect_answers(r, args@[0]@, *parse),
            },
    {
        match check_one_arg(args, "Missing argument for server address") {
            Some(e) => Err(e),
            None => {
                let s = args[0].clone();
                let ghost sv = s@;
                assert(sv == views(args@)[0]);
                let p = parse(s);
                let r = Self::connect_with(p);
                r
            },
        }
    }

    /// `disconnect`, which takes no argument.
    pub fn parse_disconnect_server(args: &Vec<String>) -> (r: Result<Command, ChatError>)
        ensures
            answers(r, no_arg_outcome(views(args@), CommandView::DisconnectServer)),
    {
        match check_no_args(args) {
            Some(e) => Err(e),
            None => Ok(Command::DisconnectServer),
        }
    }

    /// `create <room>`.
    pub fn parse_create_room(args: &Vec<String>) -> (r: Result<Command, ChatError>)
        ensures
            answers(r, room_outcome(views(args@), |n: Seq<char>| CommandView::CreateRoom(n))),
    {
        match room_arg(args) {
            Err(e) => Err(e),
            Ok(name) => Ok(Command::CreateRoom(name)),
        }
    }

    /// `delete <room>`.
    pub fn parse_delete_room(args: &Vec<String>) -> (r: Result<Command, ChatError>)
        ensures
            answers(r, room_outcome(views(args@), |n: Seq<char>| CommandView::DeleteRoom(n))),
    {
        match room_arg(args) {
            Err(e) => Err(e),
            Ok(name) => Ok(Command::DeleteRoom(name)),
        }
    }

    /// `join <room>`.
    pub fn parse_join_room(args: &Vec<String>) -> (r: Result<Command, ChatError>)
        ensures
            answers(r, room_outcome(views(args@), |n: Seq<char>| CommandView::JoinRoom(n))),
    {
        match room_arg(args) {
            Err(e) => Err(e),
            Ok(name) => Ok(Command::JoinRoom(name)),
        }
    }

    /// `leave`, which takes no argument.
    pub fn parse_leave_room(args: &Vec<String>) -> (r: Result<Command, ChatError>)
        ensures
            answers(r, no_arg_outcome(views(args@), CommandView::LeaveRoom)),
    {
        match check_no_args(args) {
            Some(e) => Err(e),
            None => Ok(Command::LeaveRoom),
        }
    }

    /// `exit`, which takes no argument.
    pub fn parse_exit(args: &Vec<String>) -> (r: Result<Command, ChatError>)
        ensures
            answers(r, no_arg_outcome(views(args@), CommandView::Exit)),
    {
        match check_no_args(args) {
            Some(e) => Err(e),
            None => Ok(Command::Exit),
        }
    }

    /// `help`, which takes no argument.
    pub fn parse_help(args: &Vec<String>) -> (r: Result<Command, ChatError>)
        ensures
            answers(r, no_arg_outcome(views(args@), CommandView::Help)),
    {
        match check_no_args(args) {
            Some(e) => Err(e),
            None => Ok(Command::Help),
        }
    }

    /// Reads one line typed by the user. `parse` reads the address of
    /// `connect`; every other outcome is fixed by the line alone.
    pub fn parse_command<F: Fn(String) -> Result<Endpoint, String>>(input: &str, parse: &F) -> (r:
        Result<Command, ChatError>)
        requires
            forall|s: String| #[trigger] parse.requires((s,)),
        ensures
            match expected(input@) {
                Expected::Done(o) => answers(r, o),
                Expected::Address(a) => connect_answers(r, a, *parse),
            },
            r is Ok ==> r->Ok_0@.wf(),
            r is Err ==> r->Err_0.kind.is_parse_error(),
    {
        let tokens = tokenize(input);
        let args = tokens.args;
        match tokens.keyword {
            None => Err(reject(ErrorKind::CommandUnknown, "Command unknown or doesn't exist")),
            Some(k) => {
                let k = k.as_str();
                if same_text(k, "connect") {
                    Self::parse_connect_server(&args, parse)
                } else if same_text(k, "disconnect") {
                    Self::parse_disconnect_server(&args)
                } else if same_text(k, "create") {
                    Self::parse_create_room(&args)
                } else if same_text(k, "delete") {
                    Self::parse_delete_room(&args)
                } else if same_text(k, "join") {
                    Self::parse_join_room(&args)
                } else if same_text(k, "leave") {
                    Self::parse_leave_room(&args)
                } else if same_text(k, "exit") {
                    Self::parse_exit(&args)
                } else if same_text(k, "help") {
                    Self::parse_help(&args)
                } else {
                    Err(reject(ErrorKind::CommandUnknown, "Command unknown or doesn't exist"))
                }
            },
        }
    }
}

} // verus!
