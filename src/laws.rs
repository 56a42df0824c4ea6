use vstd::prelude::*;
use crate::command::{
    connect_outcome, expected, invalid_room_msg, is_keyword, keyword_of, args_of, no_args_msg,
    unknown_msg, CommandView, Endpoint, Expected,
};
use crate::error::ErrorKind;
use crate::room::valid_room_name;

verus! {

/// How many arguments a recognised keyword takes.
pub open spec fn arity(k: Seq<char>) -> nat {
    if k == "connect"@ || k == "create"@ || k == "delete"@ || k == "join"@ {
        1
    } else {
        0
    }
}

/// The keywords of commands that take a room name.
pub open spec fn is_room_keyword(k: Seq<char>) -> bool {
    k == "create"@ || k == "delete"@ || k == "join"@
}

/// The eight keywords are pairwise different texts.
proof fn lemma_keywords_distinct()
    ensures
        "connect"@ != "disconnect"@,
        "connect"@ != "create"@,
        "connect"@ != "delete"@,
        "connect"@ != "join"@,
        "connect"@ != "leave"@,
        "connect"@ != "exit"@,
        "connect"@ != "help"@,
        "disconnect"@ != "create"@,
        "disconnect"@ != "delete"@,
        "disconnect"@ != "join"@,
        "disconnect"@ != "leave"@,
        "disconnect"@ != "exit"@,
        "disconnect"@ != "help"@,
        "create"@ != "delete"@,
        "create"@ != "join"@,
        "create"@ != "leave"@,
        "create"@ != "exit"@,
        "create"@ != "help"@,
        "delete"@ != "join"@,
        "delete"@ != "leave"@,
        "delete"@ != "exit"@,
        "delete"@ != "help"@,
        "join"@ != "leave"@,
        "join"@ != "exit"@,
        "join"@ != "help"@,
        "leave"@ != "exit"@,
        "leave"@ != "help"@,
        "exit"@ != "help"@,
{
    reveal_strlit("connect");
    reveal_strlit("disconnect");
    reveal_strlit("create");
    reveal_strlit("delete");
    reveal_strlit("join");
    reveal_strlit("leave");
    reveal_strlit("exit");
    reveal_strlit("help");
    assert("connect"@.len() == 7);
    assert("disconnect"@.len() == 10);
    assert("create"@.len() == 6);
    assert("delete"@.len() == 6);
    assert("join"@.len() == 4);
    assert("leave"@.len() == 5);
    assert("exit"@.len() == 4);
    assert("help"@.len() == 4);
    assert("create"@[0] != "delete"@[0]);
    assert("join"@[0] != "exit"@[0]);
    assert("join"@[0] != "help"@[0]);
    assert("exit"@[0] != "help"@[0]);
}

/// A recognised keyword with the wrong number of arguments is always an
/// arity error: missing arguments when there are fewer than it takes, too
/// many otherwise; never an unknown command and never an invalid argument.
pub proof fn wrong_arity_is_arity_error(line: Seq<char>)
    requires
        keyword_of(line) is Some,
        is_keyword(keyword_of(line)->0),
        args_of(line).len() != arity(keyword_of(line)->0),
    ensures
        expected(line) matches Expected::Done(Err((kind, _))) && kind == (if args_of(line).len()
            < arity(keyword_of(line)->0) {
            ErrorKind::CommandMissingArgs
        } else {
            ErrorKind::CommandTooManyArgs
        }),
{
    lemma_keywords_distinct();
}

/// A blank line, or one whose keyword is not recognised, is an unknown
/// command whatever its arguments.
pub proof fn unrecognised_is_unknown(line: Seq<char>)
    requires
        keyword_of(line) is None || !is_keyword(keyword_of(line)->0),
    ensures
        expected(line) == Expected::Done(Err((ErrorKind::CommandUnknown, unknown_msg()))),
{
}

/// A room command with its one argument is accepted exactly when that
/// argument is a valid room name; otherwise it is an invalid argument.
pub proof fn room_name_decides(line: Seq<char>)
    requires
        keyword_of(line) is Some,
        is_room_keyword(keyword_of(line)->0),
        args_of(line).len() == 1,
    ensures
        valid_room_name(args_of(line)[0]) ==> (expected(line) matches Expected::Done(Ok(c)) && c.wf()),
        !valid_room_name(args_of(line)[0]) ==> expected(line) == Expected::Done(
            Err((ErrorKind::CommandInvalidArgs, invalid_room_msg())),
        ),
{
    lemma_keywords_distinct();
}

/// `connect` with one argument is decided by the address parse alone: the
/// argument goes to the parser, an address gives the command to connect to
/// it, and anything the parser refuses is an invalid argument.
pub proof fn connect_decided_by_address(line: Seq<char>, parsed: Result<Endpoint, String>)
    requires
        keyword_of(line) == Some("connect"@),
        args_of(line).len() == 1,
    ensures
        expected(line) == Expected::Address(args_of(line)[0]),
        parsed is Ok ==> connect_outcome(parsed) == Ok::<CommandView, (ErrorKind, Seq<char>)>(
            CommandView::ConnectServer(parsed->Ok_0),
        ),
        parsed is Err ==> (connect_outcome(parsed) matches Err((kind, _)) && kind
            == ErrorKind::CommandInvalidArgs),
{
    lemma_keywords_distinct();
}

/// A command that takes no argument refuses any argument at all, a single
/// empty one included, as too many arguments.
pub proof fn no_arg_command_refuses_arguments(line: Seq<char>)
    requires
        keyword_of(line) is Some,
        is_keyword(keyword_of(line)->0),
        arity(keyword_of(line)->0) == 0,
        args_of(line).len() > 0,
    ensures
        expected(line) == Expected::Done(Err((ErrorKind::CommandTooManyArgs, no_args_msg()))),
{
    lemma_keywords_distinct();
}

} // verus!
