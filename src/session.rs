use vstd::prelude::*;
use crate::command::{error_is, Command, CommandView, Rejection};
use crate::error::{ChatError, ErrorKind};

verus! {

/// Where a client session stands.
#[derive(Clone, Debug, PartialEq, Eq)]
pub enum SessionState {
    Disconnected,
    Connected,
    InRoom(String),
}

/// A `SessionState` with the room name seen as characters.
pub enum SessionView {
    Disconnected,
    Connected,
    InRoom(Seq<char>),
}

impl View for SessionState {
    type V = SessionView;

    open spec fn view(&self) -> SessionView {
        match self {
            SessionState::Disconnected => SessionView::Disconnected,
            SessionState::Connected => SessionView::Connected,
            SessionState::InRoom(n) => SessionView::InRoom(n@),
        }
    }
}

/// How the transport answered the work that a command asked of it.
#[derive(Clone, Copy, Debug, PartialEq, Eq, Structural)]
pub enum Report {
    Done,
    Unreachable,
    RoomMissing,
    RoomTaken,
}

pub open spec fn already_connected_msg() -> Seq<char> {
    "Already connected to a server"@
}

pub open spec fn not_connected_msg() -> Seq<char> {
    "Not connected to a server"@
}

pub open spec fn not_in_room_msg() -> Seq<char> {
    "Not in a room"@
}

/// Whether `c` may be carried out in state `s`, and if not, why.
pub open spec fn admission(s: SessionView, c: CommandView) -> Option<Rejection> {
    match c {
        CommandView::ConnectServer(_) => match s {
            SessionView::Disconnected => None,
            _ => Some((ErrorKind::ConnectFailed, already_connected_msg())),
        },
        CommandView::CreateRoom(_) | CommandView::DeleteRoom(_) | CommandView::JoinRoom(_) => {
            match s {
                SessionView::Disconnected => Some((ErrorKind::ConnectFailed, not_connected_msg())),
                _ => None,
            }
        },
        CommandView::LeaveRoom => match s {
            SessionView::InRoom(_) => None,
            _ => Some((ErrorKind::RoomDoesntExist, not_in_room_msg())),
        },
        _ => None,
    }
}

/// The error that a failed report stands for.
pub open spec fn report_error(r: Report) -> Rejection {
    match r {
        Report::Unreachable => (ErrorKind::ConnectFailed, "Could not reach the server"@),
        Report::RoomMissing => (ErrorKind::RoomDoesntExist, "Room does not exist"@),
        _ => (ErrorKind::RoomAlreadyExists, "Room already exists"@),
    }
}

/// The state after `c` was carried out in `s` with report `r`: a refused
/// command or a failed report leaves the state as it was and gives an error.
pub open spec fn transition(s: SessionView, c: CommandView, r: Report) -> Result<
    SessionView,
    Rejection,
> {
    if admission(s, c) is Some {
        Err(admission(s, c)->0)
    } else if r != Report::Done {
        Err(report_error(r))
    } else {
        match c {
            CommandView::ConnectServer(_) => Ok(SessionView::Connected),
            CommandView::DisconnectServer => Ok(SessionView::Disconnected),
            CommandView::JoinRoom(n) => Ok(SessionView::InRoom(n)),
            CommandView::LeaveRoom => Ok(SessionView::Connected),
            CommandView::Exit => Ok(SessionView::Disconnected),
            _ => Ok(s),
        }
    }
}

impl SessionState {
    /// Whether `cmd` may be carried out now; the error if not. Asked before
    /// any work is handed to the transport.
    pub fn check_allowed(&self, cmd: &Command) -> (r: Option<ChatError>)
        ensures
            match admission(self@, cmd@) {
                Some(e) => r is Some && error_is(r->0, e),
                None => r is None,
            },
    {
        let connected = match self {
            SessionState::Disconnected => false,
            _ => true,
        };
        match cmd {
            Command::ConnectServer(_) => if connected {
                Some(
                    ChatError::new(
                        ErrorKind::ConnectFailed,
                        String::from_str("Already connected to a server"),
                    ),
                )
            } else {
                None
            },
            Command::CreateRoom(_) | Command::DeleteRoom(_) | Command::JoinRoom(_) => if connected {
                None
            } else {
                Some(
                    ChatError::new(
                        ErrorKind::ConnectFailed,
                        String::from_str("Not connected to a server"),
                    ),
                )
            },
            Command::LeaveRoom => match self {
                SessionState::InRoom(_) => None,
                _ => Some(
                    ChatError::new(ErrorKind::RoomDoesntExist, String::from_str("Not in a room")),
                ),
            },
            _ => None,
        }
    }

    /// The next state once the transport has reported on `cmd`.
    pub fn settle(&self, cmd: &Command, report: Report) -> (r: Result<SessionState, ChatError>)
        ensures
            match transition(self@, cmd@, report) {
                Ok(s) => r is Ok && r->Ok_0@ == s,
                Err(e) => r is Err && error_is(r->Err_0, e),
            },
    {
        if let Some(e) = self.check_allowed(cmd) {
            return Err(e);
        }
        match report {
            Report::Done => {},
            Report::Unreachable => {
                return Err(
                    ChatError::new(
                        ErrorKind::ConnectFailed,
                        String::from_str("Could not reach the server"),
                    ),
                );
            },
            Report::RoomMissing => {
                return Err(
                    ChatError::new(ErrorKind::RoomDoesntExist, String::from_str("Room does not exist")),
                );
            },
            Report::RoomTaken => {
                return Err(
                    ChatError::new(
                        ErrorKind::RoomAlreadyExists,
                        String::from_str("Room already exists"),
                    ),
                );
            },
        }
        match cmd {
            Command::ConnectServer(_) => Ok(SessionState::Connected),
            Command::DisconnectServer => Ok(SessionState::Disconnected),
            Command::JoinRoom(n) => Ok(SessionState::InRoom(n.clone())),
            Command::LeaveRoom => Ok(SessionState::Connected),
            Command::Exit => Ok(SessionState::Disconnected),
            _ => Ok(
                match self {
                    SessionState::Disconnected => SessionState::Disconnected,
                    SessionState::Connected => SessionState::Connected,
                    SessionState::InRoom(n) => SessionState::InRoom(n.clone()),
                },
            ),
        }
    }
}

} // verus!
