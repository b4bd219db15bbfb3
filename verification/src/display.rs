//! The text that the client prints for what it receives, and for a failed
//! connection.

use vstd::prelude::*;

use crate::proto::{ServerMsg, SpecServerMsg};

verus! {

/// The line printed for a server message, ending in `\r\n`.
pub open spec fn shown(m: SpecServerMsg) -> Seq<char> {
    match m {
        SpecServerMsg::Message { from, text } => from + ": "@ + text + "\r\n"@,
        SpecServerMsg::Welcome { username } => "connected as "@ + username
            + ". commands: send <MSG>, leave\r\n"@,
        SpecServerMsg::UsernameTaken { username } => "error: username '"@ + username
            + "' is taken\r\n"@,
        SpecServerMsg::UserJoined { username } => "*** "@ + username + " joined\r\n"@,
        SpecServerMsg::UserLeft { username } => "*** "@ + username + " left\r\n"@,
        SpecServerMsg::Error { reason } => "server error: "@ + reason + "\r\n"@,
    }
}

/// `a`, then `b`, then `c`.
fn join3(a: &str, b: &str, c: &str) -> (r: String)
    ensures
        r@ == a@ + b@ + c@,
{
    let mut r = String::new();
    r.append(a);
    r.append(b);
    r.append(c);
    assert(r@ =~= a@ + b@ + c@);
    r
}

/// The line the client prints for a message from the server.
pub fn format_server_msg(msg: &ServerMsg) -> (r: String)
    ensures
        r@ == shown(msg@),
{
    match msg {
        ServerMsg::Message { from, text } => {
            let mut r = join3(from.as_str(), ": ", text.as_str());
            r.append("\r\n");
            r
        },
        ServerMsg::Welcome { username } => join3(
            "connected as ",
            username.as_str(),
            ". commands: send <MSG>, leave\r\n",
        ),
        ServerMsg::UsernameTaken { username } => join3(
            "error: username '",
            username.as_str(),
            "' is taken\r\n",
        ),
        ServerMsg::UserJoined { username } => join3("*** ", username.as_str(), " joined\r\n"),
        ServerMsg::UserLeft { username } => join3("*** ", username.as_str(), " left\r\n"),
        ServerMsg::Error { reason } => join3("server error: ", reason.as_str(), "\r\n"),
    }
}

/// Why the client could not connect, as far as the message shows it.
#[derive(Debug, Clone, PartialEq, Eq)]
pub enum ConnectFailure {
    /// The server refused the TCP connection.
    Refused,
    /// The server answered the handshake with an HTTP error; `status` is the
    /// status as displayed (code and reason).
    Rejected { status: String },
    /// Anything else; `detail` is the error as displayed.
    Other { detail: String },
}

/// The message printed for a failed connection.
pub open spec fn connect_error_text(f: ConnectFailure) -> Seq<char> {
    match f {
        ConnectFailure::Refused => "error: connection refused \u{2014} is the server running?"@,
        ConnectFailure::Rejected { status } => "error: server rejected connection (HTTP "@
            + status@ + ")"@,
        ConnectFailure::Other { detail } => "error: "@ + detail@,
    }
}

/// Describes a failed connection attempt.
pub fn format_connect_error(e: &ConnectFailure) -> (r: String)
    ensures
        r@ == connect_error_text(*e),
{
    match e {
        ConnectFailure::Refused => "error: connection refused \u{2014} is the server running?".to_owned(),
        ConnectFailure::Rejected { status } => join3(
            "error: server rejected connection (HTTP ",
            status.as_str(),
            ")",
        ),
        ConnectFailure::Other { detail } => {
            let mut r = "error: ".to_owned();
            r.append(detail.as_str());
            r
        },
    }
}

/// What arrived on the connection to the server.
#[derive(Debug, PartialEq, Eq)]
pub enum Received {
    /// A text frame.
    Text(String),
    /// A close frame.
    Close,
    /// The connection was already closed.
    ConnectionClosed,
    /// The server went away without the closing handshake.
    ResetWithoutHandshake,
    /// Any other frame (binary, ping, pong).
    OtherFrame,
    /// Any other error.
    Failed,
}

/// What the client does with what arrived.
#[derive(Debug, PartialEq, Eq)]
pub enum Reaction {
    /// Decode and print this text.
    Show(String),
    /// Nothing.
    Ignore,
    /// Stop reading, without an error.
    Stop,
    /// Stop reading, with the error.
    Fail,
}

/// The value of a [`Received`].
pub enum SpecReceived {
    Text(Seq<char>),
    Close,
    ConnectionClosed,
    ResetWithoutHandshake,
    OtherFrame,
    Failed,
}

/// The value of a [`Reaction`].
pub enum SpecReaction {
    Show(Seq<char>),
    Ignore,
    Stop,
    Fail,
}

impl View for Received {
    type V = SpecReceived;

    open spec fn view(&self) -> SpecReceived {
        match self {
            Received::Text(t) => SpecReceived::Text(t@),
            Received::Close => SpecReceived::Close,
            Received::ConnectionClosed => SpecReceived::ConnectionClosed,
            Received::ResetWithoutHandshake => SpecReceived::ResetWithoutHandshake,
            Received::OtherFrame => SpecReceived::OtherFrame,
            Received::Failed => SpecReceived::Failed,
        }
    }
}

impl View for Reaction {
    type V = SpecReaction;

    open spec fn view(&self) -> SpecReaction {
        match self {
            Reaction::Show(t) => SpecReaction::Show(t@),
            Reaction::Ignore => SpecReaction::Ignore,
            Reaction::Stop => SpecReaction::Stop,
            Reaction::Fail => SpecReaction::Fail,
        }
    }
}

/// Text is shown; a close, an already closed connection or a reset ends the
/// session quietly; other frames are skipped; other errors end it with the
/// error.
pub open spec fn reaction_of(r: SpecReceived) -> SpecReaction {
    match r {
        SpecReceived::Text(t) => SpecReaction::Show(t),
        SpecReceived::Close => SpecReaction::Stop,
        SpecReceived::ConnectionClosed => SpecReaction::Stop,
        SpecReceived::ResetWithoutHandshake => SpecReaction::Stop,
        SpecReceived::OtherFrame => SpecReaction::Ignore,
        SpecReceived::Failed => SpecReaction::Fail,
    }
}

/// Decides what the client does with what arrived from the server.
pub fn react(received: Received) -> (r: Reaction)
    ensures
        r@ == reaction_of(received@),
{
    match received {
        Received::Text(t) => Reaction::Show(t),
        Received::Close | Received::ConnectionClosed | Received::ResetWithoutHandshake => {
            Reaction::Stop
        },
        Received::OtherFrame => Reaction::Ignore,
        Received::Failed => Reaction::Fail,
    }
}

/// The terminal escape that moves to the start of the line and clears it.
pub open spec fn clear_line() -> Seq<char> {
    "\r\x1b[2K"@
}

/// What the client writes to the terminal when something arrives: the
/// prompt line is cleared, the message (if it could be read) is printed, and
/// what the user had typed is written again.
pub fn redraw(msg: Option<&ServerMsg>, typed: &str) -> (r: String)
    ensures
        r@ == clear_line() + (match msg {
            Some(m) => shown(m@),
            None => Seq::empty(),
        }) + typed@,
{
    let mut r = "\r\x1b[2K".to_owned();
    match msg {
        Some(m) => {
            let line = format_server_msg(m);
            r.append(line.as_str());
        },
        None => {},
    }
    r.append(typed);
    assert(r@ =~= clear_line() + (match msg {
        Some(m) => shown(m@),
        None => Seq::empty(),
    }) + typed@);
    r
}

/// For every user, the client prints `*** <name> joined` when the user
/// joins and `*** <name> left` when the user leaves, and the two lines are
/// never the same.
pub proof fn law_join_and_leave_lines(u: Seq<char>)
    ensures
        shown(SpecServerMsg::UserJoined { username: u }) == "*** "@ + u + " joined\r\n"@,
        shown(SpecServerMsg::UserLeft { username: u }) == "*** "@ + u + " left\r\n"@,
        shown(SpecServerMsg::UserJoined { username: u }) != shown(
            SpecServerMsg::UserLeft { username: u },
        ),
{
    reveal_strlit("*** ");
    reveal_strlit(" joined\r\n");
    reveal_strlit(" left\r\n");
    assert(shown(SpecServerMsg::UserJoined { username: u }).len() != shown(
        SpecServerMsg::UserLeft { username: u },
    ).len());
}

/// For every sender and text, a chat message is printed as the sender, a
/// colon and a space, then the text exactly, then the end of the line.
pub proof fn law_message_line(from: Seq<char>, text: Seq<char>)
    ensures
        shown(SpecServerMsg::Message { from, text }) == from + ": "@ + text + "\r\n"@,
{
}

/// For every name and reason, the welcome, the refusal of a taken name and a
/// server error are printed as these lines.
pub proof fn law_notice_lines(u: Seq<char>, reason: Seq<char>)
    ensures
        shown(SpecServerMsg::Welcome { username: u }) == "connected as "@ + u
            + ". commands: send <MSG>, leave\r\n"@,
        shown(SpecServerMsg::UsernameTaken { username: u }) == "error: username '"@ + u
            + "' is taken\r\n"@,
        shown(SpecServerMsg::Error { reason }) == "server error: "@ + reason + "\r\n"@,
{
}

} // verus!
