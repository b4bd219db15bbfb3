use simple_chat::display::{
    format_connect_error, format_server_msg, react, redraw, ConnectFailure, Reaction, Received,
};
use simple_chat::proto::ServerMsg;

#[test]
fn formats_message() {
    let msg = ServerMsg::Message {
        from: "alice".into(),
        text: "hi there".into(),
    };
    let out = format_server_msg(&msg);
    assert!(out.contains("alice"));
    assert!(out.contains("hi there"));
}

#[test]
fn formats_welcome() {
    let msg = ServerMsg::Welcome {
        username: "bob".into(),
    };
    let out = format_server_msg(&msg);
    assert!(out.contains("bob"));
}

#[test]
fn formats_username_taken() {
    let msg = ServerMsg::UsernameTaken {
        username: "bob".into(),
    };
    let out = format_server_msg(&msg);
    assert!(out.contains("bob"));
    assert!(out.contains("taken"));
}

#[test]
fn formats_user_joined() {
    let msg = ServerMsg::UserJoined {
        username: "carol".into(),
    };
    let out = format_server_msg(&msg);
    assert!(out.contains("carol"));
    assert!(out.contains("joined"));
}

#[test]
fn formats_user_left() {
    let msg = ServerMsg::UserLeft {
        username: "carol".into(),
    };
    let out = format_server_msg(&msg);
    assert!(out.contains("carol"));
    assert!(out.contains("left"));
}

#[test]
fn formats_error() {
    let msg = ServerMsg::Error {
        reason: "internal failure".into(),
    };
    let out = format_server_msg(&msg);
    assert!(out.contains("internal failure"));
}

#[test]
fn formats_each_message_exactly() {
    let cases = vec![
        (
            ServerMsg::Message { from: "alice".into(), text: "hi there".into() },
            "alice: hi there\r\n",
        ),
        (
            ServerMsg::Welcome { username: "bob".into() },
            "connected as bob. commands: send <MSG>, leave\r\n",
        ),
        (
            ServerMsg::UsernameTaken { username: "bob".into() },
            "error: username 'bob' is taken\r\n",
        ),
        (ServerMsg::UserJoined { username: "carol".into() }, "*** carol joined\r\n"),
        (ServerMsg::UserLeft { username: "carol".into() }, "*** carol left\r\n"),
        (ServerMsg::Error { reason: "boom".into() }, "server error: boom\r\n"),
    ];
    for (msg, expected) in cases {
        assert_eq!(format_server_msg(&msg), expected);
    }
}

#[test]
fn formats_connect_errors() {
    assert_eq!(
        format_connect_error(&ConnectFailure::Refused),
        "error: connection refused \u{2014} is the server running?"
    );
    assert_eq!(
        format_connect_error(&ConnectFailure::Rejected { status: "400 Bad Request".into() }),
        "error: server rejected connection (HTTP 400 Bad Request)"
    );
    assert_eq!(
        format_connect_error(&ConnectFailure::Other { detail: "timed out".into() }),
        "error: timed out"
    );
}

#[test]
fn received_frames_are_triaged() {
    assert_eq!(react(Received::Text("x".into())), Reaction::Show("x".into()));
    assert_eq!(react(Received::Close), Reaction::Stop);
    assert_eq!(react(Received::ConnectionClosed), Reaction::Stop);
    assert_eq!(react(Received::ResetWithoutHandshake), Reaction::Stop);
    assert_eq!(react(Received::OtherFrame), Reaction::Ignore);
    assert_eq!(react(Received::Failed), Reaction::Fail);
}

#[test]
fn redraw_clears_prints_and_restores_the_prompt() {
    let msg = ServerMsg::UserJoined { username: "carol".into() };
    assert_eq!(redraw(Some(&msg), "send h"), "\r\x1b[2K*** carol joined\r\nsend h");
    assert_eq!(redraw(None, "abc"), "\r\x1b[2Kabc");
}
