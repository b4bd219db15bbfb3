use simple_chat::command::{
    key_outgoing, outgoing, parse_command, pipe_step, press_key, read_line, Key, KeyOutcome, LineInput, Outgoing,
};
use simple_chat::text::{is_blank, is_white_space, trim};
use simple_chat::proto::ClientMsg;

#[test]
fn parse_leave() {
    assert_eq!(parse_command("leave"), Some(ClientMsg::Leave));
}

#[test]
fn parse_send_simple() {
    assert_eq!(
        parse_command("send hello"),
        Some(ClientMsg::Send {
            text: "hello".into()
        })
    );
}

#[test]
fn parse_send_preserves_inner_spaces() {
    assert_eq!(
        parse_command("send hello world"),
        Some(ClientMsg::Send {
            text: "hello world".into()
        })
    );
}

#[test]
fn parse_send_prefix_only_returns_none() {
    assert_eq!(parse_command("send"), None);
}

#[test]
fn parse_unknown_returns_none() {
    assert_eq!(parse_command("foo"), None);
}

#[test]
fn parse_empty_returns_none() {
    assert_eq!(parse_command(""), None);
}

#[test]
fn parse_send_with_empty_text() {
    assert_eq!(parse_command("send "), Some(ClientMsg::Send { text: "".into() }));
}

#[test]
fn parse_is_case_and_space_sensitive() {
    assert_eq!(parse_command("Leave"), None);
    assert_eq!(parse_command("leave "), None);
    assert_eq!(parse_command(" send x"), None);
    assert_eq!(parse_command("sendx"), None);
}

#[test]
fn send_text_round_trips_through_parse() {
    for text in ["", "x", "  padded  ", "send leave", "héllo wörld"] {
        let line = format!("send {text}");
        assert_eq!(parse_command(&line), Some(ClientMsg::Send { text: text.into() }));
    }
}

#[test]
fn read_line_trims_before_parsing() {
    assert_eq!(read_line("  leave \t"), LineInput::Command(ClientMsg::Leave));
    assert_eq!(
        read_line("\tsend hi there  \n"),
        LineInput::Command(ClientMsg::Send { text: "hi there".into() })
    );
    assert_eq!(read_line(""), LineInput::Blank);
    assert_eq!(read_line(" \t\r\n\u{3000}"), LineInput::Blank);
    assert_eq!(read_line("  hello "), LineInput::Unknown);
    assert_eq!(read_line("send"), LineInput::Unknown);
}

#[test]
fn typing_builds_the_line_and_enter_submits_it() {
    let mut buf = String::new();
    for c in "hi".chars() {
        assert_eq!(press_key(&mut buf, Key::Char { c, ctrl: false }), KeyOutcome::Echo(c));
    }
    assert_eq!(buf, "hi");
    assert_eq!(press_key(&mut buf, Key::Enter), KeyOutcome::Submit("hi".into()));
    assert_eq!(buf, "");
}

#[test]
fn backspace_undoes_typing() {
    let mut buf = String::from("ab");
    assert_eq!(press_key(&mut buf, Key::Char { c: 'é', ctrl: false }), KeyOutcome::Echo('é'));
    assert_eq!(press_key(&mut buf, Key::Backspace), KeyOutcome::Erased);
    assert_eq!(buf, "ab");
}

#[test]
fn backspace_on_empty_line_does_nothing() {
    let mut buf = String::new();
    assert_eq!(press_key(&mut buf, Key::Backspace), KeyOutcome::Ignored);
    assert_eq!(buf, "");
}

#[test]
fn control_c_quits_and_other_keys_are_ignored() {
    let mut buf = String::from("x");
    assert_eq!(press_key(&mut buf, Key::Char { c: 'c', ctrl: true }), KeyOutcome::Quit);
    assert_eq!(buf, "x");
    assert_eq!(press_key(&mut buf, Key::Other), KeyOutcome::Ignored);
    assert_eq!(buf, "x");
    assert_eq!(press_key(&mut buf, Key::Char { c: 'a', ctrl: true }), KeyOutcome::Echo('a'));
    assert_eq!(buf, "xa");
}

#[test]
fn white_space_is_what_std_says() {
    for c in (0u32..=0x10ffff).filter_map(char::from_u32) {
        assert_eq!(is_white_space(c), c.is_whitespace(), "{:?}", c);
    }
}

#[test]
fn trim_agrees_with_std() {
    for s in ["", "  ", " a ", "\u{3000}x y\u{85}", "\t\n leave \r", "a\u{200b}", "\u{a0}é\u{2029}"] {
        assert_eq!(trim(s), s.trim());
        assert_eq!(is_blank(s), s.trim().is_empty());
    }
}

#[test]
fn leave_and_end_of_input_close_the_session() {
    assert_eq!(pipe_step(Some("  leave ")), Outgoing::SendAndClose(ClientMsg::Leave));
    assert_eq!(pipe_step(None), Outgoing::SendAndClose(ClientMsg::Leave));
    assert_eq!(
        pipe_step(Some("send hi")),
        Outgoing::Send(ClientMsg::Send { text: "hi".into() })
    );
    assert_eq!(pipe_step(Some("   ")), Outgoing::Nothing);
    assert_eq!(pipe_step(Some("hello")), Outgoing::Nothing);
    assert_eq!(outgoing(LineInput::Unknown), Outgoing::Nothing);
    assert_eq!(outgoing(LineInput::Blank), Outgoing::Nothing);
}

#[test]
fn control_c_is_the_same_as_leave() {
    assert_eq!(key_outgoing(&KeyOutcome::Quit), Outgoing::SendAndClose(ClientMsg::Leave));
    assert_eq!(
        key_outgoing(&KeyOutcome::Submit(" leave ".into())),
        Outgoing::SendAndClose(ClientMsg::Leave)
    );
    assert_eq!(
        key_outgoing(&KeyOutcome::Submit("send hi".into())),
        Outgoing::Send(ClientMsg::Send { text: "hi".into() })
    );
    assert_eq!(key_outgoing(&KeyOutcome::Submit("nope".into())), Outgoing::Nothing);
    assert_eq!(key_outgoing(&KeyOutcome::Echo('x')), Outgoing::Nothing);
    assert_eq!(key_outgoing(&KeyOutcome::Erased), Outgoing::Nothing);
    assert_eq!(key_outgoing(&KeyOutcome::Ignored), Outgoing::Nothing);
}
