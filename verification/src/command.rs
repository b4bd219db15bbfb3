//! What the client makes of the user's typing: the line editor behind the
//! prompt, and the commands `send <MSG>` and `leave`.

use vstd::prelude::*;

use crate::proto::{ClientMsg, SpecClientMsg};
use crate::text::{pop_char, push_char, str_eq, strip_prefix, trim, trimmed};

verus! {

/// The command that a line names, if any: `leave`, or `send ` followed by
/// the text to send (kept exactly, inner and trailing spaces included).
pub open spec fn command_of(line: Seq<char>) -> Option<SpecClientMsg> {
    let prefix = "send "@;
    if line == "leave"@ {
        Some(SpecClientMsg::Leave)
    } else if prefix.len() <= line.len() && line.subrange(0, prefix.len() as int) == prefix {
        Some(SpecClientMsg::Send { text: line.subrange(prefix.len() as int, line.len() as int) })
    } else {
        None
    }
}

/// The value of an optional client message.
pub open spec fn opt_view(m: Option<ClientMsg>) -> Option<SpecClientMsg> {
    match m {
        Some(m) => Some(m@),
        None => None,
    }
}

/// Reads one command line.
pub fn parse_command(line: &str) -> (r: Option<ClientMsg>)
    ensures
        opt_view(r) == command_of(line@),
{
    if str_eq(line, "leave") {
        Some(ClientMsg::Leave)
    } else {
        match strip_prefix(line, "send ") {
            Some(text) => {
                let r = Some(ClientMsg::Send { text: text.to_owned() });
                assert(line@.subrange(0, "send "@.len() as int) =~= "send "@);
                assert(line@.subrange("send "@.len() as int, line@.len() as int) =~= text@);
                r
            },
            None => None,
        }
    }
}

/// What a line typed at the prompt (or read from a pipe) asks for.
#[derive(Debug, PartialEq, Eq)]
pub enum LineInput {
    /// Nothing but white space: skipped.
    Blank,
    /// Not a command.
    Unknown,
    /// A message to send to the server.
    Command(ClientMsg),
}

/// The value of a [`LineInput`].
pub enum SpecLineInput {
    Blank,
    Unknown,
    Command(SpecClientMsg),
}

impl View for LineInput {
    type V = SpecLineInput;

    open spec fn view(&self) -> SpecLineInput {
        match self {
            LineInput::Blank => SpecLineInput::Blank,
            LineInput::Unknown => SpecLineInput::Unknown,
            LineInput::Command(m) => SpecLineInput::Command(m@),
        }
    }
}

/// What `line` asks for once leading and trailing white space is trimmed.
pub open spec fn line_input(line: Seq<char>) -> SpecLineInput {
    let t = trimmed(line);
    if t.len() == 0 {
        SpecLineInput::Blank
    } else {
        match command_of(t) {
            Some(m) => SpecLineInput::Command(m),
            None => SpecLineInput::Unknown,
        }
    }
}

/// Trims a line and reads the command in it.
pub fn read_line(line: &str) -> (r: LineInput)
    ensures
        r@ == line_input(line@),
{
    let t = trim(line);
    if t.unicode_len() == 0 {
        return LineInput::Blank;
    }
    match parse_command(t) {
        Some(m) => LineInput::Command(m),
        None => LineInput::Unknown,
    }
}

/// What the client writes to the server for a line.
#[derive(Debug, PartialEq, Eq)]
pub enum Outgoing {
    /// Nothing.
    Nothing,
    /// This message; the session goes on.
    Send(ClientMsg),
    /// This message, then the connection is closed and the client stops.
    SendAndClose(ClientMsg),
}

/// The value of an [`Outgoing`].
pub enum SpecOutgoing {
    Nothing,
    Send(SpecClientMsg),
    SendAndClose(SpecClientMsg),
}

impl View for Outgoing {
    type V = SpecOutgoing;

    open spec fn view(&self) -> SpecOutgoing {
        match self {
            Outgoing::Nothing => SpecOutgoing::Nothing,
            Outgoing::Send(m) => SpecOutgoing::Send(m@),
            Outgoing::SendAndClose(m) => SpecOutgoing::SendAndClose(m@),
        }
    }
}

/// What is written for a line: its command, after which `leave` ends the
/// session; nothing for a blank or unknown line.
pub open spec fn outgoing_of(input: SpecLineInput) -> SpecOutgoing {
    match input {
        SpecLineInput::Command(SpecClientMsg::Leave) => SpecOutgoing::SendAndClose(
            SpecClientMsg::Leave,
        ),
        SpecLineInput::Command(m) => SpecOutgoing::Send(m),
        _ => SpecOutgoing::Nothing,
    }
}

/// What the client writes for a line it has read.
pub fn outgoing(input: LineInput) -> (r: Outgoing)
    ensures
        r@ == outgoing_of(input@),
{
    match input {
        LineInput::Command(ClientMsg::Leave) => Outgoing::SendAndClose(ClientMsg::Leave),
        LineInput::Command(m) => Outgoing::Send(m),
        _ => Outgoing::Nothing,
    }
}

/// What the client writes when it reads commands from a pipe: for each line
/// what the line asks; at the end of the input (`None`), `leave`, and the
/// client stops.
pub fn pipe_step(line: Option<&str>) -> (r: Outgoing)
    ensures
        match line {
            Some(l) => r@ == outgoing_of(line_input(l@)),
            None => r@ == SpecOutgoing::SendAndClose(SpecClientMsg::Leave),
        },
{
    match line {
        Some(l) => outgoing(read_line(l)),
        None => Outgoing::SendAndClose(ClientMsg::Leave),
    }
}

/// One key press at the prompt.
#[derive(Debug, Clone, Copy, PartialEq, Eq)]
pub enum Key {
    /// A character key, with whether Control was held.
    Char { c: char, ctrl: bool },
    Enter,
    Backspace,
    /// Any other key.
    Other,
}

/// What a key press asks the prompt to do.
#[derive(Debug, PartialEq, Eq)]
pub enum KeyOutcome {
    /// Control-C: the same as `leave`.
    Quit,
    /// Enter: the line typed so far, now taken out of the buffer.
    Submit(String),
    /// Backspace removed the last character: erase it on screen.
    Erased,
    /// A character was added: echo it.
    Echo(char),
    /// Nothing happens.
    Ignored,
}

/// The value of a [`KeyOutcome`].
pub enum SpecKeyOutcome {
    Quit,
    Submit(Seq<char>),
    Erased,
    Echo(char),
    Ignored,
}

impl View for KeyOutcome {
    type V = SpecKeyOutcome;

    open spec fn view(&self) -> SpecKeyOutcome {
        match self {
            KeyOutcome::Quit => SpecKeyOutcome::Quit,
            KeyOutcome::Submit(s) => SpecKeyOutcome::Submit(s@),
            KeyOutcome::Erased => SpecKeyOutcome::Erased,
            KeyOutcome::Echo(c) => SpecKeyOutcome::Echo(*c),
            KeyOutcome::Ignored => SpecKeyOutcome::Ignored,
        }
    }
}

/// The buffer after a key press, and what the prompt does.
pub open spec fn key_step(buf: Seq<char>, key: Key) -> (Seq<char>, SpecKeyOutcome) {
    match key {
        Key::Char { c, ctrl } => if c == 'c' && ctrl {
            (buf, SpecKeyOutcome::Quit)
        } else {
            (buf.push(c), SpecKeyOutcome::Echo(c))
        },
        Key::Enter => (Seq::empty(), SpecKeyOutcome::Submit(buf)),
        Key::Backspace => if buf.len() > 0 {
            (buf.drop_last(), SpecKeyOutcome::Erased)
        } else {
            (buf, SpecKeyOutcome::Ignored)
        },
        Key::Other => (buf, SpecKeyOutcome::Ignored),
    }
}

/// Applies one key press to the line being typed.
pub fn press_key(buf: &mut String, key: Key) -> (r: KeyOutcome)
    ensures
        (final(buf)@, r@) == key_step(old(buf)@, key),
{
    match key {
        Key::Char { c, ctrl } => {
            if c == 'c' && ctrl {
                KeyOutcome::Quit
            } else {
                push_char(buf, c);
                KeyOutcome::Echo(c)
            }
        },
        Key::Enter => {
            let line = buf.clone();
            *buf = String::new();
            KeyOutcome::Submit(line)
        },
        Key::Backspace => match pop_char(buf) {
            Some(_) => KeyOutcome::Erased,
            None => KeyOutcome::Ignored,
        },
        Key::Other => KeyOutcome::Ignored,
    }
}

/// What the client writes after a key press: Control-C is the same as
/// `leave`; Enter writes what the submitted line asks; other keys write
/// nothing.
pub open spec fn key_outgoing_of(outcome: SpecKeyOutcome) -> SpecOutgoing {
    match outcome {
        SpecKeyOutcome::Quit => SpecOutgoing::SendAndClose(SpecClientMsg::Leave),
        SpecKeyOutcome::Submit(line) => outgoing_of(line_input(line)),
        _ => SpecOutgoing::Nothing,
    }
}

/// What the client writes to the server after a key press.
pub fn key_outgoing(outcome: &KeyOutcome) -> (r: Outgoing)
    ensures
        r@ == key_outgoing_of(outcome@),
{
    match outcome {
        KeyOutcome::Quit => Outgoing::SendAndClose(ClientMsg::Leave),
        KeyOutcome::Submit(line) => outgoing(read_line(line.as_str())),
        _ => Outgoing::Nothing,
    }
}

/// `send ` followed by any text is read back as a message with exactly that
/// text.
pub proof fn law_send_keeps_text(text: Seq<char>)
    ensures
        command_of("send "@ + text) == Some(SpecClientMsg::Send { text }),
{
    reveal_strlit("send ");
    reveal_strlit("leave");
    let line = "send "@ + text;
    assert(line[0] == 's');
    assert(line.subrange(0, 5) =~= "send "@);
    assert(line.subrange(5, line.len() as int) =~= text);
}

/// Backspace takes back the character just typed.
pub proof fn law_backspace_undoes_typing(buf: Seq<char>, c: char, ctrl: bool)
    requires
        !(c == 'c' && ctrl),
    ensures
        key_step(key_step(buf, Key::Char { c, ctrl }).0, Key::Backspace) == (
            buf,
            SpecKeyOutcome::Erased,
        ),
{
    assert(buf.push(c).drop_last() =~= buf);
}

/// Enter hands over whatever the line held and leaves it empty, so the next
/// character typed starts a new line of its own.
pub proof fn law_enter_clears_line(buf: Seq<char>, c: char)
    ensures
        key_step(buf, Key::Enter) == (Seq::<char>::empty(), SpecKeyOutcome::Submit(buf)),
        key_step(key_step(buf, Key::Enter).0, Key::Char { c, ctrl: false }).0 == seq![c],
        c != 'c' ==> key_step(key_step(buf, Key::Enter).0, Key::Char { c, ctrl: true }).0
            == seq![c],
{
    assert(Seq::<char>::empty().push(c) =~= seq![c]);
}

/// Every command a line names is written to the server: `send` with its
/// text unchanged and the session going on, `leave` followed by the close.
pub proof fn law_commands_are_written(text: Seq<char>)
    ensures
        outgoing_of(SpecLineInput::Command(SpecClientMsg::Send { text })) == SpecOutgoing::Send(
            SpecClientMsg::Send { text },
        ),
        outgoing_of(SpecLineInput::Command(SpecClientMsg::Leave)) == SpecOutgoing::SendAndClose(
            SpecClientMsg::Leave,
        ),
        outgoing_of(SpecLineInput::Blank) == SpecOutgoing::Nothing,
        outgoing_of(SpecLineInput::Unknown) == SpecOutgoing::Nothing,
{
}

/// A line `send <text>` with nothing to trim around it is written to the
/// server as a message with exactly that text, at the prompt or from a pipe.
pub proof fn law_send_line_is_written(text: Seq<char>)
    requires
        trimmed("send "@ + text) == "send "@ + text,
    ensures
        outgoing_of(line_input("send "@ + text)) == SpecOutgoing::Send(
            SpecClientMsg::Send { text },
        ),
        key_outgoing_of(SpecKeyOutcome::Submit("send "@ + text)) == SpecOutgoing::Send(
            SpecClientMsg::Send { text },
        ),
{
    law_send_keeps_text(text);
    reveal_strlit("send ");
    assert(("send "@ + text).len() > 0);
}

/// `leave` is read as the command to leave, and any other line is read as
/// `send` only when it starts with `send `.
pub proof fn law_leave_line(line: Seq<char>)
    ensures
        command_of("leave"@) == Some(SpecClientMsg::Leave),
        command_of(line) matches Some(SpecClientMsg::Send { text }) ==> line == "send "@ + text,
{
    let prefix = "send "@;
    if command_of(line) matches Some(SpecClientMsg::Send { text }) {
        if line != "leave"@ {
            assert(line =~= prefix + line.subrange(prefix.len() as int, line.len() as int));
        }
    }
}

/// A character key without Control, or with Control on anything but `c`,
/// adds its character at the end of the line and echoes it; Control-C
/// leaves the line as it is and is then written as `leave`.
pub proof fn law_typing_and_control_c(buf: Seq<char>, c: char, ctrl: bool)
    ensures
        !(c == 'c' && ctrl) ==> key_step(buf, Key::Char { c, ctrl }) == (
            buf.push(c),
            SpecKeyOutcome::Echo(c),
        ),
        key_step(buf, Key::Char { c: 'c', ctrl: true }) == (buf, SpecKeyOutcome::Quit),
        key_outgoing_of(key_step(buf, Key::Char { c: 'c', ctrl: true }).1)
            == SpecOutgoing::SendAndClose(SpecClientMsg::Leave),
{
}

} // verus!
