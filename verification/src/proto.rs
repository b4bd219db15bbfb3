//! The messages that travel between client and server, and their JSON
//! encoding.
//!
//! Each message is a JSON object whose `type` member names the variant in
//! snake case, followed by the variant's fields in declaration order.

use vstd::prelude::*;

use crate::json::{json_string, lemma_json_string_prefix};

verus! {

/// What a client sends to the server.
#[derive(Debug, Clone, PartialEq, Eq)]
pub enum ClientMsg {
    Send { text: String },
    Leave,
}

/// What the server sends to a client.
#[derive(Debug, Clone, PartialEq, Eq)]
pub enum ServerMsg {
    Welcome { username: String },
    UsernameTaken { username: String },
    Message { from: String, text: String },
    UserJoined { username: String },
    UserLeft { username: String },
    Error { reason: String },
}

/// The mathematical value of a [`ClientMsg`].
pub enum SpecClientMsg {
    Send { text: Seq<char> },
    Leave,
}

/// The mathematical value of a [`ServerMsg`].
pub enum SpecServerMsg {
    Welcome { username: Seq<char> },
    UsernameTaken { username: Seq<char> },
    Message { from: Seq<char>, text: Seq<char> },
    UserJoined { username: Seq<char> },
    UserLeft { username: Seq<char> },
    Error { reason: Seq<char> },
}

impl View for ClientMsg {
    type V = SpecClientMsg;

    open spec fn view(&self) -> SpecClientMsg {
        match self {
            ClientMsg::Send { text } => SpecClientMsg::Send { text: text@ },
            ClientMsg::Leave => SpecClientMsg::Leave,
        }
    }
}

impl View for ServerMsg {
    type V = SpecServerMsg;

    open spec fn view(&self) -> SpecServerMsg {
        match self {
            ServerMsg::Welcome { username } => SpecServerMsg::Welcome { username: username@ },
            ServerMsg::UsernameTaken { username } => SpecServerMsg::UsernameTaken {
                username: username@,
            },
            ServerMsg::Message { from, text } => SpecServerMsg::Message {
                from: from@,
                text: text@,
            },
            ServerMsg::UserJoined { username } => SpecServerMsg::UserJoined {
                username: username@,
            },
            ServerMsg::UserLeft { username } => SpecServerMsg::UserLeft { username: username@ },
            ServerMsg::Error { reason } => SpecServerMsg::Error { reason: reason@ },
        }
    }
}

impl ClientMsg {
    /// A copy of the message.
    pub fn duplicate(&self) -> (r: ClientMsg)
        ensures
            r@ == self@,
    {
        match self {
            ClientMsg::Send { text } => ClientMsg::Send { text: text.clone() },
            ClientMsg::Leave => ClientMsg::Leave,
        }
    }
}

impl ServerMsg {
    /// A copy of the message.
    pub fn duplicate(&self) -> (r: ServerMsg)
        ensures
            r@ == self@,
    {
        match self {
            ServerMsg::Welcome { username } => ServerMsg::Welcome { username: username.clone() },
            ServerMsg::UsernameTaken { username } => ServerMsg::UsernameTaken {
                username: username.clone(),
            },
            ServerMsg::Message { from, text } => ServerMsg::Message {
                from: from.clone(),
                text: text.clone(),
            },
            ServerMsg::UserJoined { username } => ServerMsg::UserJoined {
                username: username.clone(),
            },
            ServerMsg::UserLeft { username } => ServerMsg::UserLeft { username: username.clone() },
            ServerMsg::Error { reason } => ServerMsg::Error { reason: reason.clone() },
        }
    }
}

#[verifier::external_type_specification]
#[verifier::external_body]
pub struct ExJsonError(serde_json::Error);

/// Calls `serde_json::to_string` on a `str`. The serializer writes into a
/// `Vec<u8>`, whose `io::Write` never fails, and serializing a `str` has no
/// other way to fail, so the call always returns `Ok`. The text it holds is
/// the string between double quotes, escaped as `json_char` says (the table
/// `ESCAPE` and `write_char_escape` in `serde_json`'s `ser.rs`).
#[verifier::external_body]
fn json_quote(s: &str) -> (r: Result<String, serde_json::Error>)
    ensures
        r is Ok,
        r.unwrap()@ == json_string(s@),
{
    serde_json::to_string(s)
}

/// Why a message could not be encoded.
#[derive(Debug, Clone, Copy, PartialEq, Eq)]
pub enum EncodeError {
    Json,
}

/// The encoding of a client message.
pub open spec fn client_json(m: SpecClientMsg) -> Seq<char> {
    match m {
        SpecClientMsg::Send { text } => "{\"type\":\"send\",\"text\":"@ + json_string(text)
            + "}"@,
        SpecClientMsg::Leave => "{\"type\":\"leave\"}"@,
    }
}

/// One `"name":` member head followed by the string value.
pub open spec fn member(head: Seq<char>, value: Seq<char>) -> Seq<char> {
    head + json_string(value)
}

/// The encoding of a server message.
pub open spec fn server_json(m: SpecServerMsg) -> Seq<char> {
    match m {
        SpecServerMsg::Welcome { username } => member(
            "{\"type\":\"welcome\",\"username\":"@,
            username,
        ) + "}"@,
        SpecServerMsg::UsernameTaken { username } => member(
            "{\"type\":\"username_taken\",\"username\":"@,
            username,
        ) + "}"@,
        SpecServerMsg::Message { from, text } => member(
            "{\"type\":\"message\",\"from\":"@,
            from,
        ) + member(",\"text\":"@, text) + "}"@,
        SpecServerMsg::UserJoined { username } => member(
            "{\"type\":\"user_joined\",\"username\":"@,
            username,
        ) + "}"@,
        SpecServerMsg::UserLeft { username } => member(
            "{\"type\":\"user_left\",\"username\":"@,
            username,
        ) + "}"@,
        SpecServerMsg::Error { reason } => member("{\"type\":\"error\",\"reason\":"@, reason)
            + "}"@,
    }
}

/// Appends `head` and then the JSON string literal of `value` to `out`.
fn push_member(out: &mut String, head: &str, value: &str) -> (r: Result<(), EncodeError>)
    ensures
        r is Ok,
        final(out)@ == old(out)@ + member(head@, value@),
{
    out.append(head);
    match json_quote(value) {
        Ok(q) => {
            out.append(q.as_str());
            assert(final(out)@ == old(out)@ + member(head@, value@)) by {
                assert(old(out)@ + head@ + json_string(value@) == old(out)@ + (head@
                    + json_string(value@)));
            }
            Ok(())
        },
        Err(_) => Err(EncodeError::Json),
    }
}

/// Encodes a client message as JSON text.
pub fn encode_client(msg: &ClientMsg) -> (r: Result<String, EncodeError>)
    ensures
        r matches Ok(s) && s@ == client_json(msg@),
{
    let mut out = String::new();
    match msg {
        ClientMsg::Send { text } => {
            push_member(&mut out, "{\"type\":\"send\",\"text\":", text.as_str())?;
            out.append("}");
        },
        ClientMsg::Leave => {
            out.append("{\"type\":\"leave\"}");
        },
    }
    assert(out@ == client_json(msg@));
    Ok(out)
}

/// Encodes a server message as JSON text.
pub fn encode_server(msg: &ServerMsg) -> (r: Result<String, EncodeError>)
    ensures
        r matches Ok(s) && s@ == server_json(msg@),
{
    let mut out = String::new();
    match msg {
        ServerMsg::Welcome { username } => {
            push_member(&mut out, "{\"type\":\"welcome\",\"username\":", username.as_str())?;
        },
        ServerMsg::UsernameTaken { username } => {
            push_member(
                &mut out,
                "{\"type\":\"username_taken\",\"username\":",
                username.as_str(),
            )?;
        },
        ServerMsg::Message { from, text } => {
            push_member(&mut out, "{\"type\":\"message\",\"from\":", from.as_str())?;
            push_member(&mut out, ",\"text\":", text.as_str())?;
        },
        ServerMsg::UserJoined { username } => {
            push_member(&mut out, "{\"type\":\"user_joined\",\"username\":", username.as_str())?;
        },
        ServerMsg::UserLeft { username } => {
            push_member(&mut out, "{\"type\":\"user_left\",\"username\":", username.as_str())?;
        },
        ServerMsg::Error { reason } => {
            push_member(&mut out, "{\"type\":\"error\",\"reason\":", reason.as_str())?;
        },
    }
    out.append("}");
    assert(out@ == server_json(msg@));
    Ok(out)
}

/// The text of a server message before its first string value.
spec fn server_head(m: SpecServerMsg) -> Seq<char> {
    match m {
        SpecServerMsg::Welcome { .. } => "{\"type\":\"welcome\",\"username\":"@,
        SpecServerMsg::UsernameTaken { .. } => "{\"type\":\"username_taken\",\"username\":"@,
        SpecServerMsg::Message { .. } => "{\"type\":\"message\",\"from\":"@,
        SpecServerMsg::UserJoined { .. } => "{\"type\":\"user_joined\",\"username\":"@,
        SpecServerMsg::UserLeft { .. } => "{\"type\":\"user_left\",\"username\":"@,
        SpecServerMsg::Error { .. } => "{\"type\":\"error\",\"reason\":"@,
    }
}

/// The first string value of a server message.
spec fn server_first(m: SpecServerMsg) -> Seq<char> {
    match m {
        SpecServerMsg::Welcome { username } => username,
        SpecServerMsg::UsernameTaken { username } => username,
        SpecServerMsg::Message { from, .. } => from,
        SpecServerMsg::UserJoined { username } => username,
        SpecServerMsg::UserLeft { username } => username,
        SpecServerMsg::Error { reason } => reason,
    }
}

/// The text of a server message after its first string value.
spec fn server_rest(m: SpecServerMsg) -> Seq<char> {
    match m {
        SpecServerMsg::Message { text, .. } => member(",\"text\":"@, text) + "}"@,
        _ => "}"@,
    }
}

proof fn lemma_server_json_parts(m: SpecServerMsg)
    ensures
        server_json(m) == server_head(m) + (json_string(server_first(m)) + server_rest(m)),
{
    assert(server_json(m) =~= server_head(m) + (json_string(server_first(m)) + server_rest(m)));
}

/// Cancels a common beginning.
proof fn lemma_cancel_prefix(p: Seq<char>, x: Seq<char>, y: Seq<char>)
    requires
        p + x == p + y,
    ensures
        x == y,
{
    assert(x =~= (p + x).subrange(p.len() as int, (p + x).len() as int));
    assert(y =~= (p + y).subrange(p.len() as int, (p + y).len() as int));
}

/// Different client messages are encoded differently: the encoding loses
/// nothing, so a reader of the JSON text can recover the message.
pub proof fn law_client_encoding_injective(m1: SpecClientMsg, m2: SpecClientMsg)
    requires
        client_json(m1) == client_json(m2),
    ensures
        m1 == m2,
{
    let send = "{\"type\":\"send\",\"text\":"@;
    let leave = "{\"type\":\"leave\"}"@;
    reveal_strlit("{\"type\":\"send\",\"text\":");
    reveal_strlit("{\"type\":\"leave\"}");
    match (m1, m2) {
        (SpecClientMsg::Send { text: a }, SpecClientMsg::Send { text: b }) => {
            assert(client_json(m1) =~= send + (json_string(a) + "}"@));
            assert(client_json(m2) =~= send + (json_string(b) + "}"@));
            lemma_cancel_prefix(send, json_string(a) + "}"@, json_string(b) + "}"@);
            lemma_json_string_prefix(a, b, "}"@, "}"@);
        },
        (SpecClientMsg::Send { text: a }, SpecClientMsg::Leave) => {
            assert(client_json(m1) =~= send + (json_string(a) + "}"@));
            assert(client_json(m1)[9] == send[9]);
            assert(false);
        },
        (SpecClientMsg::Leave, SpecClientMsg::Send { text: b }) => {
            assert(client_json(m2) =~= send + (json_string(b) + "}"@));
            assert(client_json(m2)[9] == send[9]);
            assert(false);
        },
        (SpecClientMsg::Leave, SpecClientMsg::Leave) => {},
    }
}

/// Different server messages are encoded differently: the encoding loses
/// nothing, so a reader of the JSON text can recover the message.
pub proof fn law_server_encoding_injective(m1: SpecServerMsg, m2: SpecServerMsg)
    requires
        server_json(m1) == server_json(m2),
    ensures
        m1 == m2,
{
    reveal_strlit("{\"type\":\"welcome\",\"username\":");
    reveal_strlit("{\"type\":\"username_taken\",\"username\":");
    reveal_strlit("{\"type\":\"message\",\"from\":");
    reveal_strlit("{\"type\":\"user_joined\",\"username\":");
    reveal_strlit("{\"type\":\"user_left\",\"username\":");
    reveal_strlit("{\"type\":\"error\",\"reason\":");
    lemma_server_json_parts(m1);
    lemma_server_json_parts(m2);
    let s = server_json(m1);
    let h1 = server_head(m1);
    let h2 = server_head(m2);
    assert(s[9] == h1[9] && s[13] == h1[13] && s[14] == h1[14]);
    assert(s[9] == h2[9] && s[13] == h2[13] && s[14] == h2[14]);
    assert(h1 == h2);
    let r1 = server_rest(m1);
    let r2 = server_rest(m2);
    lemma_cancel_prefix(
        h1,
        json_string(server_first(m1)) + r1,
        json_string(server_first(m2)) + r2,
    );
    lemma_json_string_prefix(server_first(m1), server_first(m2), r1, r2);
    match (m1, m2) {
        (SpecServerMsg::Message { text: a, .. }, SpecServerMsg::Message { text: b, .. }) => {
            let t = ",\"text\":"@;
            assert(r1 =~= t + (json_string(a) + "}"@));
            assert(r2 =~= t + (json_string(b) + "}"@));
            lemma_cancel_prefix(t, json_string(a) + "}"@, json_string(b) + "}"@);
            lemma_json_string_prefix(a, b, "}"@, "}"@);
        },
        _ => {},
    }
}

/// The wire format of client messages: `send` carries its text as a JSON
/// string, `leave` has no member besides its type.
pub proof fn law_client_wire_format(text: Seq<char>)
    ensures
        client_json(SpecClientMsg::Send { text }) == "{\"type\":\"send\",\"text\":"@
            + json_string(text) + "}"@,
        client_json(SpecClientMsg::Leave) == "{\"type\":\"leave\"}"@,
{
}

/// The wire format of a chat message from the server: its type, then the
/// sender and the text as JSON strings, in that order.
pub proof fn law_message_wire_format(from: Seq<char>, text: Seq<char>)
    ensures
        server_json(SpecServerMsg::Message { from, text }) == "{\"type\":\"message\",\"from\":"@
            + json_string(from) + ",\"text\":"@ + json_string(text) + "}"@,
{
    assert(server_json(SpecServerMsg::Message { from, text }) =~= "{\"type\":\"message\",\"from\":"@
        + json_string(from) + ",\"text\":"@ + json_string(text) + "}"@);
}

} // verus!
