use simple_chat::proto::{encode_client, encode_server, ClientMsg, ServerMsg};

#[test]
fn client_send_json_shape() {
    let json = encode_client(&ClientMsg::Send {
        text: "test".into(),
    })
    .unwrap();
    let v: serde_json::Value = serde_json::from_str(&json).unwrap();
    assert_eq!(v["type"], "send");
    assert_eq!(v["text"], "test");
}

#[test]
fn client_leave_json_shape() {
    let json = encode_client(&ClientMsg::Leave).unwrap();
    let v: serde_json::Value = serde_json::from_str(&json).unwrap();
    assert_eq!(v["type"], "leave");
}

#[test]
fn client_messages_encode_exactly() {
    assert_eq!(
        encode_client(&ClientMsg::Send { text: "hello world".into() }).unwrap(),
        r#"{"type":"send","text":"hello world"}"#
    );
    assert_eq!(encode_client(&ClientMsg::Leave).unwrap(), r#"{"type":"leave"}"#);
}

#[test]
fn text_is_escaped() {
    assert_eq!(
        encode_client(&ClientMsg::Send { text: "say \"hi\"\\\n".into() }).unwrap(),
        r#"{"type":"send","text":"say \"hi\"\\\n"}"#
    );
    let json = encode_server(&ServerMsg::Message { from: "a\"b".into(), text: "\t".into() })
        .unwrap();
    let v: serde_json::Value = serde_json::from_str(&json).unwrap();
    assert_eq!(v["from"], "a\"b");
    assert_eq!(v["text"], "\t");
}

#[test]
fn server_messages_encode_exactly() {
    let cases = vec![
        (ServerMsg::Welcome { username: "alice".into() }, r#"{"type":"welcome","username":"alice"}"#),
        (
            ServerMsg::UsernameTaken { username: "bob".into() },
            r#"{"type":"username_taken","username":"bob"}"#,
        ),
        (
            ServerMsg::Message { from: "alice".into(), text: "hi".into() },
            r#"{"type":"message","from":"alice","text":"hi"}"#,
        ),
        (
            ServerMsg::UserJoined { username: "charlie".into() },
            r#"{"type":"user_joined","username":"charlie"}"#,
        ),
        (ServerMsg::UserLeft { username: "dan".into() }, r#"{"type":"user_left","username":"dan"}"#),
        (ServerMsg::Error { reason: "oops".into() }, r#"{"type":"error","reason":"oops"}"#),
    ];
    for (msg, expected) in cases {
        let json = encode_server(&msg).unwrap();
        assert_eq!(json, expected);
        let v: serde_json::Value = serde_json::from_str(&json).unwrap();
        assert!(v.is_object());
    }
}

#[test]
fn control_characters_are_escaped_as_serde_json_does() {
    let text: String = (0u32..0x20).filter_map(char::from_u32).chain("é\u{7f}".chars()).collect();
    let ours = encode_client(&ClientMsg::Send { text: text.clone() }).unwrap();
    let theirs = format!(r#"{{"type":"send","text":{}}}"#, serde_json::to_string(&text).unwrap());
    assert_eq!(ours, theirs);
    assert!(ours.contains("\\u0000") && ours.contains("\\u001f") && ours.contains("\\b"));
}

#[test]
fn different_messages_encode_differently() {
    let msgs = vec![
        ServerMsg::Welcome { username: "a".into() },
        ServerMsg::UsernameTaken { username: "a".into() },
        ServerMsg::Message { from: "a".into(), text: "b".into() },
        ServerMsg::Message { from: "a\",\"text\":\"b".into(), text: "".into() },
        ServerMsg::UserJoined { username: "a".into() },
        ServerMsg::UserLeft { username: "a".into() },
        ServerMsg::Error { reason: "a".into() },
    ];
    for (i, a) in msgs.iter().enumerate() {
        for (j, b) in msgs.iter().enumerate() {
            assert_eq!(i == j, encode_server(a).unwrap() == encode_server(b).unwrap());
        }
    }
}
