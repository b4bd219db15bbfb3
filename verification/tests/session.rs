use simple_chat::proto::{ClientMsg, ServerMsg};
use simple_chat::session::{echoes, username_given, Action, Event, Phase, Session, WsParams};
use simple_chat::users::Users;

fn joined(name: &str) -> Session {
    let mut s = Session::new(name.into());
    s.step(Event::Registered { accepted: true });
    s.step(Event::Delivered { ok: true });
    s
}

#[test]
fn empty_username_is_rejected() {
    assert!(!username_given(&WsParams { username: "".into() }));
    assert!(!username_given(&WsParams { username: " \t ".into() }));
    assert!(username_given(&WsParams { username: " alice ".into() }));
}

#[test]
fn connect_sends_welcome() {
    let mut s = Session::new("alice".into());
    assert_eq!(s.phase(), Phase::Joining);
    assert_eq!(
        s.step(Event::Registered { accepted: true }),
        vec![Action::Send(ServerMsg::Welcome { username: "alice".into() })]
    );
    assert_eq!(
        s.step(Event::Delivered { ok: true }),
        vec![Action::Broadcast(ServerMsg::UserJoined { username: "alice".into() })]
    );
    assert_eq!(s.phase(), Phase::Active);
}

#[test]
fn duplicate_username_rejected() {
    let mut users = Users::new();
    let mut first = Session::new("alice".into());
    first.step(Event::Registered { accepted: users.register("alice") });
    let mut second = Session::new("alice".into());
    assert_eq!(
        second.step(Event::Registered { accepted: users.register("alice") }),
        vec![Action::Send(ServerMsg::UsernameTaken { username: "alice".into() })]
    );
    assert_eq!(second.phase(), Phase::Closed);
    assert_eq!(second.step(Event::ClientGone), vec![]);
    assert!(users.contains("alice"));
}

#[test]
fn message_broadcast_to_others() {
    let mut alice = joined("alice");
    let mut bob = joined("bob");
    let out = alice.step(Event::FromClient(ClientMsg::Send { text: "hello".into() }));
    let msg = ServerMsg::Message { from: "alice".into(), text: "hello".into() };
    assert_eq!(out, vec![Action::Broadcast(msg.clone())]);
    assert_eq!(bob.step(Event::Relayed(msg.clone())), vec![Action::Send(msg.clone())]);
    assert_eq!(alice.step(Event::Relayed(msg)), vec![]);
}

#[test]
fn own_join_and_leave_are_not_echoed() {
    let mut alice = joined("alice");
    assert_eq!(alice.step(Event::Relayed(ServerMsg::UserJoined { username: "alice".into() })), vec![]);
    assert_eq!(
        alice.step(Event::Relayed(ServerMsg::UserJoined { username: "bob".into() })),
        vec![Action::Send(ServerMsg::UserJoined { username: "bob".into() })]
    );
    assert!(echoes(&ServerMsg::UserLeft { username: "alice".into() }, "alice"));
    assert!(!echoes(&ServerMsg::Error { reason: "alice".into() }, "alice"));
    assert!(!echoes(&ServerMsg::Message { from: "bob".into(), text: "alice".into() }, "alice"));
}

#[test]
fn leave_removes_user() {
    let mut users = Users::new();
    let mut alice = Session::new("alice".into());
    alice.step(Event::Registered { accepted: users.register("alice") });
    alice.step(Event::Delivered { ok: true });
    let out = alice.step(Event::FromClient(ClientMsg::Leave));
    assert_eq!(
        out,
        vec![
            Action::Deregister,
            Action::Broadcast(ServerMsg::UserLeft { username: "alice".into() })
        ]
    );
    users.deregister("alice");
    assert_eq!(alice.phase(), Phase::Closed);
    assert!(users.register("alice"));
}

#[test]
fn disconnect_cleans_up_state() {
    for ending in [Event::ClientGone, Event::RelayClosed, Event::Delivered { ok: false }] {
        let mut alice = joined("alice");
        assert_eq!(
            alice.step(ending),
            vec![
                Action::Deregister,
                Action::Broadcast(ServerMsg::UserLeft { username: "alice".into() })
            ]
        );
        assert_eq!(alice.step(Event::ClientGone), vec![]);
    }
}

#[test]
fn failed_welcome_releases_name_without_announcing() {
    let mut s = Session::new("alice".into());
    s.step(Event::Registered { accepted: true });
    assert_eq!(s.step(Event::Delivered { ok: false }), vec![Action::Deregister]);
    assert_eq!(s.phase(), Phase::Closed);
}

#[test]
fn lag_and_garbage_keep_the_session_open() {
    let mut alice = joined("alice");
    assert_eq!(alice.step(Event::RelayLagged), vec![]);
    assert_eq!(alice.step(Event::Undecodable), vec![]);
    assert_eq!(alice.phase(), Phase::Active);
    assert_eq!(alice.username(), "alice");
}

#[test]
fn listening_only_in_the_room() {
    let mut s = Session::new("alice".into());
    assert!(!s.listening());
    s.step(Event::Registered { accepted: true });
    assert!(!s.listening());
    s.step(Event::Delivered { ok: true });
    assert!(s.listening());
    assert_eq!(s.step(Event::Delivered { ok: true }), vec![]);
    s.step(Event::FromClient(ClientMsg::Leave));
    assert!(!s.listening());
}

#[test]
fn relayed_messages_forwarded_once_each_in_order() {
    let mut alice = joined("alice");
    let msgs = vec![
        ServerMsg::UserJoined { username: "bob".into() },
        ServerMsg::Message { from: "alice".into(), text: "mine".into() },
        ServerMsg::Message { from: "bob".into(), text: "one".into() },
        ServerMsg::Message { from: "bob".into(), text: "two".into() },
        ServerMsg::UserLeft { username: "alice".into() },
        ServerMsg::Error { reason: "x".into() },
    ];
    let mut sent = Vec::new();
    for m in msgs.iter() {
        let out = alice.step(Event::Relayed(m.clone()));
        let wrote = !out.is_empty();
        sent.extend(out);
        if wrote {
            assert_eq!(alice.step(Event::Delivered { ok: true }), vec![]);
        }
    }
    assert_eq!(
        sent,
        vec![
            Action::Send(msgs[0].clone()),
            Action::Send(msgs[2].clone()),
            Action::Send(msgs[3].clone()),
            Action::Send(msgs[5].clone()),
        ]
    );
    assert!(alice.listening());
}

#[test]
fn join_and_leave_announced_once() {
    let me = ServerMsg::UserJoined { username: "alice".into() };
    let gone = ServerMsg::UserLeft { username: "alice".into() };
    let mut s = Session::new("alice".into());
    let mut all = Vec::new();
    for ev in [
        Event::Registered { accepted: true },
        Event::Delivered { ok: true },
        Event::Registered { accepted: true },
        Event::Delivered { ok: true },
        Event::ClientGone,
        Event::ClientGone,
        Event::Delivered { ok: true },
    ] {
        all.extend(s.step(ev));
    }
    let joins = all.iter().position(|a| *a == Action::Broadcast(me.clone()));
    let leaves = all.iter().position(|a| *a == Action::Broadcast(gone.clone()));
    assert_eq!(all.iter().filter(|a| **a == Action::Broadcast(me.clone())).count(), 1);
    assert_eq!(all.iter().filter(|a| **a == Action::Broadcast(gone.clone())).count(), 1);
    assert!(joins.unwrap() < leaves.unwrap());
    assert_eq!(all.iter().filter(|a| **a == Action::Deregister).count(), 1);
}
