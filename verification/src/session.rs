//! The server's side of one connection, as a state machine: the app feeds
//! it what happened (the registry's answer, a frame from the client, a
//! message from the room) and performs the actions it returns.

use vstd::prelude::*;

use crate::proto::{ClientMsg, ServerMsg, SpecClientMsg, SpecServerMsg};
use crate::text::{is_blank, law_blank_is_all_white_space, str_eq, trimmed, white_space};

verus! {

/// The query of a WebSocket upgrade request.
#[derive(Debug, Clone, PartialEq, Eq)]
pub struct WsParams {
    pub username: String,
}

/// Whether the request names a user: the username must hold something
/// besides white space, else the upgrade is refused.
pub fn username_given(params: &WsParams) -> (r: bool)
    ensures
        r == (trimmed(params.username@).len() > 0),
{
    !is_blank(params.username.as_str())
}

/// Whether `m` is about `me` itself: a message `me` sent, or `me` joining
/// or leaving. Such messages are not sent back to `me`.
pub open spec fn is_echo(m: SpecServerMsg, me: Seq<char>) -> bool {
    match m {
        SpecServerMsg::Message { from, .. } => from == me,
        SpecServerMsg::UserJoined { username } => username == me,
        SpecServerMsg::UserLeft { username } => username == me,
        _ => false,
    }
}

/// Tells whether a message from the room is about `me` itself.
pub fn echoes(msg: &ServerMsg, me: &str) -> (r: bool)
    ensures
        r == is_echo(msg@, me@),
{
    match msg {
        ServerMsg::Message { from, .. } => str_eq(from.as_str(), me),
        ServerMsg::UserJoined { username } => str_eq(username.as_str(), me),
        ServerMsg::UserLeft { username } => str_eq(username.as_str(), me),
        _ => false,
    }
}

/// Where a connection stands.
#[derive(Debug, Clone, Copy, PartialEq, Eq, Structural)]
pub enum Phase {
    /// Waiting for the registry to accept or refuse the username.
    Joining,
    /// Registered; the welcome is on its way to the client.
    Welcoming,
    /// In the room.
    Active,
    /// Over; nothing more happens.
    Closed,
}

/// Whether the connection holds its username in the registry.
pub open spec fn holds_name(p: Phase) -> bool {
    p == Phase::Welcoming || p == Phase::Active
}

/// Something that happened to a connection.
#[derive(Debug)]
pub enum Event {
    /// The registry accepted the username, or found it taken.
    Registered { accepted: bool },
    /// Whether the message last sent reached the client.
    Delivered { ok: bool },
    /// A message broadcast to the room.
    Relayed(ServerMsg),
    /// The room's channel dropped messages because this connection lagged.
    RelayLagged,
    /// The room's channel closed.
    RelayClosed,
    /// The client sent a message.
    FromClient(ClientMsg),
    /// The client sent text that is not a message.
    Undecodable,
    /// The client closed the connection, or it broke.
    ClientGone,
}

/// The value of an [`Event`].
pub enum SpecEvent {
    Registered { accepted: bool },
    Delivered { ok: bool },
    Relayed(SpecServerMsg),
    RelayLagged,
    RelayClosed,
    FromClient(SpecClientMsg),
    Undecodable,
    ClientGone,
}

impl View for Event {
    type V = SpecEvent;

    open spec fn view(&self) -> SpecEvent {
        match self {
            Event::Registered { accepted } => SpecEvent::Registered { accepted: *accepted },
            Event::Delivered { ok } => SpecEvent::Delivered { ok: *ok },
            Event::Relayed(m) => SpecEvent::Relayed(m@),
            Event::RelayLagged => SpecEvent::RelayLagged,
            Event::RelayClosed => SpecEvent::RelayClosed,
            Event::FromClient(m) => SpecEvent::FromClient(m@),
            Event::Undecodable => SpecEvent::Undecodable,
            Event::ClientGone => SpecEvent::ClientGone,
        }
    }
}

/// What the app is to do for a connection.
#[derive(Debug, PartialEq, Eq)]
pub enum Action {
    /// Write this message to the client.
    Send(ServerMsg),
    /// Broadcast this message to the room.
    Broadcast(ServerMsg),
    /// Release the username in the registry.
    Deregister,
}

/// The value of an [`Action`].
pub enum SpecAction {
    Send(SpecServerMsg),
    Broadcast(SpecServerMsg),
    Deregister,
}

impl View for Action {
    type V = SpecAction;

    open spec fn view(&self) -> SpecAction {
        match self {
            Action::Send(m) => SpecAction::Send(m@),
            Action::Broadcast(m) => SpecAction::Broadcast(m@),
            Action::Deregister => SpecAction::Deregister,
        }
    }
}

/// The actions of leaving the room: release the name, tell the others.
pub open spec fn leaving(me: Seq<char>) -> Seq<SpecAction> {
    seq![SpecAction::Deregister, SpecAction::Broadcast(SpecServerMsg::UserLeft { username: me })]
}

/// The next phase, and the actions, when `ev` happens to the connection of
/// `me` in phase `p`. An event that does not fit the phase changes nothing.
pub open spec fn session_step(p: Phase, me: Seq<char>, ev: SpecEvent) -> (Phase, Seq<SpecAction>) {
    match (p, ev) {
        (Phase::Joining, SpecEvent::Registered { accepted }) => if accepted {
            (Phase::Welcoming, seq![SpecAction::Send(SpecServerMsg::Welcome { username: me })])
        } else {
            (Phase::Closed, seq![SpecAction::Send(SpecServerMsg::UsernameTaken { username: me })])
        },
        (Phase::Welcoming, SpecEvent::Delivered { ok }) => if ok {
            (
                Phase::Active,
                seq![SpecAction::Broadcast(SpecServerMsg::UserJoined { username: me })],
            )
        } else {
            (Phase::Closed, seq![SpecAction::Deregister])
        },
        (Phase::Active, SpecEvent::Relayed(m)) => if is_echo(m, me) {
            (Phase::Active, Seq::empty())
        } else {
            (Phase::Active, seq![SpecAction::Send(m)])
        },
        (Phase::Active, SpecEvent::FromClient(SpecClientMsg::Send { text })) => (
            Phase::Active,
            seq![SpecAction::Broadcast(SpecServerMsg::Message { from: me, text })],
        ),
        (Phase::Active, SpecEvent::FromClient(SpecClientMsg::Leave)) => (
            Phase::Closed,
            leaving(me),
        ),
        (Phase::Active, SpecEvent::RelayClosed) => (Phase::Closed, leaving(me)),
        (Phase::Active, SpecEvent::Delivered { ok }) => if ok {
            (Phase::Active, Seq::empty())
        } else {
            (Phase::Closed, leaving(me))
        },
        (Phase::Active, SpecEvent::ClientGone) => (Phase::Closed, leaving(me)),
        _ => (p, Seq::empty()),
    }
}

/// The values of a list of actions.
pub open spec fn actions_view(acts: Seq<Action>) -> Seq<SpecAction> {
    acts.map_values(|a: Action| a@)
}

/// One connection of `username`.
pub struct Session {
    username: String,
    phase: Phase,
}

impl Session {
    /// The user this connection is for.
    pub closed spec fn user(self) -> Seq<char> {
        self.username@
    }

    /// Where the connection stands.
    pub closed spec fn spec_phase(self) -> Phase {
        self.phase
    }

    /// A connection that waits for the registry's answer.
    pub fn new(username: String) -> (r: Session)
        ensures
            r.user() == username@,
            r.spec_phase() == Phase::Joining,
    {
        Session { username, phase: Phase::Joining }
    }

    /// The user this connection is for.
    pub fn username(&self) -> (r: &str)
        ensures
            r@ == self.user(),
    {
        self.username.as_str()
    }

    /// Where the connection stands.
    pub fn phase(&self) -> (r: Phase)
        ensures
            r == self.spec_phase(),
    {
        self.phase
    }

    /// Leaves the room: the name is released and the others are told.
    fn leave(&mut self) -> (r: Vec<Action>)
        ensures
            final(self).user() == old(self).user(),
            final(self).spec_phase() == Phase::Closed,
            actions_view(r@) == leaving(old(self).user()),
    {
        self.phase = Phase::Closed;
        let mut r = Vec::new();
        r.push(Action::Deregister);
        r.push(Action::Broadcast(ServerMsg::UserLeft { username: self.username.clone() }));
        assert(actions_view(r@) =~= leaving(old(self).user()));
        r
    }

    /// Whether the connection waits for frames from the client and messages
    /// from the room; once it does not, the app ends the connection.
    pub fn listening(&self) -> (r: bool)
        ensures
            r == (self.spec_phase() == Phase::Active),
    {
        self.phase == Phase::Active
    }

    /// Applies one event and returns what the app is to do, in order.
    pub fn step(&mut self, event: Event) -> (r: Vec<Action>)
        ensures
            final(self).user() == old(self).user(),
            (final(self).spec_phase(), actions_view(r@)) == session_step(
                old(self).spec_phase(),
                old(self).user(),
                event@,
            ),
    {
        let mut r: Vec<Action> = Vec::new();
        match (self.phase, event) {
            (Phase::Joining, Event::Registered { accepted }) => {
                if accepted {
                    self.phase = Phase::Welcoming;
                    r.push(Action::Send(ServerMsg::Welcome { username: self.username.clone() }));
                } else {
                    self.phase = Phase::Closed;
                    r.push(Action::Send(ServerMsg::UsernameTaken { username: self.username.clone() }));
                }
            },
            (Phase::Welcoming, Event::Delivered { ok }) => {
                if ok {
                    self.phase = Phase::Active;
                    r.push(Action::Broadcast(ServerMsg::UserJoined { username: self.username.clone() }));
                } else {
                    self.phase = Phase::Closed;
                    r.push(Action::Deregister);
                }
            },
            (Phase::Active, Event::Relayed(m)) => {
                if !echoes(&m, self.username.as_str()) {
                    r.push(Action::Send(m));
                }
            },
            (Phase::Active, Event::FromClient(ClientMsg::Send { text })) => {
                r.push(
                    Action::Broadcast(ServerMsg::Message { from: self.username.clone(), text }),
                );
            },
            (Phase::Active, Event::FromClient(ClientMsg::Leave)) => {
                r = self.leave();
            },
            (Phase::Active, Event::RelayClosed) => {
                r = self.leave();
            },
            (Phase::Active, Event::Delivered { ok }) => {
                if !ok {
                    r = self.leave();
                }
            },
            (Phase::Active, Event::ClientGone) => {
                r = self.leave();
            },
            _ => {},
        }
        assert(actions_view(r@) == session_step(old(self).spec_phase(), old(self).user(), event@).1);
        r
    }
}

/// The final phase and all the actions when the events `evs` happen, in
/// order, to the connection of `me` that starts in phase `p`.
pub open spec fn run(p: Phase, me: Seq<char>, evs: Seq<SpecEvent>) -> (Phase, Seq<SpecAction>)
    decreases evs.len(),
{
    if evs.len() == 0 {
        (p, Seq::empty())
    } else {
        let (q, now) = session_step(p, me, evs[0]);
        let (last, later) = run(q, me, evs.drop_first());
        (last, now + later)
    }
}

/// How many times the action `a` occurs in `acts`.
pub open spec fn occurrences(acts: Seq<SpecAction>, a: SpecAction) -> nat
    decreases acts.len(),
{
    if acts.len() == 0 {
        0
    } else {
        (if acts[0] == a { 1nat } else { 0nat }) + occurrences(acts.drop_first(), a)
    }
}

/// How many times `acts` releases the username.
pub open spec fn deregistrations(acts: Seq<SpecAction>) -> nat {
    occurrences(acts, SpecAction::Deregister)
}

/// Whether the action writes to `me` a message about `me` itself.
pub open spec fn sends_echo(a: SpecAction, me: Seq<char>) -> bool {
    match a {
        SpecAction::Send(m) => is_echo(m, me),
        _ => false,
    }
}

/// Whether the action tells the room something in the name of anyone but
/// `me`: a message from someone else, or someone else joining or leaving.
pub open spec fn speaks_for_other(a: SpecAction, me: Seq<char>) -> bool {
    match a {
        SpecAction::Broadcast(m) => !is_echo(m, me),
        _ => false,
    }
}

proof fn lemma_occurrences_add(a: Seq<SpecAction>, b: Seq<SpecAction>, x: SpecAction)
    ensures
        occurrences(a + b, x) == occurrences(a, x) + occurrences(b, x),
    decreases a.len(),
{
    if a.len() > 0 {
        assert((a + b).drop_first() =~= a.drop_first() + b);
        lemma_occurrences_add(a.drop_first(), b, x);
    } else {
        assert(a + b =~= b);
    }
}

proof fn lemma_deregistrations_add(a: Seq<SpecAction>, b: Seq<SpecAction>)
    ensures
        deregistrations(a + b) == deregistrations(a) + deregistrations(b),
{
    lemma_occurrences_add(a, b, SpecAction::Deregister);
}

/// A closed connection stays closed and does nothing more, whatever happens.
pub proof fn law_closed_is_final(me: Seq<char>, ev: SpecEvent)
    ensures
        session_step(Phase::Closed, me, ev) == (Phase::Closed, Seq::<SpecAction>::empty()),
{
}

/// Whatever events arrive, a connection releases its username at most once
/// (and not at all once it is closed).
pub proof fn law_deregisters_at_most_once(p: Phase, me: Seq<char>, evs: Seq<SpecEvent>)
    ensures
        deregistrations(run(p, me, evs).1) <= (if p == Phase::Closed { 0nat } else { 1nat }),
    decreases evs.len(),
{
    if evs.len() > 0 {
        let (q, now) = session_step(p, me, evs[0]);
        law_deregisters_at_most_once(q, me, evs.drop_first());
        lemma_deregistrations_add(now, run(q, me, evs.drop_first()).1);
        reveal_with_fuel(occurrences, 3);
    }
}

/// A connection releases a username only if the registry accepted it for
/// this connection: one whose name was refused never frees the name of the
/// user who holds it.
pub proof fn law_deregisters_only_after_admission(p: Phase, me: Seq<char>, evs: Seq<SpecEvent>)
    requires
        !holds_name(p),
        deregistrations(run(p, me, evs).1) > 0,
    ensures
        exists|i: int|
            0 <= i < evs.len() && #[trigger] evs[i] == (SpecEvent::Registered { accepted: true }),
    decreases evs.len(),
{
    if evs.len() == 0 {
    } else {
        let (q, now) = session_step(p, me, evs[0]);
        lemma_deregistrations_add(now, run(q, me, evs.drop_first()).1);
        if evs[0] != (SpecEvent::Registered { accepted: true }) {
            reveal_with_fuel(occurrences, 2);
            assert(deregistrations(now) == 0);
            assert(!holds_name(q));
            law_deregisters_only_after_admission(q, me, evs.drop_first());
            let i = choose|i: int|
                0 <= i < evs.drop_first().len() && #[trigger] evs.drop_first()[i] == (
                SpecEvent::Registered { accepted: true });
            assert(evs[i + 1] == evs.drop_first()[i]);
        }
    }
}

/// Whatever events arrive, a connection never writes to its user that
/// user's own message, joining or leaving.
pub proof fn law_no_echo(p: Phase, me: Seq<char>, evs: Seq<SpecEvent>)
    ensures
        forall|i: int|
            0 <= i < run(p, me, evs).1.len() ==> !sends_echo(#[trigger] run(p, me, evs).1[i], me),
    decreases evs.len(),
{
    if evs.len() > 0 {
        let (q, now) = session_step(p, me, evs[0]);
        let later = run(q, me, evs.drop_first()).1;
        law_no_echo(q, me, evs.drop_first());
        assert forall|i: int| 0 <= i < (now + later).len() implies !sends_echo(
            #[trigger] (now + later)[i],
            me,
        ) by {
            if i >= now.len() {
                assert((now + later)[i] == later[i - now.len()]);
            }
        }
    }
}

/// Whatever events arrive, everything a connection broadcasts is in its
/// own user's name: a message from that user, or that user joining or
/// leaving.
pub proof fn law_speaks_only_for_itself(p: Phase, me: Seq<char>, evs: Seq<SpecEvent>)
    ensures
        forall|i: int|
            0 <= i < run(p, me, evs).1.len() ==> !speaks_for_other(
                #[trigger] run(p, me, evs).1[i],
                me,
            ),
    decreases evs.len(),
{
    if evs.len() > 0 {
        let (q, now) = session_step(p, me, evs[0]);
        let later = run(q, me, evs.drop_first()).1;
        law_speaks_only_for_itself(q, me, evs.drop_first());
        assert forall|i: int| 0 <= i < (now + later).len() implies !speaks_for_other(
            #[trigger] (now + later)[i],
            me,
        ) by {
            if i >= now.len() {
                assert((now + later)[i] == later[i - now.len()]);
            }
        }
    }
}

/// A connection that holds its username releases it exactly once by the
/// time it closes, and not while it stays open: however a user leaves
/// (by `leave`, by closing the socket, or by a broken link), the name is
/// freed and the room is told.
pub proof fn law_released_when_closed(p: Phase, me: Seq<char>, evs: Seq<SpecEvent>)
    requires
        p != Phase::Joining,
    ensures
        deregistrations(run(p, me, evs).1) == (if holds_name(p) && run(p, me, evs).0
            == Phase::Closed {
            1nat
        } else {
            0nat
        }),
    decreases evs.len(),
{
    reveal_with_fuel(occurrences, 3);
    if evs.len() > 0 {
        let (q, now) = session_step(p, me, evs[0]);
        let (last, later) = run(q, me, evs.drop_first());
        assert(run(p, me, evs) == (last, now + later));
        law_released_when_closed(q, me, evs.drop_first());
        lemma_deregistrations_add(now, later);
        if q == Phase::Closed {
            lemma_closed_stays_closed(me, evs.drop_first());
        }
    }
}

/// A closed connection ends closed.
proof fn lemma_closed_stays_closed(me: Seq<char>, evs: Seq<SpecEvent>)
    ensures
        run(Phase::Closed, me, evs).0 == Phase::Closed,
    decreases evs.len(),
{
    if evs.len() > 0 {
        lemma_closed_stays_closed(me, evs.drop_first());
    }
}

/// The announcement that `me` joined the room.
pub open spec fn joined(me: Seq<char>) -> SpecAction {
    SpecAction::Broadcast(SpecServerMsg::UserJoined { username: me })
}

/// The announcement that `me` left the room.
pub open spec fn left(me: Seq<char>) -> SpecAction {
    SpecAction::Broadcast(SpecServerMsg::UserLeft { username: me })
}

/// 1 where the room has been told that the connection's user is in it.
pub open spec fn in_room(p: Phase) -> nat {
    if p == Phase::Active {
        1
    } else {
        0
    }
}

/// Announcements balance: joins announced plus whether the user starts in
/// the room equal leaves announced plus whether the user ends in it; and at
/// most one join is announced, none once the user is in the room.
proof fn lemma_announcements(p: Phase, me: Seq<char>, evs: Seq<SpecEvent>)
    ensures
        occurrences(run(p, me, evs).1, joined(me)) + in_room(p) == occurrences(
            run(p, me, evs).1,
            left(me),
        ) + in_room(run(p, me, evs).0),
        occurrences(run(p, me, evs).1, joined(me)) <= (if p == Phase::Joining || p
            == Phase::Welcoming {
            1nat
        } else {
            0nat
        }),
    decreases evs.len(),
{
    reveal_with_fuel(occurrences, 3);
    if evs.len() > 0 {
        let (q, now) = session_step(p, me, evs[0]);
        let (last, later) = run(q, me, evs.drop_first());
        assert(run(p, me, evs) == (last, now + later));
        lemma_announcements(q, me, evs.drop_first());
        lemma_occurrences_add(now, later, joined(me));
        lemma_occurrences_add(now, later, left(me));
    }
}

/// Every announced leave comes after an announced join, unless the user
/// was in the room from the start.
proof fn lemma_left_after_joined(p: Phase, me: Seq<char>, evs: Seq<SpecEvent>, j: int)
    requires
        0 <= j < run(p, me, evs).1.len(),
        run(p, me, evs).1[j] == left(me),
    ensures
        p == Phase::Active || exists|i: int| 0 <= i < j && run(p, me, evs).1[i] == joined(me),
    decreases evs.len(),
{
    let (q, now) = session_step(p, me, evs[0]);
    let (last, later) = run(q, me, evs.drop_first());
    assert(run(p, me, evs) == (last, now + later));
    if j >= now.len() {
        assert((now + later)[j] == later[j - now.len()]);
        lemma_left_after_joined(q, me, evs.drop_first(), j - now.len());
        if q == Phase::Active && p != Phase::Active {
            assert((now + later)[0] == joined(me));
        } else if q != Phase::Active {
            let i = choose|i: int| 0 <= i < j - now.len() && later[i] == joined(me);
            assert((now + later)[i + now.len()] == later[i]);
        }
    }
}

/// Over any events, a connection announces its user's joining at most once
/// and leaving at most once, announces the leaving only after the joining,
/// and, once closed, has announced the leaving exactly when it announced
/// the joining.
pub proof fn law_join_leave_announced_once(me: Seq<char>, evs: Seq<SpecEvent>)
    ensures
        occurrences(run(Phase::Joining, me, evs).1, joined(me)) <= 1,
        occurrences(run(Phase::Joining, me, evs).1, left(me)) <= occurrences(
            run(Phase::Joining, me, evs).1,
            joined(me),
        ),
        run(Phase::Joining, me, evs).0 == Phase::Closed ==> occurrences(
            run(Phase::Joining, me, evs).1,
            left(me),
        ) == occurrences(run(Phase::Joining, me, evs).1, joined(me)),
        forall|j: int|
            0 <= j < run(Phase::Joining, me, evs).1.len() && run(Phase::Joining, me, evs).1[j]
                == left(me) ==> exists|i: int|
                0 <= i < j && run(Phase::Joining, me, evs).1[i] == joined(me),
{
    lemma_announcements(Phase::Joining, me, evs);
    assert forall|j: int|
        0 <= j < run(Phase::Joining, me, evs).1.len() && run(Phase::Joining, me, evs).1[j]
            == left(me) implies exists|i: int|
        0 <= i < j && run(Phase::Joining, me, evs).1[i] == joined(me) by {
        lemma_left_after_joined(Phase::Joining, me, evs, j);
    }
}

/// What a connection writes to its client for the messages `ms` of the
/// room: each that is not about the user, once, in the order they came.
pub open spec fn forwarded(ms: Seq<SpecServerMsg>, me: Seq<char>) -> Seq<SpecAction>
    decreases ms.len(),
{
    if ms.len() == 0 {
        Seq::empty()
    } else {
        (if is_echo(ms[0], me) {
            Seq::empty()
        } else {
            seq![SpecAction::Send(ms[0])]
        }) + forwarded(ms.drop_first(), me)
    }
}

/// Running two lists of events one after the other is running the first,
/// then the second from where the first left off.
proof fn lemma_run_append(p: Phase, me: Seq<char>, a: Seq<SpecEvent>, b: Seq<SpecEvent>)
    ensures
        run(p, me, a + b) == (
            run(run(p, me, a).0, me, b).0,
            run(p, me, a).1 + run(run(p, me, a).0, me, b).1,
        ),
    decreases a.len(),
{
    if a.len() == 0 {
        assert(a + b =~= b);
        assert(Seq::<SpecAction>::empty() + run(p, me, b).1 =~= run(p, me, b).1);
    } else {
        let (q, now) = session_step(p, me, a[0]);
        assert((a + b)[0] == a[0]);
        assert((a + b).drop_first() =~= a.drop_first() + b);
        lemma_run_append(q, me, a.drop_first(), b);
        let r = run(q, me, a.drop_first()).0;
        assert(now + (run(q, me, a.drop_first()).1 + run(r, me, b).1) =~= (now + run(
            q,
            me,
            a.drop_first(),
        ).1) + run(r, me, b).1);
    }
}

/// What the app feeds a connection in the room when the messages `ms` come
/// from the room and every write to the client succeeds: each message, and
/// after each that is written, the report that it was delivered.
pub open spec fn relays_delivered(ms: Seq<SpecServerMsg>, me: Seq<char>) -> Seq<SpecEvent>
    decreases ms.len(),
{
    if ms.len() == 0 {
        Seq::empty()
    } else {
        (if is_echo(ms[0], me) {
            seq![SpecEvent::Relayed(ms[0])]
        } else {
            seq![SpecEvent::Relayed(ms[0]), SpecEvent::Delivered { ok: true }]
        }) + relays_delivered(ms.drop_first(), me)
    }
}

/// In the room, while every write to the client succeeds, the messages `ms`
/// from the room are written to the client once each and in order, leaving
/// out those about the user, and the connection stays in the room.
pub proof fn law_relays_forwarded_in_order(me: Seq<char>, ms: Seq<SpecServerMsg>)
    ensures
        run(Phase::Active, me, relays_delivered(ms, me)) == (Phase::Active, forwarded(ms, me)),
    decreases ms.len(),
{
    if ms.len() > 0 {
        let head = if is_echo(ms[0], me) {
            seq![SpecEvent::Relayed(ms[0])]
        } else {
            seq![SpecEvent::Relayed(ms[0]), SpecEvent::Delivered { ok: true }]
        };
        let tail = relays_delivered(ms.drop_first(), me);
        lemma_run_append(Phase::Active, me, head, tail);
        law_relays_forwarded_in_order(me, ms.drop_first());
        reveal_with_fuel(run, 3);
        if is_echo(ms[0], me) {
            assert(head.drop_first() =~= Seq::<SpecEvent>::empty());
            assert(run(Phase::Active, me, head) == (Phase::Active, Seq::<SpecAction>::empty()));
        } else {
            assert(head.drop_first() =~= seq![SpecEvent::Delivered { ok: true }]);
            assert(head.drop_first().drop_first() =~= Seq::<SpecEvent>::empty());
            assert(run(Phase::Active, me, head).1 =~= seq![SpecAction::Send(ms[0])]);
        }
        assert(run(Phase::Active, me, head).1 + forwarded(ms.drop_first(), me) =~= forwarded(
            ms,
            me,
        ));
    }
}

/// A message from the room counts as the user's own only when it is about
/// that very user: a chat message whose sender is exactly `me`, or `me`
/// joining or leaving. Everything else, a message from anyone else above all,
/// is not.
pub proof fn law_echo_is_exactly_own(me: Seq<char>, m: SpecServerMsg)
    ensures
        m matches SpecServerMsg::Message { from, .. } ==> (is_echo(m, me) <==> from == me),
        m matches SpecServerMsg::UserJoined { username } ==> (is_echo(m, me) <==> username == me),
        m matches SpecServerMsg::UserLeft { username } ==> (is_echo(m, me) <==> username == me),
        m is Welcome || m is UsernameTaken || m is Error ==> !is_echo(m, me),
{
}

/// In the room, a chat message from anyone but the user is written to the
/// user's client unchanged, and one from the user is not.
pub proof fn law_others_messages_reach_client(me: Seq<char>, from: Seq<char>, text: Seq<char>)
    ensures
        from != me ==> session_step(
            Phase::Active,
            me,
            SpecEvent::Relayed(SpecServerMsg::Message { from, text }),
        ) == (Phase::Active, seq![SpecAction::Send(SpecServerMsg::Message { from, text })]),
        from == me ==> session_step(
            Phase::Active,
            me,
            SpecEvent::Relayed(SpecServerMsg::Message { from, text }),
        ) == (Phase::Active, Seq::<SpecAction>::empty()),
{
}

/// In the room, what a client sends is broadcast to the room as a message
/// from its user with exactly the text sent.
pub proof fn law_client_text_broadcast_unchanged(me: Seq<char>, text: Seq<char>)
    ensures
        session_step(Phase::Active, me, SpecEvent::FromClient(SpecClientMsg::Send { text }))
            == (Phase::Active, seq![SpecAction::Broadcast(SpecServerMsg::Message { from: me, text })]),
{
}

/// Whatever events arrive, every chat message a connection broadcasts is
/// from its user and carries a text that its client sent, word for word.
pub proof fn law_broadcast_text_was_sent(p: Phase, me: Seq<char>, evs: Seq<SpecEvent>, j: int)
    requires
        0 <= j < run(p, me, evs).1.len(),
        run(p, me, evs).1[j] matches SpecAction::Broadcast(SpecServerMsg::Message { .. }),
    ensures
        run(p, me, evs).1[j] matches SpecAction::Broadcast(SpecServerMsg::Message { from, text })
            && from == me && exists|i: int|
            0 <= i < evs.len() && evs[i] == SpecEvent::FromClient(SpecClientMsg::Send { text }),
    decreases evs.len(),
{
    let (q, now) = session_step(p, me, evs[0]);
    let (last, later) = run(q, me, evs.drop_first());
    assert(run(p, me, evs) == (last, now + later));
    if j < now.len() {
        assert((now + later)[j] == now[j]);
    } else {
        assert((now + later)[j] == later[j - now.len()]);
        law_broadcast_text_was_sent(q, me, evs.drop_first(), j - now.len());
        let text = match later[j - now.len()] {
            SpecAction::Broadcast(SpecServerMsg::Message { text, .. }) => text,
            _ => Seq::empty(),
        };
        let i = choose|i: int|
            0 <= i < evs.drop_first().len() && evs.drop_first()[i] == SpecEvent::FromClient(
                SpecClientMsg::Send { text },
            );
        assert(evs[i + 1] == evs.drop_first()[i]);
    }
}

/// The registry's answer decides how a connection starts: an accepted name
/// is welcomed, a taken one is told so and the connection closes.
pub proof fn law_registration_answer(me: Seq<char>)
    ensures
        session_step(Phase::Joining, me, SpecEvent::Registered { accepted: true }) == (
            Phase::Welcoming,
            seq![SpecAction::Send(SpecServerMsg::Welcome { username: me })],
        ),
        session_step(Phase::Joining, me, SpecEvent::Registered { accepted: false }) == (
            Phase::Closed,
            seq![SpecAction::Send(SpecServerMsg::UsernameTaken { username: me })],
        ),
{
}

/// In the room, `leave`, a closed socket, a closed room or a failed write
/// each end the connection: the name is released and the room is told the
/// user left.
pub proof fn law_leaving_the_room(me: Seq<char>, ev: SpecEvent)
    requires
        ev == SpecEvent::FromClient(SpecClientMsg::Leave) || ev == SpecEvent::ClientGone || ev
            == SpecEvent::RelayClosed || ev == (SpecEvent::Delivered { ok: false }),
    ensures
        session_step(Phase::Active, me, ev) == (
            Phase::Closed,
            seq![
                SpecAction::Deregister,
                SpecAction::Broadcast(SpecServerMsg::UserLeft { username: me }),
            ],
        ),
{
}

/// A WebSocket upgrade is refused exactly when the username is empty or
/// made of white space only.
pub proof fn law_username_required(username: Seq<char>)
    ensures
        trimmed(username).len() > 0 <==> exists|i: int|
            0 <= i < username.len() && !white_space(#[trigger] username[i]),
{
    law_blank_is_all_white_space(username);
}

} // verus!
