//! The feed connection as a state machine.  The caller owns the transport and
//! tells the connection what happened; the connection answers with the next
//! state and with what to send or report.

use vstd::prelude::*;
use vstd::string::*;
use crate::feed::{items_view, notice_for, refresh_of, InboundItem, ItemView, Notice, NoticeView,
    RefreshRequest, RefreshView};
use crate::session::{Session, SessionView};

verus! {

/// The life of a connection.  It moves forward only, and `Terminated` is the
/// end: no event leaves it.
#[derive(Clone, Copy, Debug, PartialEq, Eq, Structural)]
pub enum ConnectionState {
    Disconnected,
    Connecting,
    Connected,
    Terminated,
}

/// What the transport tells the connection.
#[derive(Clone, Debug, PartialEq, Eq)]
pub enum Event {
    /// The caller asks for the connection to be made.
    ConnectRequested,
    /// The transport handshake succeeded.
    Opened,
    /// The transport could not be established at all.
    ConnectFailed(String),
    /// The backend sent the event `name` with `payload`.
    Inbound { name: String, payload: Vec<InboundItem> },
    /// An emission on the transport failed.
    EmitFailed(String),
    /// The transport reported an error of its own, or the remote end closed.
    Closed,
}

/// The mathematical value of an [`Event`].
pub enum EventView {
    ConnectRequested,
    Opened,
    ConnectFailed(Seq<char>),
    Inbound { name: Seq<char>, payload: Seq<ItemView> },
    EmitFailed(Seq<char>),
    Closed,
}

impl View for Event {
    type V = EventView;

    open spec fn view(&self) -> EventView {
        match self {
            Event::ConnectRequested => EventView::ConnectRequested,
            Event::Opened => EventView::Opened,
            Event::ConnectFailed(detail) => EventView::ConnectFailed(detail@),
            Event::Inbound { name, payload } => EventView::Inbound {
                name: name@,
                payload: items_view(payload@),
            },
            Event::EmitFailed(detail) => EventView::EmitFailed(detail@),
            Event::Closed => EventView::Closed,
        }
    }
}

/// What the connection asks of its caller in answer to an event.
#[derive(Clone, Debug, PartialEq, Eq)]
pub enum Action {
    /// Open the transport to this server.
    Open(String),
    /// Send `payload` under the event name `event`.
    Emit { event: String, payload: RefreshRequest },
    /// Pass this notice to the reporter.
    Report(Notice),
}

/// The mathematical value of an [`Action`].
pub enum ActionView {
    Open(Seq<char>),
    Emit { event: Seq<char>, payload: RefreshView },
    Report(NoticeView),
}

impl View for Action {
    type V = ActionView;

    open spec fn view(&self) -> ActionView {
        match self {
            Action::Open(url) => ActionView::Open(url@),
            Action::Emit { event, payload } => ActionView::Emit {
                event: event@,
                payload: payload@,
            },
            Action::Report(notice) => ActionView::Report(notice@),
        }
    }
}

/// The values of a list of actions, in order.
pub open spec fn actions_view(actions: Seq<Action>) -> Seq<ActionView> {
    actions.map_values(|action: Action| action@)
}

/// The event that the transport raises once it is connected.
pub open spec fn connect_event() -> Seq<char> {
    "connect"@
}

/// The event under which the backend pushes position data.
pub open spec fn data_event() -> Seq<char> {
    "onFts-client"@
}

/// The event under which the backend reports an error.
pub open spec fn error_event() -> Seq<char> {
    "error"@
}

/// The event under which a subscription is requested and refreshed.
pub open spec fn refresh_event() -> Seq<char> {
    "onFts-reload"@
}

/// The emission that subscribes `session`.
pub open spec fn emission(session: SessionView) -> ActionView {
    ActionView::Emit { event: refresh_event(), payload: refresh_of(session) }
}

/// One report for each item, in the order of arrival.
pub open spec fn reports(items: Seq<ItemView>) -> Seq<ActionView> {
    items.map_values(|item: ItemView| ActionView::Report(notice_for(item)))
}

/// Whether `event` says that the transport stands: its handshake succeeded, or
/// the backend greeted with the connect event.
pub open spec fn announces_connection(event: EventView) -> bool {
    event is Opened || (event is Inbound && event->name == connect_event())
}

/// Whether `event` is the backend's event `name`.
pub open spec fn is_named(event: EventView, name: Seq<char>) -> bool {
    event is Inbound && event->name == name
}

/// The state after `event` arrives in `state`.
pub open spec fn next_state(state: ConnectionState, event: EventView) -> ConnectionState {
    match state {
        ConnectionState::Disconnected => if event is ConnectRequested {
            ConnectionState::Connecting
        } else {
            ConnectionState::Disconnected
        },
        ConnectionState::Connecting => if announces_connection(event) {
            ConnectionState::Connected
        } else if event is ConnectFailed || event is Closed {
            ConnectionState::Terminated
        } else {
            ConnectionState::Connecting
        },
        ConnectionState::Connected => if event is EmitFailed || event is Closed {
            ConnectionState::Terminated
        } else {
            ConnectionState::Connected
        },
        ConnectionState::Terminated => ConnectionState::Terminated,
    }
}

/// The mathematical value of a [`FeedConnection`].
pub struct ConnectionView {
    pub server_url: Seq<char>,
    pub session: SessionView,
    pub state: ConnectionState,
}

/// What a connection asks for when `event` arrives.
pub open spec fn answer(conn: ConnectionView, event: EventView) -> Seq<ActionView> {
    match conn.state {
        ConnectionState::Disconnected => if event is ConnectRequested {
            seq![ActionView::Open(conn.server_url)]
        } else {
            Seq::empty()
        },
        ConnectionState::Connecting => if announces_connection(event) {
            seq![emission(conn.session)]
        } else if event is ConnectFailed {
            seq![ActionView::Report(NoticeView::ConnectError(event->ConnectFailed_0))]
        } else if is_named(event, error_event()) {
            seq![ActionView::Report(NoticeView::ServerError(event->payload))]
        } else {
            Seq::empty()
        },
        ConnectionState::Connected => if is_named(event, data_event()) {
            reports(event->payload)
        } else if is_named(event, error_event()) {
            seq![ActionView::Report(NoticeView::ServerError(event->payload))]
        } else if event is EmitFailed {
            seq![ActionView::Report(NoticeView::EmitError(event->EmitFailed_0))]
        } else {
            Seq::empty()
        },
        ConnectionState::Terminated => Seq::empty(),
    }
}

/// The connection after `event`: only the state moves.
pub open spec fn after(conn: ConnectionView, event: EventView) -> ConnectionView {
    ConnectionView { state: next_state(conn.state, event), ..conn }
}

/// Whether `name` spells `literal`.
fn spells(name: &String, literal: &str) -> (out: bool)
    ensures
        out == (name@ == literal@),
{
    let literal = String::from_str(literal);
    *name == literal
}

/// One report for each item of `payload`, in order.
fn report_items(payload: &Vec<InboundItem>) -> (out: Vec<Action>)
    ensures
        actions_view(out@) == reports(items_view(payload@)),
{
    let mut out: Vec<Action> = Vec::new();
    let mut index: usize = 0;
    while index < payload.len()
        invariant
            index <= payload.len(),
            out.len() == index,
            forall|k: int|
                0 <= k < index ==> (#[trigger] out[k])@ == ActionView::Report(
                    notice_for(payload[k]@),
                ),
        decreases payload.len() - index,
    {
        out.push(Action::Report(Notice::for_item(&payload[index])));
        index = index + 1;
    }
    assert(actions_view(out@) =~= reports(items_view(payload@)));
    out
}

impl Action {
    /// The emission that subscribes `session`: the refresh request under the
    /// event name it is sent with.
    pub fn subscribe(session: &Session) -> (out: Action)
        ensures
            out@ == emission(session@),
    {
        Action::Emit {
            event: String::from_str("onFts-reload"),
            payload: RefreshRequest::for_session(session),
        }
    }
}

/// One connection to the feed backend, together with the session that it
/// subscribes.  Neither the server nor the session changes after `new`.
pub struct FeedConnection {
    server_url: String,
    session: Session,
    state: ConnectionState,
}

impl View for FeedConnection {
    type V = ConnectionView;

    closed spec fn view(&self) -> ConnectionView {
        ConnectionView {
            server_url: self.server_url@,
            session: self.session@,
            state: self.state,
        }
    }
}

impl FeedConnection {
    /// A connection that has not been asked to connect yet.
    pub fn new(server_url: String, session: Session) -> (out: FeedConnection)
        ensures
            out@ == (ConnectionView {
                server_url: server_url@,
                session: session@,
                state: ConnectionState::Disconnected,
            }),
    {
        FeedConnection { server_url, session, state: ConnectionState::Disconnected }
    }

    /// The current state.
    pub fn state(&self) -> (out: ConnectionState)
        ensures
            out == self@.state,
    {
        self.state
    }

    /// The session that this connection subscribes.
    pub fn session(&self) -> (out: &Session)
        ensures
            out@ == self@.session,
    {
        &self.session
    }

    /// The server that this connection is for.
    pub fn server_url(&self) -> (out: &str)
        ensures
            out@ == self@.server_url,
    {
        self.server_url.as_str()
    }

    /// The emission that subscribes this connection's session.
    pub fn subscription(&self) -> (out: Action)
        ensures
            out@ == emission(self@.session),
    {
        Action::subscribe(&self.session)
    }

    /// Takes one event: moves the state and says what to do.
    ///
    /// A request to connect opens the transport.  The first sign that the
    /// transport stands makes the connection `Connected` and emits the
    /// subscription at once.  While connected, each item of a data event is
    /// reported in order; an error event is reported and changes nothing.  A
    /// failed connect or emission is reported and ends the connection, a close
    /// ends it silently.  Whatever arrives out of turn, and everything after
    /// the end, is answered with nothing.
    pub fn step(&mut self, event: Event) -> (out: Vec<Action>)
        ensures
            final(self)@ == after(old(self)@, event@),
            actions_view(out@) == answer(old(self)@, event@),
            out@.len() == answer(old(self)@, event@).len(),
    {
        let mut out: Vec<Action> = Vec::new();
        match self.state {
            ConnectionState::Disconnected => match event {
                Event::ConnectRequested => {
                    self.state = ConnectionState::Connecting;
                    out.push(Action::Open(self.server_url.clone()));
                },
                _ => {},
            },
            ConnectionState::Connecting => match event {
                Event::Opened => {
                    self.state = ConnectionState::Connected;
                    out.push(self.subscription());
                },
                Event::ConnectFailed(detail) => {
                    self.state = ConnectionState::Terminated;
                    out.push(Action::Report(Notice::ConnectError(detail)));
                },
                Event::Closed => {
                    self.state = ConnectionState::Terminated;
                },
                Event::Inbound { name, payload } => {
                    if spells(&name, "connect") {
                        self.state = ConnectionState::Connected;
                        out.push(self.subscription());
                    } else if spells(&name, "error") {
                        out.push(Action::Report(Notice::ServerError(payload)));
                    }
                },
                _ => {},
            },
            ConnectionState::Connected => match event {
                Event::EmitFailed(detail) => {
                    self.state = ConnectionState::Terminated;
                    out.push(Action::Report(Notice::EmitError(detail)));
                },
                Event::Closed => {
                    self.state = ConnectionState::Terminated;
                },
                Event::Inbound { name, payload } => {
                    if spells(&name, "onFts-client") {
                        out = report_items(&payload);
                    } else if spells(&name, "error") {
                        out.push(Action::Report(Notice::ServerError(payload)));
                    }
                },
                _ => {},
            },
            ConnectionState::Terminated => {},
        }
        assert(actions_view(out@) =~= answer(old(self)@, event@));
        out
    }

    /// Takes the backend's event `name` with its payload: the one entry point
    /// for whatever the transport delivers by name.
    pub fn handle_event(&mut self, name: &str, payload: Vec<InboundItem>) -> (out: Vec<Action>)
        ensures
            final(self)@ == after(
                old(self)@,
                EventView::Inbound { name: name@, payload: items_view(payload@) },
            ),
            actions_view(out@) == answer(
                old(self)@,
                EventView::Inbound { name: name@, payload: items_view(payload@) },
            ),
            out@.len() == answer(
                old(self)@,
                EventView::Inbound { name: name@, payload: items_view(payload@) },
            ).len(),
    {
        self.step(Event::Inbound { name: String::from_str(name), payload })
    }
}

/// Everything a connection asks for over a run of events, in order.
pub open spec fn run_trace(conn: ConnectionView, events: Seq<EventView>) -> Seq<ActionView>
    decreases events.len(),
{
    if events.len() == 0 {
        Seq::empty()
    } else {
        answer(conn, events[0]) + run_trace(after(conn, events[0]), events.drop_first())
    }
}

/// The connection at the end of a run of events.
pub open spec fn run_end(conn: ConnectionView, events: Seq<EventView>) -> ConnectionView
    decreases events.len(),
{
    if events.len() == 0 {
        conn
    } else {
        run_end(after(conn, events[0]), events.drop_first())
    }
}

/// How far along its life a connection is.
pub open spec fn rank(state: ConnectionState) -> nat {
    match state {
        ConnectionState::Disconnected => 0,
        ConnectionState::Connecting => 1,
        ConnectionState::Connected => 2,
        ConnectionState::Terminated => 3,
    }
}

/// The number of emissions among `actions`.
pub open spec fn emissions(actions: Seq<ActionView>) -> nat
    decreases actions.len(),
{
    if actions.len() == 0 {
        0
    } else {
        (if actions[0] is Emit {
            1nat
        } else {
            0nat
        }) + emissions(actions.drop_first())
    }
}

/// The three event names that the connection tells apart are three names.
pub proof fn law_event_names_differ()
    ensures
        connect_event() != data_event(),
        connect_event() != error_event(),
        data_event() != error_event(),
{
    reveal_strlit("connect");
    reveal_strlit("onFts-client");
    reveal_strlit("error");
    assert(connect_event().len() == 7);
    assert(data_event().len() == 12);
    assert(error_event().len() == 5);
}

/// A connection moves forward only: no event takes it back to an earlier
/// state, and at most one step further at a time unless it ends.
pub proof fn law_state_moves_forward(state: ConnectionState, event: EventView)
    ensures
        rank(state) <= rank(next_state(state, event)),
        next_state(state, event) == state || next_state(state, event)
            == ConnectionState::Terminated || rank(next_state(state, event)) == rank(state) + 1,
{
}

/// `Terminated` is the end: whatever arrives afterwards, the connection stays
/// there and asks for nothing.
pub proof fn law_terminated_is_absorbing(conn: ConnectionView, events: Seq<EventView>)
    requires
        conn.state == ConnectionState::Terminated,
    ensures
        run_trace(conn, events) == Seq::<ActionView>::empty(),
        run_end(conn, events) == conn,
    decreases events.len(),
{
    if events.len() > 0 {
        law_terminated_is_absorbing(after(conn, events[0]), events.drop_first());
        assert(run_trace(conn, events) =~= Seq::<ActionView>::empty());
    }
}

/// A data event on a connected connection gives one report for each item, in
/// the order of the items, and leaves the connection connected.
pub proof fn law_reports_in_order(conn: ConnectionView, items: Seq<ItemView>)
    requires
        conn.state == ConnectionState::Connected,
    ensures
        answer(conn, EventView::Inbound { name: data_event(), payload: items }).len()
            == items.len(),
        forall|k: int|
            0 <= k < items.len() ==> answer(
                conn,
                EventView::Inbound { name: data_event(), payload: items },
            )[k] == ActionView::Report(notice_for(items[k])),
        after(conn, EventView::Inbound { name: data_event(), payload: items }) == conn,
{
}

/// The emissions of two runs of actions add up.
proof fn lemma_emissions_add(first: Seq<ActionView>, second: Seq<ActionView>)
    ensures
        emissions(first + second) == emissions(first) + emissions(second),
    decreases first.len(),
{
    if first.len() == 0 {
        assert(first + second =~= second);
    } else {
        lemma_emissions_add(first.drop_first(), second);
        assert((first + second).drop_first() =~= first.drop_first() + second);
    }
}

/// Reports hold no emission.
proof fn lemma_reports_emit_nothing(items: Seq<ItemView>)
    ensures
        emissions(reports(items)) == 0,
    decreases items.len(),
{
    if items.len() > 0 {
        lemma_reports_emit_nothing(items.drop_first());
        assert(reports(items).drop_first() =~= reports(items.drop_first()));
    }
}

/// The emissions of at most one action.
proof fn lemma_emissions_of_one(actions: Seq<ActionView>)
    requires
        actions.len() <= 1,
    ensures
        emissions(actions) == if actions.len() == 1 && actions[0] is Emit {
            1nat
        } else {
            0nat
        },
{
    if actions.len() == 1 {
        assert(actions.drop_first().len() == 0);
        assert(emissions(actions.drop_first()) == 0);
    }
}

/// Neither the server nor the session changes over a run, and every emission
/// of the run is the subscription of that one session.
pub proof fn law_session_is_fixed(conn: ConnectionView, events: Seq<EventView>)
    ensures
        run_end(conn, events).session == conn.session,
        run_end(conn, events).server_url == conn.server_url,
        forall|k: int|
            0 <= k < run_trace(conn, events).len() && run_trace(conn, events)[k] is Emit
                ==> run_trace(conn, events)[k] == emission(conn.session),
    decreases events.len(),
{
    if events.len() > 0 {
        let head = answer(conn, events[0]);
        let next = after(conn, events[0]);
        let rest = events.drop_first();
        law_session_is_fixed(next, rest);
        assert forall|k: int|
            0 <= k < run_trace(conn, events).len() && run_trace(conn, events)[k] is Emit implies 
            run_trace(conn, events)[k] == emission(conn.session) by {
            if k >= head.len() {
                assert(run_trace(conn, events)[k] == run_trace(next, rest)[k - head.len()]);
            }
        }
    }
}

/// The subscription is emitted when the connection becomes connected and at
/// no other time, so a run holds at most one emission, and none once the
/// connection is connected or ended.
pub proof fn law_single_handshake(conn: ConnectionView, events: Seq<EventView>)
    ensures
        emissions(run_trace(conn, events)) <= 1,
        rank(conn.state) >= 2 ==> emissions(run_trace(conn, events)) == 0,
        emissions(run_trace(conn, events)) == 1 ==> rank(run_end(conn, events).state) >= 2,
    decreases events.len(),
{
    if events.len() > 0 {
        let head = answer(conn, events[0]);
        let next = after(conn, events[0]);
        let rest = events.drop_first();
        law_single_handshake(next, rest);
        law_run_moves_forward(next, rest);
        lemma_emissions_add(head, run_trace(next, rest));
        if conn.state == ConnectionState::Connected && is_named(events[0], data_event()) {
            lemma_reports_emit_nothing(events[0]->payload);
        } else {
            lemma_emissions_of_one(head);
        }
    }
}

/// Over a whole run, too, the connection moves forward only.
pub proof fn law_run_moves_forward(conn: ConnectionView, events: Seq<EventView>)
    ensures
        rank(conn.state) <= rank(run_end(conn, events).state),
    decreases events.len(),
{
    if events.len() > 0 {
        law_run_moves_forward(after(conn, events[0]), events.drop_first());
    }
}

} // verus!
