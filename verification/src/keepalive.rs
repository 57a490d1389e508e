//! The keep-alive loop as a state machine.  The caller owns the timer and the
//! transport; the loop says what to emit on a tick and stops for good at the
//! first emission that fails.

use vstd::prelude::*;
use crate::connection::{actions_view, emission, Action, ActionView, ConnectionState,
    FeedConnection};
use crate::feed::{Notice, NoticeView};
use crate::session::{Session, SessionView};

verus! {

/// Seconds between two refresh emissions.
pub const REFRESH_INTERVAL_SECS: u64 = 5;

/// What the caller tells the loop.
#[derive(Clone, Debug, PartialEq, Eq)]
pub enum LoopEvent {
    /// The interval has passed.
    Tick,
    /// The emission asked for on a tick failed.
    EmitFailed(String),
}

/// The mathematical value of a [`LoopEvent`].
pub enum LoopEventView {
    Tick,
    EmitFailed(Seq<char>),
}

impl View for LoopEvent {
    type V = LoopEventView;

    open spec fn view(&self) -> LoopEventView {
        match self {
            LoopEvent::Tick => LoopEventView::Tick,
            LoopEvent::EmitFailed(detail) => LoopEventView::EmitFailed(detail@),
        }
    }
}

/// The mathematical value of a [`KeepAliveLoop`].
pub struct LoopView {
    pub session: SessionView,
    pub stopped: bool,
}

/// What a loop asks for when `event` arrives: while it runs, one emission per
/// tick and one report for a failure; once stopped, nothing.
pub open spec fn loop_answer(state: LoopView, event: LoopEventView) -> Seq<ActionView> {
    if state.stopped {
        Seq::empty()
    } else {
        match event {
            LoopEventView::Tick => seq![emission(state.session)],
            LoopEventView::EmitFailed(detail) => seq![
                ActionView::Report(NoticeView::EmitError(detail)),
            ],
        }
    }
}

/// The loop after `event`: a failure stops it, nothing starts it again.
pub open spec fn loop_after(state: LoopView, event: LoopEventView) -> LoopView {
    LoopView { stopped: state.stopped || event is EmitFailed, ..state }
}

/// Everything a loop asks for over a run of events, in order.
pub open spec fn loop_trace(state: LoopView, events: Seq<LoopEventView>) -> Seq<ActionView>
    decreases events.len(),
{
    if events.len() == 0 {
        Seq::empty()
    } else {
        loop_answer(state, events[0]) + loop_trace(
            loop_after(state, events[0]),
            events.drop_first(),
        )
    }
}

/// The loop at the end of a run of events.
pub open spec fn loop_end(state: LoopView, events: Seq<LoopEventView>) -> LoopView
    decreases events.len(),
{
    if events.len() == 0 {
        state
    } else {
        loop_end(loop_after(state, events[0]), events.drop_first())
    }
}

/// The position of the first failure in `events`, or their number where none
/// of them is a failure.
pub open spec fn first_failure(events: Seq<LoopEventView>) -> nat
    decreases events.len(),
{
    if events.len() == 0 {
        0
    } else if events[0] is EmitFailed {
        0
    } else {
        1 + first_failure(events.drop_first())
    }
}

/// The periodic refresh of one subscription.
pub struct KeepAliveLoop {
    session: Session,
    stopped: bool,
}

impl View for KeepAliveLoop {
    type V = LoopView;

    closed spec fn view(&self) -> LoopView {
        LoopView { session: self.session@, stopped: self.stopped }
    }
}

impl KeepAliveLoop {
    /// A running loop that refreshes the subscription of `session`.
    pub fn new(session: Session) -> (out: KeepAliveLoop)
        ensures
            out@ == (LoopView { session: session@, stopped: false }),
    {
        KeepAliveLoop { session, stopped: false }
    }

    /// The loop for a connection: one exists only while the connection is
    /// `Connected`, and it refreshes the very session of the handshake.
    pub fn for_connection(conn: &FeedConnection) -> (out: Option<KeepAliveLoop>)
        ensures
            out is Some <==> conn@.state == ConnectionState::Connected,
            out matches Some(keeper) ==> keeper@ == (LoopView {
                session: conn@.session,
                stopped: false,
            }),
    {
        match conn.state() {
            ConnectionState::Connected => Some(KeepAliveLoop::new(conn.session().duplicate())),
            _ => None,
        }
    }

    /// Whether the loop has stopped.
    pub fn is_stopped(&self) -> (out: bool)
        ensures
            out == self@.stopped,
    {
        self.stopped
    }

    /// The session whose subscription is refreshed.
    pub fn session(&self) -> (out: &Session)
        ensures
            out@ == self@.session,
    {
        &self.session
    }

    /// Takes one event: a tick asks for one emission, the first failure is
    /// reported and stops the loop, and a stopped loop answers nothing ever
    /// again.
    pub fn step(&mut self, event: LoopEvent) -> (out: Vec<Action>)
        ensures
            final(self)@ == loop_after(old(self)@, event@),
            actions_view(out@) == loop_answer(old(self)@, event@),
            out@.len() == loop_answer(old(self)@, event@).len(),
    {
        let mut out: Vec<Action> = Vec::new();
        match event {
            LoopEvent::Tick => {
                if !self.stopped {
                    out.push(Action::subscribe(&self.session));
                }
            },
            LoopEvent::EmitFailed(detail) => {
                if !self.stopped {
                    self.stopped = true;
                    out.push(Action::Report(Notice::EmitError(detail)));
                }
            },
        }
        assert(actions_view(out@) =~= loop_answer(old(self)@, event@));
        out
    }
}

/// A tick on a running loop asks for exactly one emission, that of the loop's
/// own session, and leaves the loop as it was.
pub proof fn law_one_emission_per_tick(state: LoopView)
    requires
        !state.stopped,
    ensures
        loop_answer(state, LoopEventView::Tick) == seq![emission(state.session)],
        loop_after(state, LoopEventView::Tick) == state,
{
}

/// A stopped loop stays stopped and silent, whatever arrives.
pub proof fn law_stop_is_permanent(state: LoopView, events: Seq<LoopEventView>)
    requires
        state.stopped,
    ensures
        loop_trace(state, events) == Seq::<ActionView>::empty(),
        loop_end(state, events) == state,
    decreases events.len(),
{
    if events.len() > 0 {
        law_stop_is_permanent(loop_after(state, events[0]), events.drop_first());
        assert(loop_trace(state, events) =~= Seq::<ActionView>::empty());
    }
}

/// Over any run of events a running loop emits once for each tick that comes
/// before the first failure, reports that failure, and does nothing more: a
/// later tick emits nothing and a later failure is not reported.
pub proof fn law_run_of_loop(state: LoopView, events: Seq<LoopEventView>)
    requires
        !state.stopped,
    ensures
        first_failure(events) <= events.len(),
        forall|k: int| 0 <= k < first_failure(events) ==> events[k] is Tick,
        first_failure(events) < events.len() ==> events[first_failure(events) as int]
            is EmitFailed,
        loop_trace(state, events).len() == if first_failure(events) < events.len() {
            first_failure(events) + 1
        } else {
            events.len()
        },
        forall|k: int|
            0 <= k < first_failure(events) ==> loop_trace(state, events)[k] == emission(
                state.session,
            ),
        first_failure(events) < events.len() ==> loop_trace(state, events)[first_failure(
            events,
        ) as int] == ActionView::Report(
            NoticeView::EmitError(events[first_failure(events) as int]->EmitFailed_0),
        ),
        loop_end(state, events).session == state.session,
        loop_end(state, events).stopped == (first_failure(events) < events.len()),
    decreases events.len(),
{
    if events.len() > 0 {
        let rest = events.drop_first();
        let next = loop_after(state, events[0]);
        if events[0] is EmitFailed {
            law_stop_is_permanent(next, rest);
        } else {
            law_run_of_loop(next, rest);
            assert forall|k: int| 0 <= k < first_failure(events) implies events[k] is Tick by {
                if k > 0 {
                    assert(events[k] == rest[k - 1]);
                }
            }
            assert forall|k: int| 0 <= k < first_failure(events) implies loop_trace(
                state,
                events,
            )[k] == emission(state.session) by {
                if k > 0 {
                    assert(loop_trace(state, events)[k] == loop_trace(next, rest)[k - 1]);
                }
            }
            if first_failure(events) < events.len() {
                let at = first_failure(events) as int;
                assert(events[at] == rest[at - 1]);
                assert(loop_trace(state, events)[at] == loop_trace(next, rest)[at - 1]);
            }
        }
    }
}

} // verus!
