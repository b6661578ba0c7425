//! Laws of whole runs of one session.
//!
//! A run consumes a sequence of events from some starting state, stepping
//! the machine once per event. This module defines the state reached, the
//! requests accepted and the responses emitted along a run, and proves the
//! laws of the bridge: responses answer requests in exact FIFO order and
//! carry their tag and color verbatim; a response's body joins exactly the
//! lines emitted before the blank-line terminator; a session that has
//! closed stays closed and emits nothing further; and the process is shut
//! down exactly when the session ends.

use vstd::prelude::*;
use crate::envelope::InboundModel;
use crate::envelope::OutboundModel;
use crate::framing::joined;
use crate::session::ActionModel;
use crate::session::EventModel;
use crate::session::StateModel;
use crate::session::step_model;

verus! {

/// The state the machine reaches after consuming `events` from `s`.
pub open spec fn run_state(s: StateModel, events: Seq<EventModel>) -> StateModel
    decreases events.len(),
{
    if events.len() == 0 {
        s
    } else {
        run_state(step_model(s, events[0]).0, events.drop_first())
    }
}

/// The responses the machine hands to the shell along the run, in order.
pub open spec fn run_responses(s: StateModel, events: Seq<EventModel>) -> Seq<OutboundModel>
    decreases events.len(),
{
    if events.len() == 0 {
        Seq::empty()
    } else {
        let next = step_model(s, events[0]);
        (match next.1 {
            ActionModel::Send(resp) => seq![resp],
            _ => Seq::empty(),
        }) + run_responses(next.0, events.drop_first())
    }
}

/// The well-formed requests the machine accepts along the run, in order.
pub open spec fn run_requests(s: StateModel, events: Seq<EventModel>) -> Seq<InboundModel>
    decreases events.len(),
{
    if events.len() == 0 {
        Seq::empty()
    } else {
        (match (s, events[0]) {
            (StateModel::Idle, EventModel::Frame(Some(req))) => if req.wf() {
                seq![req]
            } else {
                Seq::empty()
            },
            _ => Seq::empty(),
        }) + run_requests(step_model(s, events[0]).0, events.drop_first())
    }
}

/// The correlation a request carries: its tag and its color.
pub open spec fn request_key(req: InboundModel) -> (Seq<char>, Option<Seq<char>>) {
    (req.tag, req.color)
}

/// The correlation a response carries.
pub open spec fn response_key(resp: OutboundModel) -> (Seq<char>, Option<Seq<char>>) {
    (resp.tag, resp.color)
}

/// The key of the at most one request in flight in state `s`.
pub open spec fn pending_key(s: StateModel) -> Option<(Seq<char>, Option<Seq<char>>)> {
    match s {
        StateModel::Writing { tag, color } => Some((tag, color)),
        StateModel::Collecting { tag, color, .. } => Some((tag, color)),
        _ => None,
    }
}

/// A session that has closed stays closed: no event reopens it.
pub proof fn lemma_closed_stays_closed(events: Seq<EventModel>)
    ensures
        run_state(StateModel::Closed, events) is Closed,
    decreases events.len(),
{
    if events.len() > 0 {
        lemma_closed_stays_closed(events.drop_first());
    }
}

/// A session that has closed emits no further response.
pub proof fn lemma_closed_sends_nothing(events: Seq<EventModel>)
    ensures
        run_responses(StateModel::Closed, events) == Seq::<OutboundModel>::empty(),
    decreases events.len(),
{
    if events.len() > 0 {
        lemma_closed_sends_nothing(events.drop_first());
        assert(run_responses(StateModel::Closed, events) =~= Seq::<OutboundModel>::empty());
    }
}

/// A session that has closed accepts no further request.
pub proof fn lemma_closed_accepts_nothing(events: Seq<EventModel>)
    ensures
        run_requests(StateModel::Closed, events) == Seq::<InboundModel>::empty(),
    decreases events.len(),
{
    if events.len() > 0 {
        lemma_closed_accepts_nothing(events.drop_first());
        assert(run_requests(StateModel::Closed, events) =~= Seq::<InboundModel>::empty());
    }
}

/// The FIFO law, generalized over the request possibly already in flight:
/// the responses of a run answer, in order and by key, first the in-flight
/// request and then the requests the run accepts.
pub proof fn lemma_fifo_from(s: StateModel, events: Seq<EventModel>)
    ensures
        ({
            let resps = run_responses(s, events);
            let reqs = run_requests(s, events);
            match pending_key(s) {
                None => {
                    &&& resps.len() <= reqs.len()
                    &&& forall|i: int|
                        0 <= i < resps.len() ==> #[trigger] response_key(resps[i]) == request_key(
                            reqs[i],
                        )
                },
                Some(k) => {
                    &&& resps.len() <= 1 + reqs.len()
                    &&& resps.len() > 0 ==> response_key(resps[0]) == k
                    &&& forall|i: int|
                        1 <= i < resps.len() ==> #[trigger] response_key(resps[i]) == request_key(
                            reqs[i - 1],
                        )
                },
            }
        }),
    decreases events.len(),
{
    if events.len() > 0 {
        let e = events[0];
        let rest = events.drop_first();
        let next = step_model(s, e);
        lemma_fifo_from(next.0, rest);
        if next.0 is Closed {
            lemma_closed_sends_nothing(rest);
            lemma_closed_accepts_nothing(rest);
        }
    }
}

/// Sequential delivery: in any run of a fresh session, the i-th response
/// carries the tag and the color of the i-th accepted request, verbatim,
/// whatever transport and process events interleave, and no response is
/// emitted without a request to answer.
pub proof fn lemma_responses_answer_requests_in_order(events: Seq<EventModel>)
    ensures
        run_responses(StateModel::Idle, events).len() <= run_requests(
            StateModel::Idle,
            events,
        ).len(),
        forall|i: int|
            0 <= i < run_responses(StateModel::Idle, events).len() ==> {
                let resp = #[trigger] run_responses(StateModel::Idle, events)[i];
                let req = run_requests(StateModel::Idle, events)[i];
                resp.tag == req.tag && resp.color == req.color
            },
{
    lemma_fifo_from(StateModel::Idle, events);
    assert forall|i: int|
        0 <= i < run_responses(StateModel::Idle, events).len() implies {
            let resp = #[trigger] run_responses(StateModel::Idle, events)[i];
            let req = run_requests(StateModel::Idle, events)[i];
            resp.tag == req.tag && resp.color == req.color
        } by {
        assert(response_key(run_responses(StateModel::Idle, events)[i]) == request_key(
            run_requests(StateModel::Idle, events)[i],
        ));
    }
}

/// The session ends exactly when the shell is told to shut the process
/// down: every exit path terminates the process, and the process is never
/// terminated under a live session.
pub proof fn lemma_shutdown_iff_closed(s: StateModel, e: EventModel)
    ensures
        step_model(s, e).0 is Closed <==> step_model(s, e).1 is Shutdown,
{
}

/// Transport loss, an explicit close frame, and a frame that fails to
/// decode each end the session at once, with the process shut down.
pub proof fn lemma_failures_end_session(s: StateModel, e: EventModel)
    requires
        e is TransportGone || e is ControlClose || e == EventModel::Frame(None),
    ensures
        step_model(s, e).0 is Closed,
        step_model(s, e).1 is Shutdown,
{
}

/// The events of one response's collection: each emitted line in order,
/// then the blank-line terminator.
pub open spec fn line_events(emitted: Seq<Seq<char>>) -> Seq<EventModel> {
    emitted.map_values(|l: Seq<char>| EventModel::Line(l)).push(EventModel::Line(Seq::empty()))
}

/// Collecting gathers exactly the nonempty lines the process emits before
/// the blank-line terminator, in order: the one response of such a run
/// joins those lines after whatever was already collected, the terminator
/// itself is not part of the body, and no further line is read in this
/// cycle, because after the terminator the machine is sending.
pub proof fn lemma_collection_gathers_lines(
    tag: Seq<char>,
    color: Option<Seq<char>>,
    collected: Seq<Seq<char>>,
    emitted: Seq<Seq<char>>,
)
    requires
        forall|i: int| 0 <= i < emitted.len() ==> #[trigger] emitted[i].len() > 0,
    ensures
        run_responses((StateModel::Collecting { tag, color, lines: collected }), line_events(
            emitted,
        )) == seq![(OutboundModel { tag, color, body: joined(collected + emitted) })],
        run_state((StateModel::Collecting { tag, color, lines: collected }), line_events(emitted))
            == (StateModel::Responding { ending: false }),
    decreases emitted.len(),
{
    let events = line_events(emitted);
    let s0 = StateModel::Collecting { tag, color, lines: collected };
    if emitted.len() == 0 {
        assert(events[0] == EventModel::Line(Seq::<char>::empty()));
        assert(collected + emitted =~= collected);
        assert(events.drop_first() =~= Seq::<EventModel>::empty());
        let next = step_model(s0, events[0]);
        assert(next.0 == (StateModel::Responding { ending: false }));
        assert(next.1 == ActionModel::Send((OutboundModel { tag, color, body: joined(collected) })));
        assert(run_responses(next.0, events.drop_first()) =~= Seq::<OutboundModel>::empty());
        assert(run_state(next.0, events.drop_first()) == next.0);
        assert(run_responses(s0, events) =~= seq![
            (OutboundModel { tag, color, body: joined(collected + emitted) }),
        ]);
    } else {
        let l = emitted[0];
        assert(events[0] == EventModel::Line(l));
        let s1 = step_model(s0, events[0]).0;
        assert(s1 == (StateModel::Collecting { tag, color, lines: collected.push(l) }));
        lemma_collection_gathers_lines(tag, color, collected.push(l), emitted.drop_first());
        assert(events.drop_first() =~= line_events(emitted.drop_first()));
        assert(collected.push(l) + emitted.drop_first() =~= collected + emitted);
        assert(run_responses(s0, events) =~= seq![
            (OutboundModel { tag, color, body: joined(collected + emitted) }),
        ]);
    }
}

/// End-of-stream mid-response still packages the lines collected so far
/// into a response carrying the in-flight request's tag and color, and the
/// session ends once that response's send completes, however it completes.
pub proof fn lemma_eof_flushes_partial(
    tag: Seq<char>,
    color: Option<Seq<char>>,
    lines: Seq<Seq<char>>,
    ok: bool,
)
    ensures
        ({
            let next = step_model(
                StateModel::Collecting { tag, color, lines },
                EventModel::OutputEnded,
            );
            &&& next.1 == ActionModel::Send((OutboundModel { tag, color, body: joined(lines) }))
            &&& next.0 is Responding
            &&& step_model(next.0, EventModel::SendDone(ok)).0 is Closed
        }),
{
}

} // verus!
