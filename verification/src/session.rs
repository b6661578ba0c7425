//! The per-session protocol bridge, as a state machine.
//!
//! One session pairs one transport connection with one engine process. The
//! unverified shell owns the actual I/O; it drives [`step`] with one event
//! at a time (a transport frame, a process output line, the outcome of a
//! write or a send) and performs the returned action (receive the next
//! frame, write a framed command, read the next output line, send a
//! response, or shut the process down). The machine is strictly
//! sequential: it never asks for the next transport frame while a request
//! is still being answered, so responses leave in the exact order of their
//! requests.
//!
//! Every failure ends the session: a transport close or error, a malformed
//! frame, a command holding an embedded newline, a failed write to the
//! process, or a failed send. End-of-stream on the process output ends the
//! session after the lines collected so far have been packaged and sent.
//! The final action of every session is [`Action::Shutdown`], on which the
//! shell terminates the process.

use vstd::prelude::*;
use crate::envelope::InboundEnvelope;
use crate::envelope::InboundModel;
use crate::envelope::OutboundEnvelope;
use crate::envelope::OutboundModel;
use crate::envelope::color_view;
use crate::framing::frame_command;
use crate::framing::is_single_line;
use crate::framing::join_lines;
use crate::framing::joined;
use crate::framing::views_of;

verus! {

/// Where one session stands between two events.
pub enum SessionState {
    /// Waiting for the next transport frame; no request is in flight.
    Idle,
    /// A command has been handed to the shell to write to the process.
    Writing { tag: String, color: Option<String> },
    /// Output lines for the in-flight request are being collected.
    Collecting { tag: String, color: Option<String>, lines: Vec<String> },
    /// A response has been handed to the shell to send; `ending` says the
    /// session must end once the send completes (the process output ended).
    Responding { ending: bool },
    /// The session is over; the process is to be terminated.
    Closed,
}

/// What the shell observed since the last step.
pub enum Event {
    /// A data frame arrived; `None` means it failed to decode.
    Frame(Option<InboundEnvelope>),
    /// An explicit close frame arrived.
    ControlClose,
    /// Some other frame arrived (ping, pong, binary): ignored.
    Ignored,
    /// The transport reported closure or a receive error.
    TransportGone,
    /// The write of the framed command completed; `true` on success.
    WriteDone(bool),
    /// The process emitted one output line (without its newline).
    Line(String),
    /// The process output reached end-of-stream.
    OutputEnded,
    /// The send of the response completed; `true` on success.
    SendDone(bool),
}

/// What the shell must do next.
pub enum Action {
    /// Await the next transport frame.
    Receive,
    /// Write the carried text, a framed command ending in one newline, to
    /// the process input.
    WriteCommand(String),
    /// Read the next line from the process output.
    ReadLine,
    /// Send the carried response on the transport.
    Send(OutboundEnvelope),
    /// Terminate the process; the session is over.
    Shutdown,
}

/// The model of a session state, over character sequences.
pub enum StateModel {
    Idle,
    Writing { tag: Seq<char>, color: Option<Seq<char>> },
    Collecting { tag: Seq<char>, color: Option<Seq<char>>, lines: Seq<Seq<char>> },
    Responding { ending: bool },
    Closed,
}

/// The model of an event.
pub enum EventModel {
    Frame(Option<InboundModel>),
    ControlClose,
    Ignored,
    TransportGone,
    WriteDone(bool),
    Line(Seq<char>),
    OutputEnded,
    SendDone(bool),
}

/// The model of an action.
pub enum ActionModel {
    Receive,
    WriteCommand(Seq<char>),
    ReadLine,
    Send(OutboundModel),
    Shutdown,
}

impl View for SessionState {
    type V = StateModel;

    open spec fn view(&self) -> StateModel {
        match self {
            SessionState::Idle => StateModel::Idle,
            SessionState::Writing { tag, color } => StateModel::Writing {
                tag: tag@,
                color: color_view(*color),
            },
            SessionState::Collecting { tag, color, lines } => StateModel::Collecting {
                tag: tag@,
                color: color_view(*color),
                lines: views_of(lines@),
            },
            SessionState::Responding { ending } => StateModel::Responding { ending: *ending },
            SessionState::Closed => StateModel::Closed,
        }
    }
}

impl View for Event {
    type V = EventModel;

    open spec fn view(&self) -> EventModel {
        match self {
            Event::Frame(Some(env)) => EventModel::Frame(Some(env@)),
            Event::Frame(None) => EventModel::Frame(None),
            Event::ControlClose => EventModel::ControlClose,
            Event::Ignored => EventModel::Ignored,
            Event::TransportGone => EventModel::TransportGone,
            Event::WriteDone(ok) => EventModel::WriteDone(*ok),
            Event::Line(l) => EventModel::Line(l@),
            Event::OutputEnded => EventModel::OutputEnded,
            Event::SendDone(ok) => EventModel::SendDone(*ok),
        }
    }
}

impl View for Action {
    type V = ActionModel;

    open spec fn view(&self) -> ActionModel {
        match self {
            Action::Receive => ActionModel::Receive,
            Action::WriteCommand(text) => ActionModel::WriteCommand(text@),
            Action::ReadLine => ActionModel::ReadLine,
            Action::Send(env) => ActionModel::Send(env@),
            Action::Shutdown => ActionModel::Shutdown,
        }
    }
}

/// The transition relation of one session, as a total function: for each
/// state and event, the next state and the action the shell must perform.
/// An event that cannot belong to the state ends the session.
pub open spec fn step_model(s: StateModel, e: EventModel) -> (StateModel, ActionModel) {
    match (s, e) {
        (StateModel::Idle, EventModel::Frame(Some(req))) => if req.wf() {
            (
                StateModel::Writing { tag: req.tag, color: req.color },
                ActionModel::WriteCommand(req.command + seq!['\n']),
            )
        } else {
            (StateModel::Closed, ActionModel::Shutdown)
        },
        (StateModel::Idle, EventModel::Frame(None)) => (StateModel::Closed, ActionModel::Shutdown),
        (StateModel::Idle, EventModel::Ignored) => (StateModel::Idle, ActionModel::Receive),
        (StateModel::Writing { tag, color }, EventModel::WriteDone(ok)) => if ok {
            (
                StateModel::Collecting { tag, color, lines: Seq::empty() },
                ActionModel::ReadLine,
            )
        } else {
            (StateModel::Closed, ActionModel::Shutdown)
        },
        (StateModel::Collecting { tag, color, lines }, EventModel::Line(l)) => if l.len() == 0 {
            (
                StateModel::Responding { ending: false },
                ActionModel::Send(OutboundModel { tag, color, body: joined(lines) }),
            )
        } else {
            (
                StateModel::Collecting { tag, color, lines: lines.push(l) },
                ActionModel::ReadLine,
            )
        },
        (StateModel::Collecting { tag, color, lines }, EventModel::OutputEnded) => (
            StateModel::Responding { ending: true },
            ActionModel::Send(OutboundModel { tag, color, body: joined(lines) }),
        ),
        (StateModel::Responding { ending }, EventModel::SendDone(ok)) => if ok && !ending {
            (StateModel::Idle, ActionModel::Receive)
        } else {
            (StateModel::Closed, ActionModel::Shutdown)
        },
        _ => (StateModel::Closed, ActionModel::Shutdown),
    }
}

/// Performs one transition: consumes the state and the event and returns
/// the next state together with the action the shell must perform, exactly
/// as [`step_model`] prescribes.
pub fn step(state: SessionState, event: Event) -> (r: (SessionState, Action))
    ensures
        r.0@ == step_model(state@, event@).0,
        r.1@ == step_model(state@, event@).1,
{
    match (state, event) {
        (SessionState::Idle, Event::Frame(Some(req))) => {
            if is_single_line(req.command.as_str()) {
                let framed = frame_command(req.command.as_str());
                (
                    SessionState::Writing { tag: req.tag, color: req.color },
                    Action::WriteCommand(framed),
                )
            } else {
                (SessionState::Closed, Action::Shutdown)
            }
        },
        (SessionState::Idle, Event::Frame(None)) => (SessionState::Closed, Action::Shutdown),
        (SessionState::Idle, Event::Ignored) => (SessionState::Idle, Action::Receive),
        (SessionState::Writing { tag, color }, Event::WriteDone(ok)) => {
            if ok {
                proof {
                    assert(views_of(Seq::<String>::empty()) =~= Seq::<Seq<char>>::empty());
                }
                (
                    SessionState::Collecting { tag, color, lines: Vec::new() },
                    Action::ReadLine,
                )
            } else {
                (SessionState::Closed, Action::Shutdown)
            }
        },
        (SessionState::Collecting { tag, color, lines }, Event::Line(l)) => {
            if l.as_str().is_empty() {
                let body = join_lines(&lines);
                let env = OutboundEnvelope { tag, color, body };
                (SessionState::Responding { ending: false }, Action::Send(env))
            } else {
                let mut lines = lines;
                let ghost lines0 = lines@;
                lines.push(l);
                proof {
                    assert(views_of(lines@) =~= views_of(lines0).push(lines@[lines0.len() as int]@));
                }
                (SessionState::Collecting { tag, color, lines }, Action::ReadLine)
            }
        },
        (SessionState::Collecting { tag, color, lines }, Event::OutputEnded) => {
            let body = join_lines(&lines);
            let env = OutboundEnvelope { tag, color, body };
            (SessionState::Responding { ending: true }, Action::Send(env))
        },
        (SessionState::Responding { ending }, Event::SendDone(ok)) => {
            if ok && !ending {
                (SessionState::Idle, Action::Receive)
            } else {
                (SessionState::Closed, Action::Shutdown)
            }
        },
        (_, _) => (SessionState::Closed, Action::Shutdown),
    }
}

/// A fresh session starts idle, waiting for the first frame.
pub fn new_session() -> (r: SessionState)
    ensures
        r@ == StateModel::Idle,
{
    SessionState::Idle
}

} // verus!
