use gtp_bridge::envelope::InboundEnvelope;
use gtp_bridge::envelope::OutboundEnvelope;
use gtp_bridge::session::Action;
use gtp_bridge::session::Event;
use gtp_bridge::session::SessionState;
use gtp_bridge::session::new_session;
use gtp_bridge::session::step;

fn request(tag: &str, color: Option<&str>, command: &str) -> InboundEnvelope {
    InboundEnvelope {
        tag: String::from(tag),
        color: color.map(String::from),
        command: String::from(command),
    }
}

fn expect_send(action: Action) -> OutboundEnvelope {
    match action {
        Action::Send(env) => env,
        _ => panic!("expected a send action"),
    }
}

/// Drives one full request cycle: accept the request, confirm the write,
/// feed the given output lines, and confirm the send. Returns the response
/// and the state after the send completed.
fn run_cycle(
    state: SessionState,
    req: InboundEnvelope,
    lines: &[&str],
) -> (OutboundEnvelope, SessionState) {
    let (state, action) = step(state, Event::Frame(Some(req)));
    assert!(matches!(action, Action::WriteCommand(_)));
    let (mut state, action) = step(state, Event::WriteDone(true));
    assert!(matches!(action, Action::ReadLine));
    for line in lines {
        let (next, action) = step(state, Event::Line(String::from(*line)));
        assert!(matches!(action, Action::ReadLine));
        state = next;
    }
    let (state, action) = step(state, Event::Line(String::new()));
    let env = expect_send(action);
    let (state, action) = step(state, Event::SendDone(true));
    assert!(matches!(action, Action::Receive));
    (env, state)
}

#[test]
fn response_echoes_tag_and_color() {
    let (env, _) = run_cycle(
        new_session(),
        request("move-7", Some("black"), "genmove b"),
        &["= D4"],
    );
    assert_eq!(env.tag, "move-7");
    assert_eq!(env.color.as_deref(), Some("black"));
    assert_eq!(env.body, "= D4");
}

#[test]
fn response_keeps_absent_color_absent() {
    let (env, _) = run_cycle(new_session(), request("t", None, "protocol_version"), &["= 2"]);
    assert_eq!(env.tag, "t");
    assert!(env.color.is_none());
}

#[test]
fn blank_line_ends_body_and_is_not_included() {
    // The double emits L1, L2, "", L3: the body is L1 and L2 joined, the
    // terminator is consumed, and L3 is not read in this cycle, because
    // after the terminator the machine asks for a send, then for the next
    // frame, never for another line.
    let state = new_session();
    let (state, _) = step(state, Event::Frame(Some(request("t", None, "list_commands"))));
    let (state, _) = step(state, Event::WriteDone(true));
    let (state, action) = step(state, Event::Line(String::from("L1")));
    assert!(matches!(action, Action::ReadLine));
    let (state, action) = step(state, Event::Line(String::from("L2")));
    assert!(matches!(action, Action::ReadLine));
    let (state, action) = step(state, Event::Line(String::new()));
    let env = expect_send(action);
    assert_eq!(env.body, "L1\nL2");
    let (_, action) = step(state, Event::SendDone(true));
    assert!(matches!(action, Action::Receive));
}

#[test]
fn zero_lines_before_terminator_give_empty_body() {
    let (env, _) = run_cycle(new_session(), request("t", None, "boardsize 19"), &[]);
    assert_eq!(env.body, "");
}

#[test]
fn two_commands_are_answered_in_order() {
    // However long the process sits on A's output, B cannot overtake A:
    // the machine never asks for the next frame until A's response is
    // fully sent, so the only possible order of events answers A first.
    let state = new_session();
    let (a, state) = run_cycle(state, request("A", Some("b"), "genmove b"), &["= Q16"]);
    let (b, _) = run_cycle(state, request("B", Some("w"), "genmove w"), &["= D4"]);
    assert_eq!(a.tag, "A");
    assert_eq!(a.body, "= Q16");
    assert_eq!(b.tag, "B");
    assert_eq!(b.body, "= D4");
}

#[test]
fn end_of_stream_flushes_partial_lines_then_ends() {
    let state = new_session();
    let (state, _) = step(state, Event::Frame(Some(request("t", None, "genmove b"))));
    let (state, _) = step(state, Event::WriteDone(true));
    let (state, _) = step(state, Event::Line(String::from("= ")));
    let (state, action) = step(state, Event::OutputEnded);
    let env = expect_send(action);
    assert_eq!(env.body, "= ");
    assert_eq!(env.tag, "t");
    let (state, action) = step(state, Event::SendDone(true));
    assert!(matches!(action, Action::Shutdown));
    assert!(matches!(state, SessionState::Closed));
}

#[test]
fn malformed_frame_ends_session_without_touching_another() {
    let healthy = new_session();
    let broken = new_session();

    let (broken, action) = step(broken, Event::Frame(None));
    assert!(matches!(action, Action::Shutdown));
    assert!(matches!(broken, SessionState::Closed));

    // A second session with its own process keeps answering.
    let (env, _) = run_cycle(healthy, request("ok", None, "name"), &["= gnugo"]);
    assert_eq!(env.tag, "ok");
    assert_eq!(env.body, "= gnugo");
}

#[test]
fn transport_close_shuts_the_process_down() {
    let (state, action) = step(new_session(), Event::TransportGone);
    assert!(matches!(action, Action::Shutdown));
    assert!(matches!(state, SessionState::Closed));
}

#[test]
fn close_frame_shuts_the_process_down() {
    let (state, action) = step(new_session(), Event::ControlClose);
    assert!(matches!(action, Action::Shutdown));
    assert!(matches!(state, SessionState::Closed));
}

#[test]
fn transport_loss_mid_collection_shuts_the_process_down() {
    let state = new_session();
    let (state, _) = step(state, Event::Frame(Some(request("t", None, "genmove b"))));
    let (state, _) = step(state, Event::WriteDone(true));
    let (state, action) = step(state, Event::TransportGone);
    assert!(matches!(action, Action::Shutdown));
    assert!(matches!(state, SessionState::Closed));
}

#[test]
fn command_with_embedded_newline_is_rejected_not_forwarded() {
    let (state, action) = step(
        new_session(),
        Event::Frame(Some(request("t", None, "genmove b\nquit"))),
    );
    assert!(matches!(action, Action::Shutdown));
    assert!(matches!(state, SessionState::Closed));
}

#[test]
fn empty_command_is_forwarded_as_bare_newline() {
    let (_, action) = step(new_session(), Event::Frame(Some(request("t", None, ""))));
    match action {
        Action::WriteCommand(text) => assert_eq!(text, "\n"),
        _ => panic!("expected a write action"),
    }
}

#[test]
fn written_command_carries_its_terminator() {
    let (_, action) = step(new_session(), Event::Frame(Some(request("t", None, "quit"))));
    match action {
        Action::WriteCommand(text) => assert_eq!(text, "quit\n"),
        _ => panic!("expected a write action"),
    }
}

#[test]
fn write_failure_ends_the_session() {
    let state = new_session();
    let (state, _) = step(state, Event::Frame(Some(request("t", None, "quit"))));
    let (state, action) = step(state, Event::WriteDone(false));
    assert!(matches!(action, Action::Shutdown));
    assert!(matches!(state, SessionState::Closed));
}

#[test]
fn send_failure_ends_the_session() {
    let state = new_session();
    let (state, _) = step(state, Event::Frame(Some(request("t", None, "name"))));
    let (state, _) = step(state, Event::WriteDone(true));
    let (state, _) = step(state, Event::Line(String::new()));
    let (state, action) = step(state, Event::SendDone(false));
    assert!(matches!(action, Action::Shutdown));
    assert!(matches!(state, SessionState::Closed));
}

#[test]
fn other_frames_are_ignored() {
    let (state, action) = step(new_session(), Event::Ignored);
    assert!(matches!(action, Action::Receive));
    assert!(matches!(state, SessionState::Idle));
}

#[test]
fn into_response_moves_tag_and_color() {
    let req = request("t9", Some("white"), "name");
    let env = req.into_response(String::from("= gnugo"));
    assert_eq!(env.tag, "t9");
    assert_eq!(env.color.as_deref(), Some("white"));
    assert_eq!(env.body, "= gnugo");
}
