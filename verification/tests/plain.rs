use gtp_bridge::envelope::decode_plain;
use gtp_bridge::envelope::encode_plain;
use gtp_bridge::session::Action;
use gtp_bridge::session::Event;
use gtp_bridge::session::new_session;
use gtp_bridge::session::step;

#[test]
fn plain_inbound_is_the_payload_verbatim() {
    let req = decode_plain(String::from("genmove b"));
    assert_eq!(req.command, "genmove b");
    assert_eq!(req.tag, "");
    assert!(req.color.is_none());
}

#[test]
fn plain_outbound_carries_a_trailing_newline() {
    let state = new_session();
    let (state, _) = step(state, Event::Frame(Some(decode_plain(String::from("name")))));
    let (state, _) = step(state, Event::WriteDone(true));
    let (state, _) = step(state, Event::Line(String::from("= gnugo")));
    let (state, _) = step(state, Event::Line(String::from("version 3.8")));
    let (_, action) = step(state, Event::Line(String::new()));
    match action {
        Action::Send(env) => assert_eq!(encode_plain(env), "= gnugo\nversion 3.8\n"),
        _ => panic!("expected a send action"),
    }
}

#[test]
fn plain_payload_with_embedded_newline_still_ends_the_session() {
    // The plain codec wraps the payload verbatim, so a payload of two
    // lines is caught by the machine itself, not by the codec.
    let (_, action) = step(
        new_session(),
        Event::Frame(Some(decode_plain(String::from("boardsize 9\nquit")))),
    );
    assert!(matches!(action, Action::Shutdown));
}
