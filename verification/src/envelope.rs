//! The request and response envelopes exchanged over the transport.
//!
//! An inbound envelope carries a correlation `tag` (echoed back verbatim),
//! an optional `color` (echoed back verbatim when present), and one line of
//! protocol text as `command`. The outbound envelope answers it with the
//! same `tag` and `color` and the collected response `body`. The textual
//! encoding of the envelopes is the unverified shell's concern; this module
//! holds the records themselves and the rules that relate them.

use vstd::prelude::*;
use crate::framing::frame_command;
use crate::framing::single_line;

verus! {

/// One decoded client request: a correlation tag, an optional color, and a
/// single line of protocol text to forward to the process.
pub struct InboundEnvelope {
    pub tag: String,
    pub color: Option<String>,
    pub command: String,
}

/// One response to a request: the request's tag and color, unchanged, and
/// the newline-joined body collected from the process output.
pub struct OutboundEnvelope {
    pub tag: String,
    pub color: Option<String>,
    pub body: String,
}

/// The mathematical model of an inbound envelope: its fields as character
/// sequences.
pub struct InboundModel {
    pub tag: Seq<char>,
    pub color: Option<Seq<char>>,
    pub command: Seq<char>,
}

/// The mathematical model of an outbound envelope.
pub struct OutboundModel {
    pub tag: Seq<char>,
    pub color: Option<Seq<char>>,
    pub body: Seq<char>,
}

/// The character view of an optional owned string.
pub open spec fn color_view(color: Option<String>) -> Option<Seq<char>> {
    match color {
        Some(c) => Some(c@),
        None => None,
    }
}

impl View for InboundEnvelope {
    type V = InboundModel;

    open spec fn view(&self) -> InboundModel {
        InboundModel { tag: self.tag@, color: color_view(self.color), command: self.command@ }
    }
}

impl View for OutboundEnvelope {
    type V = OutboundModel;

    open spec fn view(&self) -> OutboundModel {
        OutboundModel { tag: self.tag@, color: color_view(self.color), body: self.body@ }
    }
}

impl InboundModel {
    /// A well-formed request: its command is a single protocol line, so it
    /// can be forwarded without injecting a second command.
    pub open spec fn wf(self) -> bool {
        single_line(self.command)
    }
}

impl InboundEnvelope {
    /// Consumes the request and packages the collected body into its
    /// response, echoing tag and color verbatim.
    pub fn into_response(self, body: String) -> (r: OutboundEnvelope)
        ensures
            r@.tag == self@.tag,
            r@.color == self@.color,
            r@.body == body@,
    {
        OutboundEnvelope { tag: self.tag, color: self.color, body }
    }
}

/// The plain-text codec's inbound strategy: the frame payload is taken
/// verbatim as the command; this variant carries no tag and no color.
pub fn decode_plain(payload: String) -> (r: InboundEnvelope)
    ensures
        r@.command == payload@,
        r@.tag == Seq::<char>::empty(),
        r@.color is None,
{
    InboundEnvelope { tag: String::new(), color: None, command: payload }
}

/// The plain-text codec's outbound strategy: the frame payload is the
/// joined body with a trailing newline after the final line.
pub fn encode_plain(env: OutboundEnvelope) -> (r: String)
    ensures
        r@ == env@.body + seq!['\n'],
{
    frame_command(env.body.as_str())
}

} // verus!
