//! The typed message channel as the follower sees it: an ordered, lossless
//! script of inbound messages and a record of everything handed to the
//! transport. The embedding that owns the real byte pipe frames wire
//! records with `msg::PRFMessage::encode` and `decode` and feeds the
//! results in; end of script models end-of-stream.

use vstd::prelude::*;
use crate::msg::PRFMessage;

verus! {

/// Full-duplex typed channel endpoint. Inbound messages are delivered in
/// order and without loss; `sent` records outbound messages in order.
pub struct PRFChannel {
    /// Messages the peer delivers, in arrival order.
    pub inbound: Vec<PRFMessage>,
    /// How many inbound messages have been consumed.
    pub pos: usize,
    /// Messages handed to the transport, oldest first.
    pub sent: Vec<PRFMessage>,
}

impl PRFChannel {
    /// Whether the consumption mark lies within the script.
    pub open spec fn wf(&self) -> bool {
        self.pos <= self.inbound@.len()
    }

    /// A channel about to deliver `script`, with nothing sent yet.
    pub fn new(script: Vec<PRFMessage>) -> (c: PRFChannel)
        ensures
            c.inbound@ == script@,
            c.pos == 0,
            c.sent@ == Seq::<PRFMessage>::empty(),
            c.wf(),
    {
        PRFChannel { inbound: script, pos: 0, sent: Vec::new() }
    }

    /// Next inbound message, or `None` once the stream has ended.
    /// Consumption is destructive: a delivered message is never seen
    /// again.
    pub fn recv(&mut self) -> (r: Option<PRFMessage>)
        requires
            old(self).wf(),
        ensures
            final(self).wf(),
            final(self).inbound@ == old(self).inbound@,
            final(self).sent@ == old(self).sent@,
            old(self).pos < old(self).inbound@.len() ==> r == Some(
                old(self).inbound@[old(self).pos as int],
            ) && final(self).pos == old(self).pos + 1,
            old(self).pos == old(self).inbound@.len() ==> r is None && final(self).pos == old(
                self,
            ).pos,
    {
        if self.pos < self.inbound.len() {
            let m = self.inbound[self.pos];
            self.pos = self.pos + 1;
            Some(m)
        } else {
            None
        }
    }

    /// Hands a message to the transport. Completion means the transport
    /// has accepted the bytes, not that the peer has read them.
    pub fn send(&mut self, m: PRFMessage)
        requires
            old(self).wf(),
        ensures
            final(self).wf(),
            final(self).inbound@ == old(self).inbound@,
            final(self).pos == old(self).pos,
            final(self).sent@ == old(self).sent@.push(m),
    {
        self.sent.push(m);
    }
}

} // verus!
