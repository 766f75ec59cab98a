use vstd::prelude::*;

use crate::json::{json_text, Json};
use crate::message::{gateway_from_bytes, plugin_json, GatewayMessage, PluginMessage};

verus! {

/// The decisions of the relay loop, which moves frames between the
/// persistent channel and the two local queues. The loop itself reads the
/// channel, polls the outbound queue, and hands what it found to `step`.
pub struct Relay {
    /// The channel is still open; false once the shutdown event went out.
    pub open: bool,
}

/// What one turn of the loop is to do.
#[derive(Debug, PartialEq)]
pub struct Step {
    /// The command to put on the inbound queue.
    pub inbound: Option<GatewayMessage>,
    /// The bytes to write to the channel.
    pub write: Option<Vec<u8>>,
    /// Close the channel after writing, and leave the loop.
    pub close: bool,
    /// Nothing arrived from either side: wait a little before the next turn.
    pub idle: bool,
}

/// Whether the channel is open after a turn in which `out` was dequeued.
pub open spec fn next_open(open: bool, out: Option<PluginMessage>) -> bool {
    open && !(out is Some && out->0.is_shutdown())
}

/// The event that a turn writes to the channel.
pub open spec fn written(open: bool, out: Option<PluginMessage>) -> Option<PluginMessage> {
    if open {
        out
    } else {
        None
    }
}

/// Whether the channel is open, and the events written, after turns in which
/// the events `outs` were dequeued one after another. Each turn is one call of
/// `Relay::step`, whose contract moves `open` by `next_open` and writes the
/// event that `written` gives; so the laws below on `run` are laws on
/// successive calls of `step`.
pub open spec fn run(open: bool, outs: Seq<PluginMessage>) -> (bool, Seq<PluginMessage>)
    decreases outs.len(),
{
    if outs.len() == 0 {
        (open, Seq::empty())
    } else {
        let (o, w) = run(open, outs.drop_last());
        let m = outs.last();
        (
            next_open(o, Some(m)),
            match written(o, Some(m)) {
                Some(x) => w.push(x),
                None => w,
            },
        )
    }
}

/// No event of `outs` is the shutdown event.
pub open spec fn no_shutdown(outs: Seq<PluginMessage>) -> bool {
    forall|i: int| 0 <= i < outs.len() ==> !(#[trigger] outs[i]).is_shutdown()
}

/// Events go out in the order in which they were dequeued, and the channel
/// stays open while none of them is the shutdown event.
pub proof fn lemma_relay_keeps_order(outs: Seq<PluginMessage>)
    requires
        no_shutdown(outs),
    ensures
        run(true, outs) == (true, outs),
    decreases outs.len(),
{
    if outs.len() > 0 {
        let pre = outs.drop_last();
        assert forall|i: int| 0 <= i < pre.len() implies !(#[trigger] pre[i]).is_shutdown() by {
            assert(pre[i] == outs[i]);
        }
        lemma_relay_keeps_order(pre);
        assert(pre.push(outs.last()) =~= outs);
    }
}

/// Once the channel is closed, no further event is written and it stays closed.
pub proof fn lemma_relay_closed_stays_closed(outs: Seq<PluginMessage>)
    ensures
        run(false, outs) == (false, Seq::<PluginMessage>::empty()),
    decreases outs.len(),
{
    if outs.len() > 0 {
        lemma_relay_closed_stays_closed(outs.drop_last());
    }
}

/// The shutdown event is written after everything dequeued before it, then the
/// channel closes, and nothing dequeued after it is written.
pub proof fn lemma_relay_shutdown_is_last(pre: Seq<PluginMessage>, s: PluginMessage, post: Seq<PluginMessage>)
    requires
        no_shutdown(pre),
        s.is_shutdown(),
    ensures
        run(true, pre.push(s) + post) == (false, pre.push(s)),
    decreases post.len(),
{
    if post.len() == 0 {
        assert(pre.push(s) + post =~= pre.push(s));
        lemma_relay_keeps_order(pre);
        assert(pre.push(s).drop_last() =~= pre);
    } else {
        let all = pre.push(s) + post;
        lemma_relay_shutdown_is_last(pre, s, post.drop_last());
        assert(all.drop_last() =~= pre.push(s) + post.drop_last());
    }
}

impl Relay {
    /// A relay whose channel is open.
    pub fn new() -> (r: Relay)
        ensures
            r.open,
    {
        Relay { open: true }
    }

    /// One turn of the loop. `frame` holds the bytes of one frame read from the
    /// channel, in a buffer of this turn alone; `outbound` the event taken
    /// from the outbound queue. A frame that is not a command is dropped and
    /// the loop goes on. The shutdown event is written, and then the channel
    /// closes. A closed relay does nothing.
    pub fn step(&mut self, frame: Option<Vec<u8>>, outbound: Option<PluginMessage>) -> (r: Step)
        ensures
            final(self).open == next_open(old(self).open, outbound),
            r.close == (old(self).open && !final(self).open),
            r.inbound == if old(self).open {
                match frame {
                    Some(b) => gateway_from_bytes(b@),
                    None => None,
                }
            } else {
                None
            },
            match written(old(self).open, outbound) {
                Some(m) => r.write is Some && exists|j: Json| plugin_json(m, j) && r.write->0@ == json_text(j),
                None => r.write is None,
            },
            r.idle == (frame is None && outbound is None),
    {
        let idle = frame.is_none() && outbound.is_none();
        if !self.open {
            return Step { inbound: None, write: None, close: false, idle };
        }
        let inbound = match frame {
            Some(b) => GatewayMessage::decode(b.as_slice()),
            None => None,
        };
        let (write, close) = match outbound {
            Some(m) => {
                let shutdown = matches!(m, PluginMessage::PluginUnloaded { .. });
                (Some(m.encode()), shutdown)
            },
            None => (None, false),
        };
        if close {
            self.open = false;
        }
        Step { inbound, write, close, idle }
    }
}

} // verus!
