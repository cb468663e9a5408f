//! A subscriber to connection events that counts the ACK frames a
//! connection sent and received.

use crate::frame::Frame;
use vstd::prelude::*;

verus! {

/// Provides the counting subscriber.
#[derive(Debug, Default)]
pub struct Provider;

/// The counters of one connection. They wrap around at the largest value.
#[derive(Clone, Copy, Debug, PartialEq, Eq, Structural)]
pub struct AckContext {
    pub ack_tx: u64,
    pub ack_rx: u64,
}

pub struct Subscriber;

/// One more than `n`, or zero behind the largest value.
pub open spec fn next_count(n: u64) -> u64 {
    if n == u64::MAX {
        0
    } else {
        (n + 1) as u64
    }
}

impl Provider {
    /// Starts the provider; this cannot fail.
    pub fn start(self) -> (r: Result<Subscriber, core::convert::Infallible>)
        ensures
            r is Ok,
    {
        Ok(Subscriber)
    }
}

impl Subscriber {
    /// The counters of a new connection, both at zero.
    pub fn create_connection_context(&mut self) -> (context: AckContext)
        ensures
            context == (AckContext { ack_tx: 0, ack_rx: 0 }),
    {
        AckContext { ack_tx: 0, ack_rx: 0 }
    }

    /// Counts `frame` among the frames sent if it is an ACK frame.
    pub fn on_frame_sent(&mut self, context: &mut AckContext, frame: &Frame)
        ensures
            final(context).ack_rx == old(context).ack_rx,
            final(context).ack_tx == if *frame is Ack {
                next_count(old(context).ack_tx)
            } else {
                old(context).ack_tx
            },
    {
        if let Frame::Ack { .. } = frame {
            context.ack_tx = context.ack_tx.wrapping_add(1);
        }
    }

    /// Counts `frame` among the frames received if it is an ACK frame.
    pub fn on_frame_received(&mut self, context: &mut AckContext, frame: &Frame)
        ensures
            final(context).ack_tx == old(context).ack_tx,
            final(context).ack_rx == if *frame is Ack {
                next_count(old(context).ack_rx)
            } else {
                old(context).ack_rx
            },
    {
        if let Frame::Ack { .. } = frame {
            context.ack_rx = context.ack_rx.wrapping_add(1);
        }
    }

    /// The connection closed: hands back the counts of ACK frames sent and
    /// received, for the report.
    pub fn on_connection_closed(&mut self, context: &AckContext) -> (counts: (u64, u64))
        ensures
            counts == (context.ack_tx, context.ack_rx),
    {
        (context.ack_tx, context.ack_rx)
    }
}

} // verus!
