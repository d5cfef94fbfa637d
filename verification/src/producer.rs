//! The producer's state: its current topic, guarantee, delay and running
//! counter, and the two-state run loop (running until the kill signal).

use vstd::prelude::*;
use crate::control::ChannelSignal;
use crate::control::ControlMessage;
use crate::digits::spec_decimal;
use crate::digits::u64_to_decimal;
use crate::sweep::DeliveryGuarantee;
use crate::sweep::spec_topic;
use crate::sweep::topic_for;

verus! {

/// The producer's emission parameters.  The topic string is never set
/// directly: it is always the canonical encoding of the current
/// (guarantee, delay) pair.
pub struct ProducerParams {
    pub topic: String,
    pub guarantee: DeliveryGuarantee,
    pub delay: u64,
    pub counter: u64,
}

/// One message ready to publish: topic, decimal payload and guarantee.
pub struct OutboundMessage {
    pub topic: String,
    pub payload: String,
    pub qos: u8,
}

impl ProducerParams {
    /// The topic invariant: the topic is the canonical encoding of the
    /// producer's own (guarantee, delay) pair.
    pub open spec fn wf(self) -> bool {
        self.topic@ == spec_topic(self.guarantee, self.delay)
    }

    /// The producer starts at guarantee ordinal zero, zero delay, counter
    /// zero — the first sweep matrix entry.
    pub fn new() -> (r: ProducerParams)
        ensures
            r.wf(),
            r.guarantee == DeliveryGuarantee::AtMostOnce,
            r.delay == 0u64,
            r.counter == 0u64,
    {
        ProducerParams {
            topic: topic_for(DeliveryGuarantee::AtMostOnce, 0),
            guarantee: DeliveryGuarantee::AtMostOnce,
            delay: 0,
            counter: 0,
        }
    }

    /// Apply one forwarded parameter change: the named field changes, the
    /// other stays, the counter is never reset, and the topic is recomputed
    /// from the new pair.  The change is not acknowledged to the bus — it is
    /// observable only through the topic later counters appear on.
    pub fn apply(&mut self, m: ControlMessage)
        requires
            old(self).wf(),
        ensures
            final(self).wf(),
            final(self).guarantee == (match m {
                ControlMessage::Guarantee(g) => g,
                ControlMessage::Delay(_) => old(self).guarantee,
            }),
            final(self).delay == (match m {
                ControlMessage::Guarantee(_) => old(self).delay,
                ControlMessage::Delay(d) => d,
            }),
            final(self).counter == old(self).counter,
    {
        match m {
            ControlMessage::Guarantee(g) => {
                self.guarantee = g;
            },
            ControlMessage::Delay(d) => {
                self.delay = d;
            },
        }
        self.topic = topic_for(self.guarantee, self.delay);
    }

    /// The next message to publish: the current counter in canonical
    /// decimal on the current topic at the current guarantee, and the
    /// counter moves up by one, never resetting.
    pub fn next_message(&mut self) -> (r: OutboundMessage)
        requires
            old(self).wf(),
            old(self).counter < u64::MAX,
        ensures
            final(self).wf(),
            final(self).guarantee == old(self).guarantee,
            final(self).delay == old(self).delay,
            final(self).counter == old(self).counter + 1,
            r.topic@ == spec_topic(old(self).guarantee, old(self).delay),
            r.payload@ == spec_decimal(old(self).counter as nat),
            r.qos as int == old(self).guarantee.spec_ordinal(),
    {
        let payload = u64_to_decimal(self.counter);
        let msg = OutboundMessage {
            topic: self.topic.clone(),
            payload,
            qos: self.guarantee.ordinal(),
        };
        self.counter = self.counter + 1;
        msg
    }

    /// React to one (non-blocking) poll of the relay channel: a parameter
    /// change is applied and the loop keeps running; the kill signal — and
    /// nothing else — stops it; an empty poll changes nothing.
    pub fn on_signal(&mut self, signal: Option<ChannelSignal>) -> (keep_running: bool)
        requires
            old(self).wf(),
        ensures
            final(self).wf(),
            keep_running == !(signal == Some(ChannelSignal::Kill)),
            final(self).counter == old(self).counter,
            final(self).guarantee == (match signal {
                Some(ChannelSignal::Control(ControlMessage::Guarantee(g))) => g,
                _ => old(self).guarantee,
            }),
            final(self).delay == (match signal {
                Some(ChannelSignal::Control(ControlMessage::Delay(d))) => d,
                _ => old(self).delay,
            }),
    {
        match signal {
            None => true,
            Some(ChannelSignal::Kill) => false,
            Some(ChannelSignal::Control(m)) => {
                self.apply(m);
                true
            },
        }
    }
}

} // verus!
