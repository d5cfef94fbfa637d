//! The control channel between the analyser and the producer: mapping
//! inbound request messages to parameter changes, and the bounded reconnect
//! state machine that both bus consumers run after a connection loss.

use vstd::prelude::*;
use crate::sweep::DeliveryGuarantee;

verus! {

/// A parameter change requested of the producer.
#[derive(Clone, Copy, PartialEq, Eq, Structural, Debug)]
pub enum ControlMessage {
    Guarantee(DeliveryGuarantee),
    Delay(u64),
}

/// What travels over the in-process channel from the relay to the producer:
/// either a parameter change or the distinguished kill signal, the only way
/// to stop the producer.
#[derive(Clone, Copy, PartialEq, Eq, Structural, Debug)]
pub enum ChannelSignal {
    Control(ControlMessage),
    Kill,
}

/// A message on any topic other than the two recognized control topics is a
/// contract violation by a misbehaving peer.
#[derive(Clone, Copy, PartialEq, Eq, Structural, Debug)]
pub enum RelayError {
    UnknownTopic,
}

/// The control topic on which guarantee-level requests arrive.
pub fn qos_request_topic() -> (r: &'static str)
    ensures
        r@ == "request/qos"@,
{
    "request/qos"
}

/// The control topic on which delay requests arrive.
pub fn delay_request_topic() -> (r: &'static str)
    ensures
        r@ == "request/delay"@,
{
    "request/delay"
}

/// The guarantee level denoted by a payload on the qos request topic;
/// `None` for any unrecognized payload, which is silently ignored.
pub open spec fn spec_qos_payload(p: Seq<char>) -> Option<DeliveryGuarantee> {
    if p == "0"@ {
        Some(DeliveryGuarantee::AtMostOnce)
    } else if p == "1"@ {
        Some(DeliveryGuarantee::AtLeastOnce)
    } else if p == "2"@ {
        Some(DeliveryGuarantee::ExactlyOnce)
    } else {
        None
    }
}

/// The delay denoted by a payload on the delay request topic; `None` for
/// any payload outside the fixed delay set, which is silently ignored.
pub open spec fn spec_delay_payload(p: Seq<char>) -> Option<u64> {
    if p == "0"@ {
        Some(0u64)
    } else if p == "1"@ {
        Some(1u64)
    } else if p == "2"@ {
        Some(2u64)
    } else if p == "10"@ {
        Some(10u64)
    } else if p == "20"@ {
        Some(20u64)
    } else if p == "100"@ {
        Some(100u64)
    } else if p == "200"@ {
        Some(200u64)
    } else {
        None
    }
}

/// What the relay forwards for an inbound (topic, payload) pair.
pub open spec fn spec_map_control(topic: Seq<char>, payload: Seq<char>) -> Result<
    Option<ControlMessage>,
    RelayError,
> {
    if topic == "request/qos"@ {
        Ok(
            match spec_qos_payload(payload) {
                Some(g) => Some(ControlMessage::Guarantee(g)),
                None => None,
            },
        )
    } else if topic == "request/delay"@ {
        Ok(
            match spec_delay_payload(payload) {
                Some(d) => Some(ControlMessage::Delay(d)),
                None => None,
            },
        )
    } else {
        Err(RelayError::UnknownTopic)
    }
}

/// Map one inbound control message.  A recognized topic with an
/// unrecognized payload is a deliberate no-op (`Ok(None)`), not an error;
/// an unrecognized topic is fatal.
pub fn map_control(topic: &str, payload: &str) -> (r: Result<Option<ControlMessage>, RelayError>)
    ensures
        r == spec_map_control(topic@, payload@),
{
    if crate::str_eq(topic, qos_request_topic()) {
        if crate::str_eq(payload, "0") {
            Ok(Some(ControlMessage::Guarantee(DeliveryGuarantee::AtMostOnce)))
        } else if crate::str_eq(payload, "1") {
            Ok(Some(ControlMessage::Guarantee(DeliveryGuarantee::AtLeastOnce)))
        } else if crate::str_eq(payload, "2") {
            Ok(Some(ControlMessage::Guarantee(DeliveryGuarantee::ExactlyOnce)))
        } else {
            Ok(None)
        }
    } else if crate::str_eq(topic, delay_request_topic()) {
        if crate::str_eq(payload, "0") {
            Ok(Some(ControlMessage::Delay(0)))
        } else if crate::str_eq(payload, "1") {
            Ok(Some(ControlMessage::Delay(1)))
        } else if crate::str_eq(payload, "2") {
            Ok(Some(ControlMessage::Delay(2)))
        } else if crate::str_eq(payload, "10") {
            Ok(Some(ControlMessage::Delay(10)))
        } else if crate::str_eq(payload, "20") {
            Ok(Some(ControlMessage::Delay(20)))
        } else if crate::str_eq(payload, "100") {
            Ok(Some(ControlMessage::Delay(100)))
        } else if crate::str_eq(payload, "200") {
            Ok(Some(ControlMessage::Delay(200)))
        } else {
            Ok(None)
        }
    } else {
        Err(RelayError::UnknownTopic)
    }
}

/// How many reconnect attempts a bus consumer makes before giving up.
pub const RECONNECT_ATTEMPT_LIMIT: u8 = 12;

/// The reconnect loop as an explicit state machine: a session is connected,
/// or part-way through its bounded retries, or has exhausted them.
#[derive(Clone, Copy, PartialEq, Eq, Structural, Debug)]
pub enum ReconnectState {
    Connected,
    Reconnecting { attempts: u8 },
    Failed,
}

impl ReconnectState {
    pub open spec fn wf(self) -> bool {
        match self {
            ReconnectState::Reconnecting { attempts } => attempts < RECONNECT_ATTEMPT_LIMIT,
            _ => true,
        }
    }

    /// The state after one more reconnect attempt with the given outcome.
    /// `Connected` and `Failed` are absorbing: no attempt is made there.
    pub open spec fn spec_step(self, success: bool) -> ReconnectState {
        match self {
            ReconnectState::Reconnecting { attempts } => {
                if success {
                    ReconnectState::Connected
                } else if attempts + 1 < RECONNECT_ATTEMPT_LIMIT {
                    ReconnectState::Reconnecting { attempts: (attempts + 1) as u8 }
                } else {
                    ReconnectState::Failed
                }
            },
            _ => self,
        }
    }

    /// Entering the retry loop after a connection loss.
    pub fn on_disconnect() -> (r: ReconnectState)
        ensures
            r == (ReconnectState::Reconnecting { attempts: 0u8 }),
            r.wf(),
    {
        ReconnectState::Reconnecting { attempts: 0 }
    }

    /// Record the outcome of one reconnect attempt.
    pub fn step(self, success: bool) -> (r: ReconnectState)
        requires
            self.wf(),
        ensures
            r == self.spec_step(success),
            r.wf(),
    {
        match self {
            ReconnectState::Reconnecting { attempts } => {
                if success {
                    ReconnectState::Connected
                } else if attempts + 1 < RECONNECT_ATTEMPT_LIMIT {
                    ReconnectState::Reconnecting { attempts: attempts + 1 }
                } else {
                    ReconnectState::Failed
                }
            },
            _ => self,
        }
    }

    /// Whether another reconnect attempt is still owed.
    pub fn should_retry(self) -> (r: bool)
        ensures
            r == (self matches ReconnectState::Reconnecting { .. }),
    {
        match self {
            ReconnectState::Reconnecting { .. } => true,
            _ => false,
        }
    }
}

/// What a bus consumer does once its retry loop has ended: resubscribe its
/// topics after a successful reconnect, or — retries exhausted — send the
/// kill signal to the producer and terminate.
#[derive(Clone, Copy, PartialEq, Eq, Structural, Debug)]
pub enum DisconnectOutcome {
    Resubscribe,
    Shutdown,
}

/// Decide what follows the retry loop.  `Shutdown` stands for emitting
/// `ChannelSignal::Kill` and terminating without further attempts.
pub fn after_reconnect(s: ReconnectState) -> (r: DisconnectOutcome)
    requires
        s == ReconnectState::Connected || s == ReconnectState::Failed,
    ensures
        r == (if s == ReconnectState::Connected {
            DisconnectOutcome::Resubscribe
        } else {
            DisconnectOutcome::Shutdown
        }),
{
    match s {
        ReconnectState::Connected => DisconnectOutcome::Resubscribe,
        _ => DisconnectOutcome::Shutdown,
    }
}

/// The state after `k` consecutive failed attempts, starting at the first
/// moment of the retry loop.
pub open spec fn spec_fail_steps(k: nat) -> ReconnectState
    decreases k,
{
    if k == 0 {
        ReconnectState::Reconnecting { attempts: 0u8 }
    } else {
        spec_fail_steps((k - 1) as nat).spec_step(false)
    }
}

proof fn lemma_fail_steps_counting(k: nat)
    requires
        k < RECONNECT_ATTEMPT_LIMIT,
    ensures
        spec_fail_steps(k) == (ReconnectState::Reconnecting { attempts: k as u8 }),
    decreases k,
{
    if k > 0 {
        lemma_fail_steps_counting((k - 1) as nat);
    }
}

/// Exhaustion of the bounded retry: below the attempt limit the session is
/// still retrying, the twelfth consecutive failure lands in `Failed` — whose
/// outcome is the kill signal — and `Failed` makes no further attempts.
pub proof fn lemma_reconnect_exhaustion()
    ensures
        forall|k: nat|
            k < RECONNECT_ATTEMPT_LIMIT ==> #[trigger] spec_fail_steps(k)
                == (ReconnectState::Reconnecting { attempts: k as u8 }),
        spec_fail_steps(RECONNECT_ATTEMPT_LIMIT as nat) == ReconnectState::Failed,
        forall|success: bool|
            #[trigger] ReconnectState::Failed.spec_step(success) == ReconnectState::Failed,
{
    assert forall|k: nat| k < RECONNECT_ATTEMPT_LIMIT implies #[trigger] spec_fail_steps(k)
        == (ReconnectState::Reconnecting { attempts: k as u8 }) by {
        lemma_fail_steps_counting(k);
    }
    lemma_fail_steps_counting((RECONNECT_ATTEMPT_LIMIT - 1) as nat);
}

} // verus!
