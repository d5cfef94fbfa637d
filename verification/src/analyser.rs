//! The analyser: a single consume loop that accumulates one measurement
//! window, watches the broker's self-status gate, and at each window
//! boundary computes the statistics and advances the sweep.
//!
//! Everything here is a function of the analyser's own state and of one
//! inbound message with its arrival time; the surrounding loop only carries
//! messages in and performs the subscribe, unsubscribe and publish actions
//! a closed window asks for.

use vstd::prelude::*;
use vstd::pervasive::unreached;
use crate::digits::is_canonical_decimal;
use crate::digits::parse_u64;
use crate::digits::spec_dec_value;
use crate::stats::MeasurementWindow;
use crate::stats::WindowStats;
use crate::stats::stats_spec;
use crate::sweep::DeliveryGuarantee;
use crate::sweep::SweepState;
use crate::sweep::spec_entry_delay;
use crate::sweep::spec_entry_guarantee;
use crate::sweep::spec_topic;
use crate::sweep::topic_for;
use crate::str_eq;

verus! {

/// A non-status message whose payload is not a canonical decimal counter is
/// a contract violation by a misbehaving peer: fatal, not recoverable.
#[derive(Clone, Copy, PartialEq, Eq, Structural, Debug)]
pub enum AnalyserError {
    BadPayload,
}

/// Whether a topic is a broker self-status topic.
pub open spec fn spec_is_sys(t: Seq<char>) -> bool {
    t.len() >= 4 && t.subrange(0, 4) == "$SYS"@
}

/// The status sub-topic: what follows the `$SYS/` prefix.
pub open spec fn spec_sys_subtopic(t: Seq<char>) -> Seq<char> {
    if t.len() >= 5 {
        t.subrange(5, t.len() as int)
    } else {
        Seq::<char>::empty()
    }
}

/// The recognized broker self-status sub-topics: byte and publish counters,
/// the client count and the heap usage.  Anything else does not count
/// toward the start-up-response gate.
pub open spec fn spec_sys_recognized(sub: Seq<char>) -> bool {
    ||| sub == "broker/load/bytes/sent/1min"@
    ||| sub == "broker/load/bytes/received/1min"@
    ||| sub == "broker/load/publish/received/1min"@
    ||| sub == "broker/load/publish/sent/1min"@
    ||| sub == "broker/load/publish/dropped/1min"@
    ||| sub == "broker/clients/active"@
    ||| sub == "broker/heap/current"@
}

/// A window is complete when the elapsed run time crosses a ten-second
/// boundary, and only after a one-second settle period at start-up.  The
/// check runs on message arrival, not on a timer, so window length is
/// approximate.
pub open spec fn spec_window_boundary(now_ms: u64) -> bool {
    now_ms % 10000 < 1000 && now_ms > 1000
}

pub fn is_window_boundary(now_ms: u64) -> (r: bool)
    ensures
        r == spec_window_boundary(now_ms),
{
    now_ms % 10000 < 1000 && now_ms > 1000
}

/// Everything a closed window asks the surrounding loop to do, together
/// with the statistics to log.
#[derive(Debug)]
pub struct WindowReport {
    /// The five statistics of the window just closed.
    pub stats: WindowStats,
    /// The data topic to drop, after a short drain pause.
    pub unsubscribe_topic: String,
    /// The next matrix entry's data topic ...
    pub subscribe_topic: String,
    /// ... subscribed at the guarantee level that entry dictates.
    pub subscribe_guarantee: DeliveryGuarantee,
    /// The guarantee to announce on the control channel, exactly when it
    /// differs from the last announced one.
    pub announce_guarantee: Option<DeliveryGuarantee>,
    /// The delay to announce, decided independently of the guarantee.
    pub announce_delay: Option<u64>,
}

/// What one inbound message amounted to.
#[derive(Debug)]
pub enum AnalyserStep {
    /// A broker self-status message; `counted` says whether it advanced the
    /// start-up-response gate.
    Status { recognized: bool, counted: bool },
    /// A data message recorded into the still-open window.
    Recorded,
    /// A data message that closed the window it was recorded into.
    WindowClosed(WindowReport),
}

/// The analyser's whole state: the sweep position, the open measurement
/// window, the status gate and the arrival clock of the previous message.
pub struct Analyser {
    pub sweep: SweepState,
    pub window: MeasurementWindow,
    pub sys_counter: u8,
    pub prev_time_ms: u64,
}

impl Analyser {
    pub open spec fn wf(self) -> bool {
        &&& self.sweep.wf()
        &&& self.window.wf()
        &&& self.sys_counter <= 6
    }

    pub fn new() -> (r: Analyser)
        ensures
            r.wf(),
            r.sweep.index == 0,
            r.window.seqs@.len() == 0,
            r.sys_counter == 0,
            r.prev_time_ms == 0u64,
    {
        Analyser {
            sweep: SweepState::new(),
            window: MeasurementWindow::new(),
            sys_counter: 0,
            prev_time_ms: 0,
        }
    }

    /// The data topic of the matrix entry the sweep currently points at —
    /// what the loop must currently be subscribed to.
    pub fn current_topic(&self) -> (r: String)
        requires
            self.sweep.wf(),
        ensures
            r@ == spec_topic(
                spec_entry_guarantee(self.sweep.index as int),
                spec_entry_delay(self.sweep.index as int),
            ),
    {
        let (g, d) = self.sweep.current_entry();
        topic_for(g, d)
    }

    /// Consume one inbound message, arrived at `now_ms` of elapsed run
    /// time.  Status messages advance the readiness count; data messages are recorded
    /// and, at a window boundary, close the window: its statistics are
    /// computed, the sweep advances, and the report names the subscription
    /// change and the control announcements owed for the new entry.
    pub fn on_message(&mut self, topic: &str, payload: &str, now_ms: u64) -> (r: Result<
        AnalyserStep,
        AnalyserError,
    >)
        requires
            old(self).wf(),
            now_ms >= old(self).prev_time_ms,
        ensures
            final(self).wf(),
            ({
                let is_sys = spec_is_sys(topic@);
                let recognized = spec_sys_recognized(spec_sys_subtopic(topic@));
                let counted = recognized && old(self).sys_counter < 6;
                let valid = is_canonical_decimal(payload@) && spec_dec_value(payload@)
                    <= u64::MAX;
                let gap = if old(self).window.seqs@.len() == 0 {
                    0u64
                } else {
                    (now_ms - old(self).prev_time_ms) as u64
                };
                let newseqs = old(self).window.seqs@.push(
                    spec_dec_value(payload@) as u64,
                );
                let newgaps = old(self).window.gaps@.push(gap);
                let boundary = spec_window_boundary(now_ms);
                &&& (is_sys ==> {
                    &&& r == Ok::<AnalyserStep, AnalyserError>(
                        AnalyserStep::Status { recognized, counted },
                    )
                    &&& final(self).sweep == old(self).sweep
                    &&& final(self).window == old(self).window
                    &&& final(self).sys_counter == (if counted {
                        old(self).sys_counter + 1
                    } else {
                        old(self).sys_counter as int
                    })
                    &&& final(self).prev_time_ms == now_ms
                })
                &&& (!is_sys && !valid ==> r == Err::<AnalyserStep, AnalyserError>(
                    AnalyserError::BadPayload,
                ) && *final(self) == *old(self))
                &&& (!is_sys && valid && !boundary ==> {
                    &&& r == Ok::<AnalyserStep, AnalyserError>(AnalyserStep::Recorded)
                    &&& final(self).sweep == old(self).sweep
                    &&& final(self).window.seqs@ == newseqs
                    &&& final(self).window.gaps@ == newgaps
                    &&& final(self).sys_counter == old(self).sys_counter
                    &&& final(self).prev_time_ms == now_ms
                })
                &&& (!is_sys && valid && boundary ==> {
                    &&& (r matches Ok(AnalyserStep::WindowClosed(rep)) && {
                        &&& Some(rep.stats) == stats_spec(newseqs, newgaps)
                        &&& rep.unsubscribe_topic@ == spec_topic(
                            spec_entry_guarantee(old(self).sweep.index as int),
                            spec_entry_delay(old(self).sweep.index as int),
                        )
                        &&& rep.subscribe_topic@ == spec_topic(
                            spec_entry_guarantee(final(self).sweep.index as int),
                            spec_entry_delay(final(self).sweep.index as int),
                        )
                        &&& rep.subscribe_guarantee == spec_entry_guarantee(
                            final(self).sweep.index as int,
                        )
                        &&& rep.announce_guarantee == (if rep.subscribe_guarantee != old(
                            self,
                        ).sweep.last_guarantee {
                            Some(rep.subscribe_guarantee)
                        } else {
                            None::<DeliveryGuarantee>
                        })
                        &&& rep.announce_delay == (if spec_entry_delay(
                            final(self).sweep.index as int,
                        ) != old(self).sweep.last_delay {
                            Some(spec_entry_delay(final(self).sweep.index as int))
                        } else {
                            None::<u64>
                        })
                    })
                    &&& final(self).sweep.index as int == (old(self).sweep.index as int + 1) % 21
                    &&& final(self).sweep.last_guarantee == spec_entry_guarantee(
                        final(self).sweep.index as int,
                    )
                    &&& final(self).sweep.last_delay == spec_entry_delay(
                        final(self).sweep.index as int,
                    )
                    &&& final(self).window.seqs@.len() == 0
                    &&& final(self).window.gaps@.len() == 0
                    &&& final(self).sys_counter == 0
                    &&& final(self).prev_time_ms == now_ms
                })
            }),
    {
        let tlen = topic.unicode_len();
        let is_sys = if tlen >= 4 {
            str_eq(topic.substring_char(0, 4), "$SYS")
        } else {
            false
        };
        if is_sys {
            let sub: &str = if tlen >= 5 {
                topic.substring_char(5, tlen)
            } else {
                ""
            };
            proof {
                reveal_strlit("");
                assert(sub@ =~= spec_sys_subtopic(topic@));
            }
            let recognized = str_eq(sub, "broker/load/bytes/sent/1min") || str_eq(
                sub,
                "broker/load/bytes/received/1min",
            ) || str_eq(sub, "broker/load/publish/received/1min") || str_eq(
                sub,
                "broker/load/publish/sent/1min",
            ) || str_eq(sub, "broker/load/publish/dropped/1min") || str_eq(
                sub,
                "broker/clients/active",
            ) || str_eq(sub, "broker/heap/current");
            let counted = recognized && self.sys_counter < 6;
            if counted {
                self.sys_counter = self.sys_counter + 1;
            }
            self.prev_time_ms = now_ms;
            return Ok(AnalyserStep::Status { recognized, counted });
        }
        match parse_u64(payload) {
            None => Err(AnalyserError::BadPayload),
            Some(v) => {
                let gap = now_ms - self.prev_time_ms;
                self.window.record(v, gap);
                self.prev_time_ms = now_ms;
                if is_window_boundary(now_ms) {
                    let st = match self.window.stats() {
                        Some(st) => st,
                        None => unreached(),
                    };
                    let (old_g, old_d) = self.sweep.current_entry();
                    let unsubscribe_topic = topic_for(old_g, old_d);
                    let adv = self.sweep.advance();
                    let subscribe_topic = topic_for(adv.guarantee, adv.delay);
                    self.window.reset();
                    self.sys_counter = 0;
                    Ok(
                        AnalyserStep::WindowClosed(
                            WindowReport {
                                stats: st,
                                unsubscribe_topic,
                                subscribe_topic,
                                subscribe_guarantee: adv.guarantee,
                                announce_guarantee: adv.announce_guarantee,
                                announce_delay: adv.announce_delay,
                            },
                        ),
                    )
                } else {
                    Ok(AnalyserStep::Recorded)
                }
            },
        }
    }
}

} // verus!
