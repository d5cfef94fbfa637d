//! The windowed measurement engine: one window of received sequence numbers
//! and inter-arrival gaps, and the five summary statistics computed from it.
//!
//! Every statistic is kept as an exact rational (or an exact gap value), so
//! nothing here rounds: callers that want a floating-point reading divide
//! numerator by denominator themselves.  A window with no messages has no
//! statistics at all — the engine returns `None` rather than dividing by the
//! empty count.

use vstd::prelude::*;
use vstd::arithmetic::div_mod::lemma_fundamental_div_mod;
use vstd::arithmetic::div_mod::lemma_fundamental_div_mod_converse;

verus! {

/// An exact signed rational: `num / den`, negated when `neg` is set.
#[derive(Clone, Copy, PartialEq, Eq, Structural, Debug)]
pub struct Ratio {
    pub neg: bool,
    pub num: u128,
    pub den: u128,
}

/// One measurement window: the received sequence numbers and the
/// inter-arrival gaps, both in arrival order and always of equal length.
/// The first gap of a window is a sentinel zero, not a measured gap.
pub struct MeasurementWindow {
    pub seqs: Vec<u64>,
    pub gaps: Vec<u64>,
}

/// The largest sequence value in the window.
pub open spec fn spec_seq_max(s: Seq<u64>) -> int
    decreases s.len(),
{
    if s.len() == 0 {
        0
    } else if s.len() == 1 {
        s[0] as int
    } else if s.last() as int > spec_seq_max(s.drop_last()) {
        s.last() as int
    } else {
        spec_seq_max(s.drop_last())
    }
}

/// The smallest sequence value in the window.
pub open spec fn spec_seq_min(s: Seq<u64>) -> int
    decreases s.len(),
{
    if s.len() == 0 {
        0
    } else if s.len() == 1 {
        s[0] as int
    } else if (s.last() as int) < spec_seq_min(s.drop_last()) {
        s.last() as int
    } else {
        spec_seq_min(s.drop_last())
    }
}

/// The sum of all gaps in the window.
pub open spec fn spec_gap_sum(s: Seq<u64>) -> int
    decreases s.len(),
{
    if s.len() == 0 {
        0
    } else {
        spec_gap_sum(s.drop_last()) + s.last()
    }
}

/// How many adjacent pairs, in arrival order, arrived out of order: the
/// later of the two carries the smaller sequence number.
pub open spec fn spec_ooo_pairs(s: Seq<u64>) -> int
    decreases s.len(),
{
    if s.len() < 2 {
        0
    } else if (s.last() as int) < s[s.len() - 2] as int {
        spec_ooo_pairs(s.drop_last()) + 1
    } else {
        spec_ooo_pairs(s.drop_last())
    }
}

/// The positional median index over `n` gaps in arrival order: `n / 2` for
/// even `n` and `ceil(n / 2)` for odd `n`.  This is deliberately not a
/// sorted median — the sequence is read as it arrived.
pub open spec fn spec_median_index(n: int) -> int {
    if n % 2 == 0 {
        n / 2
    } else {
        (n + 1) / 2
    }
}

/// The five summary statistics of one window.
#[derive(Clone, Copy, Debug)]
pub struct WindowStats {
    /// Count of received sequence numbers.
    pub n: usize,
    /// Span of observed sequence numbers: how many should have arrived.
    pub expected_count: u64,
    /// Messages per second over the nominal ten-second window: `n / 10`.
    pub message_rate: Ratio,
    /// `1 - n / expected_count`; absent when the span is zero, since that
    /// would divide by zero.  Negative loss is kept as is: it is a valid
    /// reading when nothing was lost and duplicates arrived.
    pub loss_rate: Option<Ratio>,
    /// Out-of-order adjacent pairs over the count: `pairs / n`.
    pub out_of_order_rate: Ratio,
    /// Mean inter-arrival gap: `sum(gaps) / n`, in milliseconds.
    pub delay_mean: Ratio,
    /// The gap at the positional median index, in milliseconds; absent when
    /// that index falls outside the window (a one-message window).
    pub delay_median: Option<u64>,
}

/// What the statistics of a window must be, field by field; `None` exactly
/// for the empty window.
pub open spec fn stats_spec(seqs: Seq<u64>, gaps: Seq<u64>) -> Option<WindowStats> {
    if seqs.len() == 0 {
        None
    } else {
        let n = seqs.len() as int;
        let expected = spec_seq_max(seqs) - spec_seq_min(seqs);
        Some(
            WindowStats {
                n: seqs.len() as usize,
                expected_count: expected as u64,
                message_rate: Ratio { neg: false, num: n as u128, den: 10 },
                loss_rate: if expected == 0 {
                    None
                } else {
                    Some(
                        Ratio {
                            neg: n > expected,
                            num: (if n > expected {
                                n - expected
                            } else {
                                expected - n
                            }) as u128,
                            den: expected as u128,
                        },
                    )
                },
                out_of_order_rate: Ratio {
                    neg: false,
                    num: spec_ooo_pairs(seqs) as u128,
                    den: n as u128,
                },
                delay_mean: Ratio { neg: false, num: spec_gap_sum(gaps) as u128, den: n as u128 },
                delay_median: if spec_median_index(n) < gaps.len() {
                    Some(gaps[spec_median_index(n)])
                } else {
                    None
                },
            },
        )
    }
}

impl MeasurementWindow {
    /// A window is well formed when it holds one gap per sequence number.
    pub open spec fn wf(self) -> bool {
        self.gaps@.len() == self.seqs@.len()
    }

    pub fn new() -> (r: MeasurementWindow)
        ensures
            r.wf(),
            r.seqs@.len() == 0,
            r.gaps@.len() == 0,
    {
        MeasurementWindow { seqs: Vec::new(), gaps: Vec::new() }
    }

    /// Append one received message.  The first message of a window records
    /// the sentinel zero gap; every later one records the elapsed time since
    /// the previous inbound message.
    pub fn record(&mut self, seq: u64, elapsed_since_prev: u64)
        requires
            old(self).wf(),
        ensures
            final(self).wf(),
            final(self).seqs@ == old(self).seqs@.push(seq),
            final(self).gaps@ == old(self).gaps@.push(
                if old(self).seqs@.len() == 0 {
                    0u64
                } else {
                    elapsed_since_prev
                },
            ),
    {
        let gap = if self.seqs.len() == 0 {
            0
        } else {
            elapsed_since_prev
        };
        self.seqs.push(seq);
        self.gaps.push(gap);
    }

    /// Discard the window's contents at a window boundary.
    pub fn reset(&mut self)
        ensures
            final(self).wf(),
            final(self).seqs@.len() == 0,
            final(self).gaps@.len() == 0,
    {
        self.seqs.clear();
        self.gaps.clear();
    }

    /// Compute the five statistics of this window, or `None` for an empty
    /// window, whose statistics are undefined.
    pub fn stats(&self) -> (r: Option<WindowStats>)
        requires
            self.wf(),
        ensures
            r == stats_spec(self.seqs@, self.gaps@),
            (r is None) <==> self.seqs@.len() == 0,
    {
        let n = self.seqs.len();
        if n == 0 {
            return None;
        }
        let ghost sq = self.seqs@;
        let ghost gp = self.gaps@;

        // Sequence span, scanning forward over ever longer prefixes.
        let mut mx = self.seqs[0];
        let mut mn = self.seqs[0];
        let mut i: usize = 1;
        proof {
            assert(sq.take(1).len() == 1);
            assert(sq.take(1)[0] == sq[0]);
        }
        while i < n
            invariant
                1 <= i <= n,
                n == sq.len(),
                sq == self.seqs@,
                mx as int == spec_seq_max(sq.take(i as int)),
                mn as int == spec_seq_min(sq.take(i as int)),
                mn <= mx,
            decreases n - i,
        {
            let v = self.seqs[i];
            proof {
                assert(sq.take(i as int + 1).drop_last() =~= sq.take(i as int));
                assert(sq.take(i as int + 1).last() == sq[i as int]);
            }
            if v > mx {
                mx = v;
            }
            if v < mn {
                mn = v;
            }
            i = i + 1;
        }
        proof {
            assert(sq.take(n as int) =~= sq);
        }
        let expected: u64 = mx - mn;

        // Out-of-order adjacent pairs, in arrival order.
        let mut ooo: usize = 0;
        let mut i: usize = 1;
        proof {
            assert(spec_ooo_pairs(sq.take(1)) == 0);
        }
        while i < n
            invariant
                1 <= i <= n,
                n == sq.len(),
                sq == self.seqs@,
                ooo <= i,
                ooo as int == spec_ooo_pairs(sq.take(i as int)),
            decreases n - i,
        {
            proof {
                assert(sq.take(i as int + 1).drop_last() =~= sq.take(i as int));
                assert(sq.take(i as int + 1).last() == sq[i as int]);
                assert(sq.take(i as int + 1)[i as int - 1] == sq[i as int - 1]);
            }
            if self.seqs[i] < self.seqs[i - 1] {
                ooo = ooo + 1;
            }
            i = i + 1;
        }
        proof {
            assert(sq.take(n as int) =~= sq);
        }

        // Sum of the gaps; it always fits in a `u128`.
        let mut sum: u128 = 0;
        let mut i: usize = 0;
        while i < n
            invariant
                0 <= i <= n,
                n == gp.len(),
                gp == self.gaps@,
                sum as int == spec_gap_sum(gp.take(i as int)),
                sum as int <= (i as int) * 0xffff_ffff_ffff_ffffu64,
            decreases n - i,
        {
            let g = self.gaps[i];
            proof {
                assert(gp.take(i as int + 1).drop_last() =~= gp.take(i as int));
                assert(gp.take(i as int + 1).last() == gp[i as int]);
                assert(sum as int + g as int <= (i as int + 1) * 0xffff_ffff_ffff_ffffu64 as int
                    <= u128::MAX) by (nonlinear_arith)
                    requires
                        sum as int <= (i as int) * 0xffff_ffff_ffff_ffffu64,
                        g as int <= 0xffff_ffff_ffff_ffffu64,
                        0 <= i as int,
                        i as int + 1 <= 0xffff_ffff_ffff_ffffu64 as int + 1,
                ;
            }
            sum = sum + g as u128;
            i = i + 1;
        }
        proof {
            assert(gp.take(n as int) =~= gp);
        }

        // Positional median index: n/2 for even n, ceil(n/2) for odd n.
        let mid: usize = if n % 2 == 0 {
            n / 2
        } else {
            proof {
                lemma_fundamental_div_mod(n as int, 2);
                lemma_fundamental_div_mod_converse(n as int + 1, 2, n as int / 2 + 1, 0);
            }
            n / 2 + 1
        };
        let median: Option<u64> = if mid < self.gaps.len() {
            Some(self.gaps[mid])
        } else {
            None
        };

        let loss: Option<Ratio> = if expected == 0 {
            None
        } else if (n as u128) > (expected as u128) {
            Some(Ratio { neg: true, num: n as u128 - expected as u128, den: expected as u128 })
        } else {
            Some(Ratio { neg: false, num: expected as u128 - n as u128, den: expected as u128 })
        };

        Some(
            WindowStats {
                n,
                expected_count: expected,
                message_rate: Ratio { neg: false, num: n as u128, den: 10 },
                loss_rate: loss,
                out_of_order_rate: Ratio { neg: false, num: ooo as u128, den: n as u128 },
                delay_mean: Ratio { neg: false, num: sum, den: n as u128 },
                delay_median: median,
            },
        )
    }
}

} // verus!
