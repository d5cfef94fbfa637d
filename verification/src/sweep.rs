//! The sweep matrix of (delivery guarantee, publish delay) combinations and
//! the controller state that walks it.
//!
//! The matrix is the Cartesian product of the three guarantee levels with the
//! seven delay values, guarantee-major and delay-minor, and the controller
//! advances through it one entry per measurement window, wrapping at the end.

use vstd::prelude::*;
use crate::digits::spec_decimal;
use crate::digits::u64_to_decimal;
use vstd::arithmetic::div_mod::lemma_fundamental_div_mod;
use vstd::arithmetic::div_mod::lemma_fundamental_div_mod_converse;
use vstd::arithmetic::div_mod::lemma_mod_equivalence;
use vstd::arithmetic::div_mod::lemma_mod_multiples_vanish;
use vstd::arithmetic::div_mod::lemma_small_mod;

verus! {

/// The reliability level negotiated per message, ordered by ordinal.
#[derive(Clone, Copy, PartialEq, Eq, Structural, Debug)]
pub enum DeliveryGuarantee {
    AtMostOnce,
    AtLeastOnce,
    ExactlyOnce,
}

impl DeliveryGuarantee {
    pub open spec fn spec_ordinal(self) -> int {
        match self {
            DeliveryGuarantee::AtMostOnce => 0,
            DeliveryGuarantee::AtLeastOnce => 1,
            DeliveryGuarantee::ExactlyOnce => 2,
        }
    }

    pub fn ordinal(self) -> (r: u8)
        ensures
            r as int == self.spec_ordinal(),
    {
        match self {
            DeliveryGuarantee::AtMostOnce => 0,
            DeliveryGuarantee::AtLeastOnce => 1,
            DeliveryGuarantee::ExactlyOnce => 2,
        }
    }
}

/// The guarantee level with the given ordinal; ordinals at or above three
/// never arise inside the matrix.
pub open spec fn spec_guarantee_of(o: int) -> DeliveryGuarantee {
    if o == 0 {
        DeliveryGuarantee::AtMostOnce
    } else if o == 1 {
        DeliveryGuarantee::AtLeastOnce
    } else {
        DeliveryGuarantee::ExactlyOnce
    }
}

/// The fixed ordered set of inter-publish delays, in milliseconds.
pub open spec fn spec_delay_values() -> Seq<u64> {
    seq![0u64, 1u64, 2u64, 10u64, 20u64, 100u64, 200u64]
}

pub open spec fn is_delay_value(d: u64) -> bool {
    spec_delay_values().contains(d)
}

pub open spec fn spec_guarantee_count() -> int {
    3
}

pub open spec fn spec_delay_count() -> int {
    7
}

pub open spec fn spec_matrix_len() -> int {
    21
}

/// Guarantee of matrix entry `i`: the slow-varying, outer dimension.
pub open spec fn spec_entry_guarantee(i: int) -> DeliveryGuarantee {
    spec_guarantee_of(i / 7)
}

/// Delay of matrix entry `i`: the fast-varying, inner dimension.
pub open spec fn spec_entry_delay(i: int) -> u64 {
    spec_delay_values()[i % 7]
}

fn delay_at(j: usize) -> (r: u64)
    requires
        j < 7,
    ensures
        r == spec_delay_values()[j as int],
{
    if j == 0 {
        0
    } else if j == 1 {
        1
    } else if j == 2 {
        2
    } else if j == 3 {
        10
    } else if j == 4 {
        20
    } else if j == 5 {
        100
    } else {
        200
    }
}

/// The matrix entry at `i`: guarantee-major, delay-minor.
pub fn matrix_entry(i: usize) -> (r: (DeliveryGuarantee, u64))
    requires
        i < 21,
    ensures
        r.0 == spec_entry_guarantee(i as int),
        r.1 == spec_entry_delay(i as int),
{
    let q = i / 7;
    let j = i % 7;
    let g = if q == 0 {
        DeliveryGuarantee::AtMostOnce
    } else if q == 1 {
        DeliveryGuarantee::AtLeastOnce
    } else {
        DeliveryGuarantee::ExactlyOnce
    };
    (g, delay_at(j))
}

/// The canonical data topic for a (guarantee, delay) pair:
/// `counter/<guarantee ordinal>/<delay>`.
pub open spec fn spec_topic(g: DeliveryGuarantee, d: u64) -> Seq<char> {
    "counter/"@ + spec_decimal(g.spec_ordinal() as nat) + "/"@ + spec_decimal(d as nat)
}

pub fn topic_for(g: DeliveryGuarantee, d: u64) -> (r: String)
    ensures
        r@ == spec_topic(g, d),
{
    let mut s = String::from_str("counter/");
    let ord = u64_to_decimal(g.ordinal() as u64);
    s.append(ord.as_str());
    s.append("/");
    let dd = u64_to_decimal(d);
    s.append(dd.as_str());
    proof {
        assert(s@ =~= spec_topic(g, d));
    }
    s
}

/// State of the sweep controller: the current matrix index and the
/// guarantee and delay most recently announced to the producer.
pub struct SweepState {
    pub index: usize,
    pub last_guarantee: DeliveryGuarantee,
    pub last_delay: u64,
}

/// What one advancement asks the surrounding loop to do: resubscribe to the
/// new entry's topic, and announce whichever of the two parameters changed.
pub struct SweepAdvance {
    pub guarantee: DeliveryGuarantee,
    pub delay: u64,
    pub announce_guarantee: Option<DeliveryGuarantee>,
    pub announce_delay: Option<u64>,
}

impl SweepState {
    pub open spec fn wf(self) -> bool {
        &&& self.index < 21
        &&& is_delay_value(self.last_delay)
    }

    /// The run starts at the first matrix entry, which is also what the
    /// producer starts with, so nothing has to be announced for it.
    pub fn new() -> (r: SweepState)
        ensures
            r.wf(),
            r.index == 0,
            r.last_guarantee == DeliveryGuarantee::AtMostOnce,
            r.last_delay == 0u64,
    {
        proof {
            assert(spec_delay_values()[0] == 0u64);
        }
        SweepState { index: 0, last_guarantee: DeliveryGuarantee::AtMostOnce, last_delay: 0 }
    }

    pub open spec fn spec_current_guarantee(self) -> DeliveryGuarantee {
        spec_entry_guarantee(self.index as int)
    }

    pub open spec fn spec_current_delay(self) -> u64 {
        spec_entry_delay(self.index as int)
    }

    /// The (guarantee, delay) pair the sweep currently points at.
    pub fn current_entry(&self) -> (r: (DeliveryGuarantee, u64))
        requires
            self.wf(),
        ensures
            r.0 == self.spec_current_guarantee(),
            r.1 == self.spec_current_delay(),
    {
        matrix_entry(self.index)
    }

    /// Step to the next matrix entry, wrapping past the end, and report
    /// which of the two parameters must be announced: each is announced
    /// exactly when it differs from the last announced value, and the two
    /// are decided independently of one another.
    pub fn advance(&mut self) -> (r: SweepAdvance)
        requires
            old(self).wf(),
        ensures
            final(self).wf(),
            final(self).index as int == (old(self).index as int + 1) % 21,
            r.guarantee == spec_entry_guarantee(final(self).index as int),
            r.delay == spec_entry_delay(final(self).index as int),
            r.announce_guarantee == (if r.guarantee != old(self).last_guarantee {
                Some(r.guarantee)
            } else {
                None::<DeliveryGuarantee>
            }),
            r.announce_delay == (if r.delay != old(self).last_delay {
                Some(r.delay)
            } else {
                None::<u64>
            }),
            final(self).last_guarantee == r.guarantee,
            final(self).last_delay == r.delay,
    {
        let next = if self.index + 1 == 21 {
            0
        } else {
            self.index + 1
        };
        proof {
            if old(self).index + 1 == 21 {
                lemma_mod_multiples_vanish(1, 0, 21);
            } else {
                lemma_small_mod((old(self).index + 1) as nat, 21);
            }
        }
        self.index = next;
        let (g, d) = matrix_entry(next);
        let announce_guarantee = if g != self.last_guarantee {
            Some(g)
        } else {
            None
        };
        let announce_delay = if d != self.last_delay {
            Some(d)
        } else {
            None
        };
        self.last_guarantee = g;
        self.last_delay = d;
        proof {
            assert(is_delay_value(d)) by {
                assert(spec_delay_values()[(next as int) % 7] == d);
            }
        }
        SweepAdvance { guarantee: g, delay: d, announce_guarantee, announce_delay }
    }
}

/// The matrix index reached after `k` advancements from `start`.
pub open spec fn spec_index_after(start: int, k: nat) -> int
    decreases k,
{
    if k == 0 {
        start
    } else {
        (spec_index_after(start, (k - 1) as nat) + 1) % 21
    }
}

pub proof fn lemma_index_after_mod(start: int, k: nat)
    requires
        0 <= start < 21,
    ensures
        spec_index_after(start, k) == (start + k) % 21,
    decreases k,
{
    if k == 0 {
        lemma_small_mod(start as nat, 21);
    } else {
        lemma_index_after_mod(start, (k - 1) as nat);
        let a = start + k - 1;
        lemma_fundamental_div_mod(a, 21);
        lemma_mod_multiples_vanish(a / 21, a % 21 + 1, 21);
    }
}

/// The matrix itself is a bijection between index and combination: entry
/// `g * 7 + j` carries the `g`-th guarantee with the `j`-th delay, so the
/// walk is guarantee-major and delay-minor, and no two of the twenty-one
/// entries carry the same combination.
pub proof fn lemma_matrix_guarantee_major()
    ensures
        forall|g: int, j: int|
            0 <= g < 3 && 0 <= j < 7 ==> #[trigger] spec_entry_guarantee(g * 7 + j)
                == spec_guarantee_of(g) && spec_entry_delay(g * 7 + j) == spec_delay_values()[j],
        forall|i1: int, i2: int|
            #![trigger spec_entry_guarantee(i1), spec_entry_guarantee(i2)]
            0 <= i1 < i2 < 21 ==> !(spec_entry_guarantee(i1) == spec_entry_guarantee(i2)
                && spec_entry_delay(i1) == spec_entry_delay(i2)),
{
    assert forall|g: int, j: int| 0 <= g < 3 && 0 <= j < 7 implies #[trigger] spec_entry_guarantee(
        g * 7 + j,
    ) == spec_guarantee_of(g) && spec_entry_delay(g * 7 + j) == spec_delay_values()[j] by {
        lemma_fundamental_div_mod_converse(g * 7 + j, 7, g, j);
    }
    assert forall|i1: int, i2: int|
        #![trigger spec_entry_guarantee(i1), spec_entry_guarantee(i2)]
        0 <= i1 < i2 < 21 implies !(spec_entry_guarantee(i1) == spec_entry_guarantee(i2)
        && spec_entry_delay(i1) == spec_entry_delay(i2)) by {
        lemma_fundamental_div_mod(i1, 7);
        lemma_fundamental_div_mod(i2, 7);
        if spec_entry_guarantee(i1) == spec_entry_guarantee(i2) && spec_entry_delay(i1)
            == spec_entry_delay(i2) {
            assert(i1 / 7 == i2 / 7);
            assert(spec_delay_values()[i1 % 7] == spec_delay_values()[i2 % 7]);
            assert(i1 % 7 == i2 % 7);
        }
    }
}

/// How many advancements from `start` reach index `i`.
pub open spec fn spec_cycle_offset(start: int, i: int) -> nat {
    (((i - start + 21) % 21) as nat)
}

/// Repeated advancement is a full cycle: from any starting index, twenty-one
/// advancements visit twenty-one pairwise distinct indices — with the matrix
/// bijection above, every (guarantee, delay) combination exactly once — and
/// the twenty-second advancement repeats the first.
pub proof fn lemma_sweep_cycle(start: int)
    requires
        0 <= start < 21,
    ensures
        forall|k1: nat, k2: nat|
            k1 < k2 < 21 ==> #[trigger] spec_index_after(start, k1) != #[trigger] spec_index_after(
                start,
                k2,
            ),
        forall|i: int|
            0 <= i < 21 ==> spec_cycle_offset(start, i) < 21 && #[trigger] spec_index_after(
                start,
                spec_cycle_offset(start, i),
            ) == i,
        forall|k: nat|
            #[trigger] spec_index_after(start, (k + 21) as nat) == spec_index_after(start, k),
{
    assert forall|k1: nat, k2: nat| k1 < k2 < 21 implies #[trigger] spec_index_after(start, k1)
        != #[trigger] spec_index_after(start, k2) by {
        lemma_index_after_mod(start, k1);
        lemma_index_after_mod(start, k2);
        lemma_mod_equivalence(start + k2, start + k1, 21);
        if spec_index_after(start, k1) == spec_index_after(start, k2) {
            lemma_small_mod((k2 - k1) as nat, 21);
        }
    }
    assert forall|i: int| 0 <= i < 21 implies spec_cycle_offset(start, i) < 21
        && #[trigger] spec_index_after(start, spec_cycle_offset(start, i)) == i by {
        let k = spec_cycle_offset(start, i);
        lemma_small_mod(k, 21);
        lemma_index_after_mod(start, k);
        lemma_mod_multiples_vanish(1, i - start, 21);
        lemma_mod_equivalence(start + k, i, 21);
        lemma_mod_equivalence(i - start, k as int, 21);
        lemma_small_mod(i as nat, 21);
        assert(spec_index_after(start, k) == i);
    }
    assert forall|k: nat| #[trigger] spec_index_after(start, (k + 21) as nat) == spec_index_after(
        start,
        k,
    ) by {
        lemma_index_after_mod(start, k);
        lemma_index_after_mod(start, (k + 21) as nat);
        lemma_mod_multiples_vanish(1, start + k, 21);
    }
}

} // verus!
