//! Estimating the fee rate from rates observed on past trades.

use crate::fixed::{abs_diff, distance, div_scaled, scaled_ratio};
use vstd::prelude::*;

verus! {

/// The rate assumed while nothing has been observed.
pub const DEFAULT_FEE_RATE: u64 = 2_000;

/// Fee calibration from observed trades.
#[derive(Debug, Clone, Copy)]
pub struct FeeCalibrator;

/// Number of `rates` strictly below `x`.
pub open spec fn count_below(rates: Seq<u64>, x: u64) -> int
    decreases rates.len(),
{
    if rates.len() == 0 {
        0
    } else {
        count_below(rates.drop_last(), x) + if rates.last() < x {
            1int
        } else {
            0int
        }
    }
}

/// Number of `rates` at or below `x`.
pub open spec fn count_at_most(rates: Seq<u64>, x: u64) -> int
    decreases rates.len(),
{
    if rates.len() == 0 {
        0
    } else {
        count_at_most(rates.drop_last(), x) + if rates.last() <= x {
            1int
        } else {
            0int
        }
    }
}

/// `x` is the rate of rank `k`, counting from zero in ascending order: it
/// is one of the rates, at most `k` rates are below it, and more than `k`
/// are at or below it.
pub open spec fn has_rank(rates: Seq<u64>, k: int, x: u64) -> bool {
    &&& occurs(rates, x)
    &&& count_below(rates, x) <= k < count_at_most(rates, x)
}

/// `x` is one of the rates.
pub open spec fn occurs(rates: Seq<u64>, x: u64) -> bool {
    exists|i: int| 0 <= i < rates.len() && rates[i] == x
}

/// The rank of the ninety-fifth percentile among `len` rates.
pub open spec fn percentile_rank(len: int) -> int {
    if len * 95 / 100 < len - 1 {
        len * 95 / 100
    } else {
        len - 1
    }
}

/// No rate is above a later one.
pub open spec fn ascending(rates: Seq<u64>) -> bool {
    forall|a: int, b: int| 0 <= a <= b < rates.len() ==> rates[a] <= rates[b]
}

/// No more rates are below `x` than at or below it, and no more than
/// there are.
proof fn lemma_counts_bounded(rates: Seq<u64>, x: u64)
    ensures
        0 <= count_below(rates, x) <= count_at_most(rates, x) <= rates.len(),
    decreases rates.len(),
{
    if rates.len() > 0 {
        lemma_counts_bounded(rates.drop_last(), x);
    }
}

/// Inserting a rate adds one to each count that the rate falls under.
proof fn lemma_counts_after_insert(rates: Seq<u64>, p: int, v: u64, x: u64)
    requires
        0 <= p <= rates.len(),
    ensures
        count_below(rates.insert(p, v), x) == count_below(rates, x) + if v < x {
            1int
        } else {
            0int
        },
        count_at_most(rates.insert(p, v), x) == count_at_most(rates, x) + if v <= x {
            1int
        } else {
            0int
        },
    decreases rates.len(),
{
    let after = rates.insert(p, v);
    if p == rates.len() {
        assert(after.drop_last() =~= rates);
        assert(after.last() == v);
    } else {
        assert(after.drop_last() =~= rates.drop_last().insert(p, v));
        assert(after.last() == rates.last());
        lemma_counts_after_insert(rates.drop_last(), p, v, x);
    }
}

/// Where no rate is above `x`, all of them count as at most `x`.
proof fn lemma_all_at_most(rates: Seq<u64>, x: u64)
    requires
        forall|i: int| 0 <= i < rates.len() ==> rates[i] <= x,
    ensures
        count_at_most(rates, x) == rates.len(),
    decreases rates.len(),
{
    if rates.len() > 0 {
        let front = rates.drop_last();
        assert forall|i: int| 0 <= i < front.len() implies front[i] <= x by {
            assert(front[i] == rates[i]);
        }
        lemma_all_at_most(front, x);
    }
}

/// In an ascending sequence the element at index `k` has rank `k`.
proof fn lemma_ascending_rank(rates: Seq<u64>, k: int)
    requires
        ascending(rates),
        0 <= k < rates.len(),
    ensures
        count_below(rates, rates[k]) <= k < count_at_most(rates, rates[k]),
    decreases rates.len(),
{
    let front = rates.drop_last();
    let x = rates[k];
    lemma_counts_bounded(front, x);
    if k == rates.len() - 1 {
        assert forall|i: int| 0 <= i < front.len() implies front[i] <= x by {
            assert(front[i] == rates[i]);
        }
        lemma_all_at_most(front, x);
    } else {
        assert(ascending(front)) by {
            assert forall|a: int, b: int| 0 <= a <= b < front.len() implies front[a]
                <= front[b] by {
                assert(front[a] == rates[a] && front[b] == rates[b]);
            }
        }
        assert(front[k] == x);
        lemma_ascending_rank(front, k);
        assert(rates[k] <= rates.last());
    }
}

/// The rates in ascending order. Each rate is there as often as it was
/// given: for every value, as many rates are below it, and as many at or
/// below it, as before.
pub fn sorted_rates(rates: &[u64]) -> (sorted: Vec<u64>)
    ensures
        sorted@.len() == rates@.len(),
        ascending(sorted@),
        forall|x: u64| #[trigger] count_below(sorted@, x) == count_below(rates@, x),
        forall|x: u64| #[trigger] count_at_most(sorted@, x) == count_at_most(rates@, x),
        forall|j: int| 0 <= j < sorted@.len() ==> occurs(rates@, #[trigger] sorted@[j]),
{
    let len = rates.len();
    let mut sorted: Vec<u64> = Vec::new();
    let mut i: usize = 0;
    while i < len
        invariant
            i <= len,
            len == rates@.len(),
            sorted@.len() == i,
            ascending(sorted@),
            forall|x: u64| #[trigger]
                count_below(sorted@, x) == count_below(rates@.take(i as int), x),
            forall|x: u64| #[trigger]
                count_at_most(sorted@, x) == count_at_most(rates@.take(i as int), x),
            forall|j: int| 0 <= j < sorted@.len() ==> occurs(rates@, #[trigger] sorted@[j]),
        decreases len - i,
    {
        let v = rates[i];
        let mut p: usize = 0;
        while p < sorted.len() && sorted[p] <= v
            invariant
                p <= sorted@.len(),
                forall|a: int| 0 <= a < p ==> sorted@[a] <= v,
            decreases sorted@.len() - p,
        {
            p = p + 1;
        }
        let ghost before = sorted@;
        sorted.insert(p, v);
        proof {
            let prefix = rates@.take(i as int);
            let next = rates@.take(i + 1);
            assert(next.drop_last() =~= prefix);
            assert(next.last() == v);
            assert forall|x: u64| #[trigger]
                count_below(sorted@, x) == count_below(next, x) by {
                lemma_counts_after_insert(before, p as int, v, x);
            }
            assert forall|x: u64| #[trigger]
                count_at_most(sorted@, x) == count_at_most(next, x) by {
                lemma_counts_after_insert(before, p as int, v, x);
            }
            assert forall|a: int, b: int| 0 <= a <= b < sorted@.len() implies sorted@[a]
                <= sorted@[b] by {
                if a < p && b > p {
                    assert(before[a] <= v);
                    assert(before[p as int] <= before[b - 1]);
                } else if a < p && b < p {
                    assert(before[a] <= before[b]);
                } else if a > p {
                    assert(before[a - 1] <= before[b - 1]);
                }
            }
            assert forall|j: int| 0 <= j < sorted@.len() implies occurs(
                rates@,
                #[trigger] sorted@[j],
            ) by {
                if j == p {
                    assert(rates@[i as int] == sorted@[j]);
                } else {
                    let j0 = if j < p {
                        j
                    } else {
                        j - 1
                    };
                    assert(before[j0] == sorted@[j]);
                    assert(occurs(rates@, before[j0]));
                }
            }
        }
        i = i + 1;
    }
    proof {
        assert(rates@.take(i as int) =~= rates@);
    }
    sorted
}

impl FeeCalibrator {
    /// The ninety-fifth percentile of the observed `rates`: the rate whose
    /// rank, in ascending order, is ninety-five hundredths of their number,
    /// rounded down, and at most the last rank. The default rate while
    /// nothing has been observed.
    pub fn calibration_fee_p95(rates: &[u64]) -> (rate: u64)
        ensures
            rates@.len() == 0 ==> rate == DEFAULT_FEE_RATE,
            rates@.len() > 0 ==> has_rank(rates@, percentile_rank(rates@.len() as int), rate),
    {
        let len = rates.len();
        if len == 0 {
            return DEFAULT_FEE_RATE;
        }
        let sorted = sorted_rates(rates);
        let scaled: u128 = len as u128 * 95 / 100;
        let k: usize = if scaled < (len - 1) as u128 {
            scaled as usize
        } else {
            len - 1
        };
        proof {
            lemma_ascending_rank(sorted@, k as int);
            assert(occurs(rates@, sorted@[k as int]));
        }
        sorted[k]
    }

    /// The fee rate implied by a trade: the distance of the execution price
    /// from the oracle price, relative to the oracle price.
    pub fn derive_rate(oracle_price: u64, execution_price: u64) -> (rate: u64)
        ensures
            rate as int == scaled_ratio(
                distance(execution_price as int, oracle_price as int),
                oracle_price as int,
            ),
    {
        div_scaled(abs_diff(execution_price, oracle_price), oracle_price)
    }
}

} // verus!
