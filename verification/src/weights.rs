//! Positive weighted choices whose cumulative ticket total fits in `u32`.

use vstd::prelude::*;

verus! {

/// A choice that carries a selection weight.
pub trait Weighted {
    spec fn weight_of(&self) -> u32;

    fn weight(&self) -> (r: u32)
        ensures
            r == self.weight_of();
}

pub open spec fn weights_of<T: Weighted>(items: Seq<T>) -> Seq<u32> {
    items.map_values(|item: T| item.weight_of())
}

pub open spec fn weight_total(weights: Seq<u32>) -> int
    decreases weights.len(),
{
    if weights.len() == 0 {
        0
    } else {
        weight_total(weights.drop_last()) + weights.last()
    }
}

/// Every weight is positive and the running total never leaves `u32`.
pub open spec fn positive_weights_fit(weights: Seq<u32>) -> bool {
    &&& forall|i: int| 0 <= i < weights.len() ==> #[trigger] weights[i] > 0
    &&& weight_total(weights) <= u32::MAX
}

proof fn lemma_weight_total_prefix(weights: Seq<u32>, k: int)
    requires
        0 <= k <= weights.len(),
    ensures
        weight_total(weights.subrange(0, k)) <= weight_total(weights),
    decreases weights.len() - k,
{
    if k < weights.len() {
        assert(weights.subrange(0, k + 1).drop_last() =~= weights.subrange(0, k));
        lemma_weight_total_prefix(weights, k + 1);
    } else {
        assert(weights.subrange(0, k) =~= weights);
    }
}

/// A positive weight list whose total fits in `u32` keeps every running
/// total in `u32`, and the running totals strictly increase.
pub proof fn law_running_weight_totals_fit(weights: Seq<u32>, k: int)
    requires
        positive_weights_fit(weights),
        0 <= k < weights.len(),
    ensures
        weight_total(weights.subrange(0, k)) < weight_total(weights.subrange(0, k + 1)) <= u32::MAX,
{
    assert(weights.subrange(0, k + 1).drop_last() =~= weights.subrange(0, k));
    assert(weights[k] > 0);
    lemma_weight_total_prefix(weights, k + 1);
}

/// Whether every weight is positive and the cumulative total fits in `u32`.
pub fn checked_positive_weight_sum<T: Weighted>(items: &Vec<T>) -> (r: bool)
    ensures
        r == positive_weights_fit(weights_of(items@)),
{
    let ghost ws = weights_of(items@);
    let mut total: u32 = 0;
    let mut k: usize = 0;
    while k < items.len()
        invariant
            k <= items@.len(),
            ws == weights_of(items@),
            ws.len() == items@.len(),
            total == weight_total(ws.subrange(0, k as int)),
            forall|i: int| 0 <= i < k ==> #[trigger] ws[i] > 0,
        decreases items.len() - k,
    {
        assert(ws.subrange(0, k + 1).drop_last() =~= ws.subrange(0, k as int));
        let w = items[k].weight();
        if w == 0 {
            assert(ws[k as int] == 0);
            return false;
        }
        match total.checked_add(w) {
            None => {
                proof {
                    lemma_weight_total_prefix(ws, k + 1);
                }
                return false;
            },
            Some(next) => {
                total = next;
            },
        }
        k = k + 1;
    }
    assert(ws.subrange(0, k as int) =~= ws);
    true
}

} // verus!
