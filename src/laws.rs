use vstd::prelude::*;
use crate::engine::{
    deltas_through, demand_of, intake_level, loss_through, min_int, production_of,
    rejected_units, step_delta, step_loss, storage_after_step, storage_through, valid_draw, Draw,
    imbalance_cost,
};
use crate::params::SimulationParameters;

verus! {

/// A period that starts within capacity also ends within capacity, and the
/// stock after intake is within capacity too.
pub proof fn lemma_step_within_capacity(p: SimulationParameters, s: int, d: Draw)
    requires
        0 <= s <= p.max_storage,
    ensures
        0 <= intake_level(p, s, d) <= p.max_storage,
        0 <= storage_after_step(p, s, d) <= p.max_storage,
        rejected_units(p, s, d) >= 0,
{
}

/// Whatever the draws, the stock stays between zero and the capacity after
/// every period of a cycle that starts from valid parameters.
pub proof fn lemma_storage_within_capacity(p: SimulationParameters, draws: Seq<Draw>)
    requires
        p.valid(),
    ensures
        0 <= storage_through(p, draws) <= p.max_storage,
    decreases draws.len(),
{
    if draws.len() > 0 {
        lemma_storage_within_capacity(p, draws.drop_last());
        lemma_step_within_capacity(p, storage_through(p, draws.drop_last()), draws.last());
    }
}

/// Each period records exactly one delta.
pub proof fn lemma_one_delta_per_period(p: SimulationParameters, draws: Seq<Draw>)
    ensures
        deltas_through(p, draws).len() == draws.len(),
    decreases draws.len(),
{
    if draws.len() > 0 {
        lemma_one_delta_per_period(p, draws.drop_last());
    }
}

/// With a non-negative price, no period lowers the loss: rejected production,
/// surplus and shortage each cost a non-negative amount.
pub proof fn lemma_step_loss_nonnegative(p: SimulationParameters, s: int, d: Draw)
    requires
        0 <= s <= p.max_storage,
        d.price >= 0,
    ensures
        step_loss(p, s, d) >= 0,
{
    let r = rejected_units(p, s, d);
    let c = p.shortage_cost_per_unit as int;
    assert(r * c >= 0) by (nonlinear_arith)
        requires r >= 0, c >= 0;
    let delta = step_delta(p, s, d);
    let h = p.storage_cost_per_unit as int;
    let price = d.price as int;
    assert(delta > 0 ==> delta * h >= 0) by (nonlinear_arith)
        requires h >= 0;
    assert(delta < 0 ==> -delta * price >= 0) by (nonlinear_arith)
        requires price >= 0;
    assert(imbalance_cost(p, delta, price) >= 0);
}

/// Within a cycle whose prices are all non-negative, the accumulated loss
/// never decreases from one period to a later one.
pub proof fn lemma_loss_nondecreasing(p: SimulationParameters, draws: Seq<Draw>, i: int, j: int)
    requires
        p.valid(),
        forall|k: int| 0 <= k < draws.len() ==> (#[trigger] draws[k]).price >= 0,
        0 <= i <= j <= draws.len(),
    ensures
        loss_through(p, draws.take(i)) <= loss_through(p, draws.take(j)),
    decreases j - i,
{
    if i < j {
        lemma_loss_nondecreasing(p, draws, i, j - 1);
        let prev = draws.take(j - 1);
        assert(draws.take(j).drop_last() =~= prev);
        assert(draws.take(j).last() == draws[j - 1]);
        lemma_storage_within_capacity(p, prev);
        lemma_step_loss_nonnegative(p, storage_through(p, prev), draws[j - 1]);
    }
}

/// When production covers all free space, the intake fills the warehouse to
/// capacity; the period then ends with the capacity less what was sold.
pub proof fn lemma_saturation(p: SimulationParameters, s: int, d: Draw)
    requires
        p.valid(),
        valid_draw(p, d),
        0 <= s <= p.max_storage,
        p.power - p.factor >= p.max_storage - s,
    ensures
        production_of(p, d) >= p.max_storage - s,
        intake_level(p, s, d) == p.max_storage,
        storage_after_step(p, s, d) == p.max_storage - min_int(p.max_storage as int, demand_of(d)),
{
}

/// When the smallest possible production covers the free space at the start
/// of a cycle, the first period fills the warehouse to capacity.
pub proof fn lemma_first_period_saturates(p: SimulationParameters, draws: Seq<Draw>)
    requires
        p.valid(),
        draws.len() >= 1,
        valid_draw(p, draws[0]),
        p.power - p.factor >= p.max_storage - p.start_storage,
    ensures
        intake_level(p, p.start_storage as int, draws[0]) == p.max_storage,
        storage_through(p, draws.take(1)) == p.max_storage - min_int(
            p.max_storage as int,
            demand_of(draws[0]),
        ),
{
    lemma_saturation(p, p.start_storage as int, draws[0]);
    assert(draws.take(1).drop_last() =~= Seq::<Draw>::empty());
    assert(draws.take(1).last() == draws[0]);
    assert(storage_through(p, draws.take(1).drop_last()) == p.start_storage);
    assert(storage_through(p, draws.take(1)) == storage_after_step(p, p.start_storage as int, draws[0]));
}

} // verus!
