use vstd::prelude::*;
use crate::params::{SimError, SimulationParameters};

verus! {

/// Largest magnitude of the revenue that one period can add.
pub open spec fn period_revenue_bound() -> int {
    0x8000_0000_0000_0000
}

/// Largest magnitude of the loss that one period can add.
pub open spec fn period_loss_bound() -> int {
    0x4_0000_0000_0000_0000
}

/// Largest magnitude of one recorded delta.
pub open spec fn delta_bound() -> int {
    0x1_0000_0000
}

/// The exact fraction `num / den`.
#[derive(Clone, Copy, Debug, PartialEq, Eq, Structural)]
pub struct Fraction {
    pub num: i128,
    pub den: u64,
}

/// The random values drawn for one period, rounded to whole numbers.
#[derive(Clone, Copy, Debug, PartialEq, Eq, Structural)]
pub struct Draw {
    /// Market price of one unit, in minor currency units.
    pub price: i32,
    /// Demand, before it is clamped at zero.
    pub demand: i32,
    /// Deviation of production from its mean.
    pub noise: i64,
}

/// The production noise lies within the configured half-width.
pub open spec fn valid_draw(p: SimulationParameters, d: Draw) -> bool {
    -(p.factor as int) <= d.noise <= p.factor
}

/// Units demanded: the drawn demand, clamped at zero.
pub open spec fn demand_of(d: Draw) -> int {
    if d.demand < 0 { 0 } else { d.demand as int }
}

/// Units produced: mean production plus noise, clamped at zero.
pub open spec fn production_of(p: SimulationParameters, d: Draw) -> int {
    if p.power + d.noise < 0 { 0 } else { p.power + d.noise }
}

/// Units on hand after production is taken in, up to capacity.
pub open spec fn intake_level(p: SimulationParameters, s: int, d: Draw) -> int {
    if s + production_of(p, d) <= p.max_storage { s + production_of(p, d) } else { p.max_storage as int }
}

/// Produced units that did not fit into the warehouse.
pub open spec fn rejected_units(p: SimulationParameters, s: int, d: Draw) -> int {
    s + production_of(p, d) - intake_level(p, s, d)
}

/// Units sold: the demand, as far as the stock covers it.
pub open spec fn fulfilled_units(p: SimulationParameters, s: int, d: Draw) -> int {
    if intake_level(p, s, d) <= demand_of(d) { intake_level(p, s, d) } else { demand_of(d) }
}

/// Units on hand at the end of a period that started with `s`.
pub open spec fn storage_after_step(p: SimulationParameters, s: int, d: Draw) -> int {
    intake_level(p, s, d) - fulfilled_units(p, s, d)
}

/// Signed imbalance of a period: stock left after sales minus demand.
pub open spec fn step_delta(p: SimulationParameters, s: int, d: Draw) -> int {
    storage_after_step(p, s, d) - demand_of(d)
}

/// Revenue of a period.
pub open spec fn step_revenue(p: SimulationParameters, s: int, d: Draw) -> int {
    fulfilled_units(p, s, d) * d.price
}

/// Holding cost of a surplus, or the sales missed on a shortage.
pub open spec fn imbalance_cost(p: SimulationParameters, delta: int, price: int) -> int {
    if delta > 0 {
        delta * p.storage_cost_per_unit
    } else if delta < 0 {
        -delta * price
    } else {
        0
    }
}

/// Loss of a period: rejected production plus the imbalance cost.
pub open spec fn step_loss(p: SimulationParameters, s: int, d: Draw) -> int {
    rejected_units(p, s, d) * p.shortage_cost_per_unit + imbalance_cost(p, step_delta(p, s, d), d.price as int)
}

/// Units on hand after the periods with the given draws.
pub open spec fn storage_through(p: SimulationParameters, draws: Seq<Draw>) -> int
    decreases draws.len(),
{
    if draws.len() == 0 {
        p.start_storage as int
    } else {
        storage_after_step(p, storage_through(p, draws.drop_last()), draws.last())
    }
}

/// The deltas recorded over the periods with the given draws.
pub open spec fn deltas_through(p: SimulationParameters, draws: Seq<Draw>) -> Seq<int>
    decreases draws.len(),
{
    if draws.len() == 0 {
        Seq::empty()
    } else {
        deltas_through(p, draws.drop_last()).push(
            step_delta(p, storage_through(p, draws.drop_last()), draws.last()),
        )
    }
}

/// Revenue over the periods with the given draws.
pub open spec fn revenue_through(p: SimulationParameters, draws: Seq<Draw>) -> int
    decreases draws.len(),
{
    if draws.len() == 0 {
        0
    } else {
        revenue_through(p, draws.drop_last()) + step_revenue(
            p,
            storage_through(p, draws.drop_last()),
            draws.last(),
        )
    }
}

/// Loss over the periods with the given draws.
pub open spec fn loss_through(p: SimulationParameters, draws: Seq<Draw>) -> int
    decreases draws.len(),
{
    if draws.len() == 0 {
        0
    } else {
        loss_through(p, draws.drop_last()) + step_loss(
            p,
            storage_through(p, draws.drop_last()),
            draws.last(),
        )
    }
}

/// The sum of a sequence of integers.
pub open spec fn seq_sum(s: Seq<int>) -> int
    decreases s.len(),
{
    if s.len() == 0 {
        0
    } else {
        seq_sum(s.drop_last()) + s.last()
    }
}

/// Recorded deltas as mathematical integers.
pub open spec fn deltas_view(v: Seq<i64>) -> Seq<int> {
    v.map_values(|x: i64| x as int)
}


/// What one cycle produced.
#[derive(Debug)]
pub struct CycleOutput {
    /// Money earned from sales.
    pub revenue: i128,
    /// Accumulated cost of rejected production, surplus and shortage.
    pub general_loss: i128,
    /// The signed imbalance of each completed period, in order.
    pub deltas: Vec<i64>,
    /// The sum of `deltas`.
    pub delta_sum: i128,
    /// The mean of `deltas`; set when the cycle ends.
    pub mean: Fraction,
}

impl CycleOutput {
    /// An output with nothing recorded yet.
    pub fn empty() -> (r: CycleOutput)
        ensures
            r.revenue == 0,
            r.general_loss == 0,
            r.deltas@.len() == 0,
            r.delta_sum == 0,
            r.mean == (Fraction { num: 0, den: 1 }),
    {
        CycleOutput { revenue: 0, general_loss: 0, deltas: Vec::new(), delta_sum: 0, mean: Fraction { num: 0, den: 1 } }
    }

    /// The totals stay within what the number of recorded periods allows.
    pub open spec fn bounded(&self) -> bool {
        &&& self.deltas@.len() <= u32::MAX
        &&& -(self.deltas@.len() * period_revenue_bound()) <= self.revenue <= self.deltas@.len() * period_revenue_bound()
        &&& -(self.deltas@.len() * delta_bound()) <= self.delta_sum <= self.deltas@.len() * delta_bound()
        &&& self.delta_sum == seq_sum(deltas_view(self.deltas@))
    }
}

/// The state of one simulation: its parameters, the stock and the values of
/// the current period, and the output of the current cycle.
#[derive(Debug)]
pub struct InventoryManager {
    pub params: SimulationParameters,
    /// Units on hand.
    pub storage: u32,
    /// Units produced in the current period.
    pub production: u64,
    /// Market price in the current period.
    pub price: i32,
    /// Units demanded in the current period.
    pub sales: u32,
    pub out: CycleOutput,
}

impl InventoryManager {
    /// Between periods: valid parameters, stock within capacity, bounded output.
    pub open spec fn wf(&self) -> bool {
        &&& self.params.valid()
        &&& self.storage <= self.params.max_storage
        &&& self.out.bounded()
        &&& -(self.out.deltas@.len() * period_loss_bound()) <= self.out.general_loss
        &&& self.out.general_loss <= self.out.deltas@.len() * period_loss_bound()
    }

    /// A manager for valid parameters, with the stock at its starting level.
    pub fn new(params: SimulationParameters) -> (r: Result<InventoryManager, SimError>)
        ensures
            r is Ok <==> params.valid(),
            r is Err ==> r == Err::<InventoryManager, SimError>(SimError::InvalidParameter),
            r matches Ok(m) ==> m.wf() && m.params == params && m.storage == params.start_storage
                && m.out.deltas@.len() == 0,
    {
        match params.validate() {
            Err(e) => Err(e),
            Ok(()) => Ok(InventoryManager {
                params,
                storage: params.start_storage,
                production: 0,
                price: 0,
                sales: 0,
                out: CycleOutput::empty(),
            }),
        }
    }

    /// Starts a new cycle: the stock returns to its starting level and the
    /// output is cleared, whatever the previous cycle left.
    pub fn reset_output(&mut self)
        requires
            old(self).params.valid(),
        ensures
            final(self).wf(),
            final(self).params == old(self).params,
            final(self).storage == old(self).params.start_storage,
            final(self).out.deltas@.len() == 0,
            final(self).out.revenue == 0,
            final(self).out.general_loss == 0,
            final(self).out.delta_sum == 0,
    {
        self.out = CycleOutput::empty();
        self.storage = self.params.start_storage;
        self.production = 0;
        self.price = 0;
        self.sales = 0;
    }

    /// Draws are taken in and production is admitted up to capacity; the
    /// production that does not fit is charged at the shortage cost.
    pub fn modeling_iteration(&mut self, d: Draw)
        requires
            old(self).wf(),
            valid_draw(old(self).params, d),
            old(self).out.deltas@.len() < u32::MAX,
        ensures
            final(self).params == old(self).params,
            final(self).price == d.price,
            final(self).sales == demand_of(d),
            final(self).production == production_of(old(self).params, d),
            final(self).storage == intake_level(old(self).params, old(self).storage as int, d),
            final(self).out.general_loss == old(self).out.general_loss + rejected_units(
                old(self).params,
                old(self).storage as int,
                d,
            ) * old(self).params.shortage_cost_per_unit,
            final(self).out.revenue == old(self).out.revenue,
            final(self).out.deltas@ == old(self).out.deltas@,
            final(self).out.delta_sum == old(self).out.delta_sum,
            final(self).out.mean == old(self).out.mean,
    {
        self.price = d.price;
        self.sales = if d.demand < 0 { 0 } else { d.demand as u32 };
        let raw: i64 = self.params.power as i64 + d.noise;
        self.production = if raw < 0 { 0 } else { raw as u64 };
        let total: u64 = self.storage as u64 + self.production;
        assert(self.production == production_of(self.params, d));
        if total <= self.params.max_storage as u64 {
            assert(rejected_units(self.params, self.storage as int, d) == 0);
            self.storage = total as u32;
        } else {
            assert(rejected_units(self.params, self.storage as int, d) == total - self.params.max_storage);
            let rejected: u64 = total - self.params.max_storage as u64;
            let unit: u64 = self.params.shortage_cost_per_unit as u64;
            assert(rejected * unit <= 0x2_0000_0000 * 0x1_0000_0000) by (nonlinear_arith)
                requires rejected <= 0x2_0000_0000, unit <= 0x1_0000_0000;
            let cost: i128 = rejected as i128 * unit as i128;
            self.storage = self.params.max_storage;
            self.out.general_loss = self.out.general_loss + cost;
        }
    }

    /// Demand is served from stock, the period's delta is recorded, and its
    /// surplus is charged at the holding cost or its shortage at the price.
    pub fn calc_revenue(&mut self)
        requires
            old(self).params.valid(),
            old(self).storage <= old(self).params.max_storage,
            old(self).sales <= i32::MAX,
            old(self).out.bounded(),
            old(self).out.deltas@.len() < u32::MAX,
            -(old(self).out.deltas@.len() * period_loss_bound() + 0x2_0000_0000_0000_0000)
                <= old(self).out.general_loss,
            old(self).out.general_loss
                <= old(self).out.deltas@.len() * period_loss_bound() + 0x2_0000_0000_0000_0000,
        ensures
            final(self).params == old(self).params,
            final(self).price == old(self).price,
            final(self).sales == old(self).sales,
            final(self).storage == old(self).storage - min_int(old(self).storage as int, old(self).sales as int),
            final(self).out.deltas@ == old(self).out.deltas@.push(
                (final(self).storage - old(self).sales) as i64,
            ),
            final(self).out.revenue == old(self).out.revenue
                + min_int(old(self).storage as int, old(self).sales as int) * old(self).price,
            final(self).out.general_loss == old(self).out.general_loss + imbalance_cost(
                old(self).params,
                final(self).storage - old(self).sales,
                old(self).price as int,
            ),
            final(self).out.delta_sum == old(self).out.delta_sum + (final(self).storage - old(self).sales),
            final(self).out.mean == old(self).out.mean,
            final(self).wf(),
    {
        let fulfilled: u32 = if self.storage <= self.sales { self.storage } else { self.sales };
        let price: i32 = self.price;
        assert(fulfilled as int * price as int <= period_revenue_bound()
            && -period_revenue_bound() <= fulfilled as int * price as int) by (nonlinear_arith)
            requires fulfilled <= u32::MAX, i32::MIN <= price <= i32::MAX;
        self.storage = self.storage - fulfilled;
        self.out.revenue = self.out.revenue + fulfilled as i128 * price as i128;
        let delta: i64 = self.storage as i64 - self.sales as i64;
        let ghost old_deltas = self.out.deltas@;
        self.out.deltas.push(delta);
        assert(deltas_view(self.out.deltas@).drop_last() =~= deltas_view(old_deltas));
        self.out.delta_sum = self.out.delta_sum + delta as i128;
        if delta > 0 {
            let unit: i64 = self.params.storage_cost_per_unit as i64;
            assert(delta * unit <= 0x1_0000_0000 * 0x1_0000_0000) by (nonlinear_arith)
                requires 0 < delta <= 0x1_0000_0000, 0 <= unit <= 0x1_0000_0000;
            self.out.general_loss = self.out.general_loss + delta as i128 * unit as i128;
        } else if delta < 0 {
            assert(-delta * price <= 0x8000_0000 * 0x8000_0000
                && -(0x8000_0000 * 0x8000_0000) <= -delta * price) by (nonlinear_arith)
                requires 0 < -delta <= 0x8000_0000, i32::MIN <= price <= i32::MAX;
            self.out.general_loss = self.out.general_loss + (-delta) as i128 * price as i128;
        }
    }

    /// Sets the cycle's mean to the sum of its deltas over their number.
    pub fn calc_mean(&mut self) -> (r: Result<(), SimError>)
        requires
            old(self).out.bounded(),
        ensures
            r is Err <==> old(self).out.deltas@.len() == 0,
            r is Err ==> r == Err::<(), SimError>(SimError::ComputationDegenerate)
                && final(self).out.mean == old(self).out.mean,
            r is Ok ==> final(self).out.mean == (Fraction {
                num: old(self).out.delta_sum,
                den: old(self).out.deltas@.len() as u64,
            }),
            final(self).params == old(self).params,
            final(self).storage == old(self).storage,
            final(self).out.deltas@ == old(self).out.deltas@,
            final(self).out.revenue == old(self).out.revenue,
            final(self).out.general_loss == old(self).out.general_loss,
            final(self).out.delta_sum == old(self).out.delta_sum,
    {
        if self.out.deltas.len() == 0 {
            return Err(SimError::ComputationDegenerate);
        }
        self.out.mean = Fraction { num: self.out.delta_sum, den: self.out.deltas.len() as u64 };
        Ok(())
    }

    /// One full period: intake of production, then sales and cost accounting.
    pub fn modeling_period(&mut self, d: Draw)
        requires
            old(self).wf(),
            valid_draw(old(self).params, d),
            old(self).out.deltas@.len() < u32::MAX,
        ensures
            final(self).wf(),
            final(self).params == old(self).params,
            final(self).storage == storage_after_step(old(self).params, old(self).storage as int, d),
            deltas_view(final(self).out.deltas@) == deltas_view(old(self).out.deltas@).push(
                step_delta(old(self).params, old(self).storage as int, d),
            ),
            final(self).out.revenue == old(self).out.revenue + step_revenue(
                old(self).params,
                old(self).storage as int,
                d,
            ),
            final(self).out.general_loss == old(self).out.general_loss + step_loss(
                old(self).params,
                old(self).storage as int,
                d,
            ),
    {
        let ghost s0 = self.storage as int;
        let ghost p = self.params;
        let ghost v0 = self.out.deltas@;
        self.modeling_iteration(d);
        assert(intake_level(p, s0, d) == self.storage);
        assert(rejected_units(p, s0, d) * p.shortage_cost_per_unit <= 0x2_0000_0000 * 0x1_0000_0000)
            by (nonlinear_arith)
            requires
                0 <= rejected_units(p, s0, d) <= 0x2_0000_0000,
                p.shortage_cost_per_unit <= 0x1_0000_0000;
        assert(rejected_units(p, s0, d) * p.shortage_cost_per_unit >= 0) by (nonlinear_arith)
            requires
                0 <= rejected_units(p, s0, d),
                0 <= p.shortage_cost_per_unit;
        self.calc_revenue();
        assert(deltas_view(self.out.deltas@) =~= deltas_view(v0).push(step_delta(p, s0, d)));
    }

    /// Runs one cycle on the given draws, one per period, from a freshly reset
    /// stock, and hands back its output with the mean computed.
    pub fn modeling_cycle(&mut self, draws: &Vec<Draw>) -> (r: CycleOutput)
        requires
            old(self).params.valid(),
            draws@.len() == old(self).params.period_len,
            forall|i: int| 0 <= i < draws@.len() ==> valid_draw(old(self).params, #[trigger] draws@[i]),
        ensures
            final(self).wf(),
            final(self).params == old(self).params,
            final(self).storage == storage_through(old(self).params, draws@),
            cycle_matches(old(self).params, draws@, r),
    {
        let ghost p = self.params;
        self.reset_output();
        let mut i: usize = 0;
        while i < draws.len()
            invariant
                self.wf(),
                self.params == p,
                i <= draws@.len(),
                draws@.len() == p.period_len,
                forall|j: int| 0 <= j < draws@.len() ==> valid_draw(p, #[trigger] draws@[j]),
                self.out.deltas@.len() == i,
                self.storage == storage_through(p, draws@.take(i as int)),
                deltas_view(self.out.deltas@) == deltas_through(p, draws@.take(i as int)),
                self.out.revenue == revenue_through(p, draws@.take(i as int)),
                self.out.general_loss == loss_through(p, draws@.take(i as int)),
            decreases draws@.len() - i,
        {
            let ghost prev = draws@.take(i as int);
            self.modeling_period(draws[i]);
            assert(draws@.take(i + 1).drop_last() =~= prev);
            i = i + 1;
        }
        assert(draws@.take(i as int) =~= draws@);
        let _ = self.calc_mean();
        let mut r = CycleOutput::empty();
        std::mem::swap(&mut self.out, &mut r);
        r
    }
}

/// `r` is the output of the cycle with the given draws: its deltas, revenue
/// and loss follow the draws period by period, and its mean is the sum of the
/// deltas over their number.
pub open spec fn cycle_matches(p: SimulationParameters, draws: Seq<Draw>, r: CycleOutput) -> bool {
    &&& r.bounded()
    &&& r.deltas@.len() == draws.len()
    &&& deltas_view(r.deltas@) == deltas_through(p, draws)
    &&& r.revenue == revenue_through(p, draws)
    &&& r.general_loss == loss_through(p, draws)
    &&& -(draws.len() * period_loss_bound()) <= r.general_loss <= draws.len() * period_loss_bound()
    &&& r.delta_sum == seq_sum(deltas_view(r.deltas@))
    &&& r.mean == (Fraction { num: r.delta_sum, den: draws.len() as u64 })
}

/// The smaller of two integers.
pub open spec fn min_int(a: int, b: int) -> int {
    if a <= b { a } else { b }
}

} // verus!
