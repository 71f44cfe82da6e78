use vstd::prelude::*;
use crate::engine::{
    cycle_matches, deltas_through, loss_through, period_loss_bound, revenue_through, seq_sum,
    valid_draw, CycleOutput, Draw, Fraction, InventoryManager,
};
use crate::params::{SimError, SimulationParameters};

verus! {

/// Most periods, over all cycles, that one run may hold, so that its
/// totals fit in an `i128`.
pub const MAX_RUN_PERIODS: u64 = 0x1000_0000_0000_0000;

/// The report of one cycle.
#[derive(Clone, Copy, Debug, PartialEq, Eq, Structural)]
pub struct RunRecord {
    pub cycle_index: u64,
    pub revenue: i128,
    pub general_loss: i128,
    /// Revenue minus loss.
    pub profit: i128,
    /// Mean delta of the cycle.
    pub mean: Fraction,
}

/// Totals over all cycles of a run, and their means per cycle.
#[derive(Clone, Copy, Debug, PartialEq, Eq, Structural)]
pub struct RunSummary {
    pub total_revenue: i128,
    pub total_loss: i128,
    /// Sum of all deltas of all cycles.
    pub total_delta_sum: i128,
    /// Total revenue over the number of cycles.
    pub super_mean_revenue: Fraction,
    /// Total loss over the number of cycles.
    pub super_mean_loss: Fraction,
    /// Mean of the cycles' mean deltas.
    pub super_mean_delta: Fraction,
}

/// The records of all cycles, in order, and the summary of the run.
#[derive(Debug)]
pub struct RunReport {
    pub records: Vec<RunRecord>,
    pub summary: RunSummary,
}

/// Sum of the records' revenues.
pub open spec fn sum_revenue(rs: Seq<RunRecord>) -> int
    decreases rs.len(),
{
    if rs.len() == 0 { 0 } else { sum_revenue(rs.drop_last()) + rs.last().revenue }
}

/// Sum of the records' losses.
pub open spec fn sum_loss(rs: Seq<RunRecord>) -> int
    decreases rs.len(),
{
    if rs.len() == 0 { 0 } else { sum_loss(rs.drop_last()) + rs.last().general_loss }
}

/// Sum of the numerators of the records' mean deltas (each cycle's delta sum).
pub open spec fn sum_mean_num(rs: Seq<RunRecord>) -> int
    decreases rs.len(),
{
    if rs.len() == 0 { 0 } else { sum_mean_num(rs.drop_last()) + rs.last().mean.num }
}

/// `r` reports cycle `c` run on `draws`.
pub open spec fn record_matches(p: SimulationParameters, draws: Seq<Draw>, c: int, r: RunRecord) -> bool {
    &&& r.cycle_index == c
    &&& r.revenue == revenue_through(p, draws)
    &&& r.general_loss == loss_through(p, draws)
    &&& r.profit == r.revenue - r.general_loss
    &&& r.mean == (Fraction { num: seq_sum(deltas_through(p, draws)) as i128, den: p.period_len as u64 })
}

/// `s` sums up the records `rs` of a run whose cycles have `period_len` periods.
pub open spec fn summary_matches(rs: Seq<RunRecord>, period_len: int, s: RunSummary) -> bool {
    &&& s.total_revenue == sum_revenue(rs)
    &&& s.total_loss == sum_loss(rs)
    &&& s.total_delta_sum == sum_mean_num(rs)
    &&& s.super_mean_revenue == (Fraction { num: s.total_revenue, den: rs.len() as u64 })
    &&& s.super_mean_loss == (Fraction { num: s.total_loss, den: rs.len() as u64 })
    &&& s.super_mean_delta == (Fraction { num: s.total_delta_sum, den: (rs.len() * period_len) as u64 })
}

/// Each cycle has one valid draw per period.
pub open spec fn valid_cycles(p: SimulationParameters, cycles: Seq<Vec<Draw>>) -> bool {
    forall|c: int| 0 <= c < cycles.len() ==> {
        &&& (#[trigger] cycles[c])@.len() == p.period_len
        &&& forall|i: int| 0 <= i < cycles[c]@.len() ==> valid_draw(p, #[trigger] cycles[c]@[i])
    }
}

impl RunRecord {
    /// The record of cycle `cycle_index` with output `out`.
    pub fn from_output(cycle_index: u64, out: &CycleOutput) -> (r: RunRecord)
        requires
            -0x1_0000_0000_0000_0000_0000_0000_0000 <= out.revenue <= 0x1_0000_0000_0000_0000_0000_0000_0000,
            -0x1_0000_0000_0000_0000_0000_0000_0000 <= out.general_loss <= 0x1_0000_0000_0000_0000_0000_0000_0000,
        ensures
            r.cycle_index == cycle_index,
            r.revenue == out.revenue,
            r.general_loss == out.general_loss,
            r.profit == out.revenue - out.general_loss,
            r.mean == out.mean,
    {
        RunRecord {
            cycle_index,
            revenue: out.revenue,
            general_loss: out.general_loss,
            profit: out.revenue - out.general_loss,
            mean: out.mean,
        }
    }
}

proof fn lemma_bound_step(c: int, n: int, k: int)
    requires
        0 <= c < n,
        0 <= k,
    ensures
        (c + 1) * k == c * k + k,
        (c + 1) * k <= n * k,
        0 <= c * k,
{
    assert((c + 1) * k == c * k + k) by (nonlinear_arith);
    assert((c + 1) * k <= n * k) by (nonlinear_arith)
        requires c + 1 <= n, 0 <= k;
    assert(0 <= c * k) by (nonlinear_arith)
        requires 0 <= c, 0 <= k;
}

impl InventoryManager {
    /// Runs one cycle on each entry of `cycles`, every cycle from a freshly
    /// reset stock, and reports each cycle and the means over all of them.
    /// A run without cycles is an `InvalidParameter`.
    pub fn run(&mut self, cycles: &Vec<Vec<Draw>>) -> (r: Result<RunReport, SimError>)
        requires
            old(self).params.valid(),
            valid_cycles(old(self).params, cycles@),
            cycles@.len() * old(self).params.period_len <= MAX_RUN_PERIODS,
        ensures
            final(self).wf(),
            final(self).params == old(self).params,
            r is Err <==> cycles@.len() == 0,
            r is Err ==> r == Err::<RunReport, SimError>(SimError::InvalidParameter),
            r matches Ok(rep) ==> {
                &&& rep.records@.len() == cycles@.len()
                &&& forall|c: int|
                    0 <= c < cycles@.len() ==> record_matches(
                        old(self).params,
                        cycles@[c]@,
                        c,
                        #[trigger] rep.records@[c],
                    )
                &&& summary_matches(rep.records@, old(self).params.period_len as int, rep.summary)
            },
    {
        if cycles.len() == 0 {
            self.reset_output();
            return Err(SimError::InvalidParameter);
        }
        let ghost p = self.params;
        let ghost n = cycles@.len() as int;
        let ghost k = p.period_len * period_loss_bound();
        assert(n * k <= 0x4000_0000_0000_0000_0000_0000_0000_0000) by (nonlinear_arith)
            requires
                n * p.period_len <= 0x1000_0000_0000_0000,
                k == p.period_len * 0x4_0000_0000_0000_0000,
                0 <= n;
        self.reset_output();
        let mut records: Vec<RunRecord> = Vec::new();
        let mut total_revenue: i128 = 0;
        let mut total_loss: i128 = 0;
        let mut total_delta: i128 = 0;
        let mut c: usize = 0;
        while c < cycles.len()
            invariant
                self.params == p,
                self.wf(),
                valid_cycles(p, cycles@),
                n == cycles@.len(),
                k == p.period_len * period_loss_bound(),
                n * k <= 0x4000_0000_0000_0000_0000_0000_0000_0000,
                c <= n,
                records@.len() == c,
                forall|j: int| 0 <= j < c ==> record_matches(p, cycles@[j]@, j, #[trigger] records@[j]),
                total_revenue == sum_revenue(records@),
                total_loss == sum_loss(records@),
                total_delta == sum_mean_num(records@),
                -(c * k) <= total_revenue <= c * k,
                -(c * k) <= total_loss <= c * k,
                -(c * k) <= total_delta <= c * k,
            decreases n - c,
        {
            proof {
                lemma_bound_step(c as int, n, k);
            }
            let out = self.modeling_cycle(&cycles[c]);
            assert(cycle_matches(p, cycles@[c as int]@, out));
            let rec = RunRecord::from_output(c as u64, &out);
            let ghost before = records@;
            records.push(rec);
            assert(records@.drop_last() =~= before);
            total_revenue = total_revenue + rec.revenue;
            total_loss = total_loss + rec.general_loss;
            total_delta = total_delta + rec.mean.num;
            c = c + 1;
        }
        let count: u64 = cycles.len() as u64;
        assert(count * p.period_len <= 0x1000_0000_0000_0000);
        let periods: u64 = count * self.params.period_len as u64;
        let summary = RunSummary {
            total_revenue,
            total_loss,
            total_delta_sum: total_delta,
            super_mean_revenue: Fraction { num: total_revenue, den: count },
            super_mean_loss: Fraction { num: total_loss, den: count },
            super_mean_delta: Fraction { num: total_delta, den: periods },
        };
        Ok(RunReport { records, summary })
    }
}

} // verus!
