use inventory_sim::engine::{CycleOutput, Draw, Fraction, InventoryManager};
use inventory_sim::params::{SimError, SimulationParameters};
use rand::rngs::StdRng;
use rand::{Rng, SeedableRng};
use rand_distr::{Distribution, Normal};

fn scenario_params() -> SimulationParameters {
    SimulationParameters {
        start_storage: 0,
        max_storage: 1000,
        period_len: 10,
        power: 120,
        factor: 2,
        mean_sales: 100,
        sigma_sales: 1,
        mean_price: 10000,
        sigma_price: 100,
        storage_cost_per_unit: 1000,
        shortage_cost_per_unit: 10000,
    }
}

fn draw(price: i32, demand: i32, noise: i64) -> Draw {
    Draw { price, demand, noise }
}

fn fixed_draws() -> Vec<Draw> {
    vec![
        draw(10000, 100, 0),
        draw(9950, 101, 1),
        draw(10120, 99, -2),
        draw(10000, 98, 2),
        draw(9890, 100, -1),
        draw(10030, 102, 0),
        draw(9990, 100, 1),
        draw(10010, 97, -1),
        draw(10000, 101, 2),
        draw(9970, 100, 0),
    ]
}

fn sample_draw(rng: &mut StdRng, p: &SimulationParameters) -> Draw {
    let price = Normal::new(p.mean_price as f64, p.sigma_price as f64).unwrap().sample(rng);
    let demand = Normal::new(p.mean_sales as f64, p.sigma_sales as f64).unwrap().sample(rng);
    let f = p.factor as f64;
    let noise = rng.gen_range(-f..f);
    Draw { price: price.round() as i32, demand: demand.round() as i32, noise: noise.round() as i64 }
}

#[test]
fn valid_parameters_are_accepted() {
    let m = InventoryManager::new(scenario_params()).unwrap();
    assert_eq!(m.storage, 0);
    assert!(m.out.deltas.is_empty());
}

#[test]
fn zero_factor_is_rejected() {
    let mut p = scenario_params();
    p.factor = 0;
    assert_eq!(InventoryManager::new(p).err(), Some(SimError::InvalidParameter));
}

#[test]
fn factor_not_below_power_is_rejected() {
    let mut p = scenario_params();
    p.factor = 120;
    assert_eq!(InventoryManager::new(p).err(), Some(SimError::InvalidParameter));
    p.factor = 121;
    assert_eq!(InventoryManager::new(p).err(), Some(SimError::InvalidParameter));
}

#[test]
fn start_above_capacity_is_rejected() {
    let mut p = scenario_params();
    p.start_storage = 1001;
    assert_eq!(InventoryManager::new(p).err(), Some(SimError::InvalidParameter));
    p.start_storage = 1000;
    assert!(InventoryManager::new(p).is_ok());
}

#[test]
fn zero_period_len_and_zero_sigma_are_rejected() {
    let mut p = scenario_params();
    p.period_len = 0;
    assert_eq!(p.validate(), Err(SimError::InvalidParameter));
    let mut p = scenario_params();
    p.sigma_sales = 0;
    assert_eq!(p.validate(), Err(SimError::InvalidParameter));
    let mut p = scenario_params();
    p.sigma_price = 0;
    assert_eq!(p.validate(), Err(SimError::InvalidParameter));
}

#[test]
fn production_below_capacity_is_admitted_whole() {
    let mut m = InventoryManager::new(scenario_params()).unwrap();
    m.modeling_iteration(draw(10000, 100, 1));
    assert_eq!(m.production, 121);
    assert_eq!(m.storage, 121);
    assert_eq!(m.out.general_loss, 0);
}

#[test]
fn production_above_capacity_is_clipped_and_charged() {
    let mut p = scenario_params();
    p.start_storage = 950;
    let mut m = InventoryManager::new(p).unwrap();
    m.modeling_iteration(draw(10000, 100, 1));
    assert_eq!(m.storage, 1000);
    assert_eq!(m.out.general_loss, 71 * 10000);
    m.calc_revenue();
    assert_eq!(m.storage, 900);
    assert_eq!(m.out.revenue, 100 * 10000);
    assert_eq!(m.out.deltas, vec![800]);
    assert_eq!(m.out.general_loss, 71 * 10000 + 800 * 1000);
}

#[test]
fn shortage_is_charged_at_the_market_price() {
    let mut m = InventoryManager::new(scenario_params()).unwrap();
    m.modeling_period(draw(9900, 150, -2));
    assert_eq!(m.storage, 0);
    assert_eq!(m.out.revenue, 118 * 9900);
    assert_eq!(m.out.deltas, vec![-150]);
    assert_eq!(m.out.general_loss, 150 * 9900);
}

#[test]
fn selling_out_records_the_demand_as_delta() {
    let mut m = InventoryManager::new(scenario_params()).unwrap();
    m.modeling_period(draw(10000, 120, 0));
    assert_eq!(m.storage, 0);
    assert_eq!(m.out.deltas, vec![-120]);
    assert_eq!(m.out.general_loss, 120 * 10000);
    assert_eq!(m.out.revenue, 120 * 10000);
}

#[test]
fn negative_demand_is_clamped_to_zero() {
    let mut m = InventoryManager::new(scenario_params()).unwrap();
    m.modeling_period(draw(10000, -5, 0));
    assert_eq!(m.sales, 0);
    assert_eq!(m.storage, 120);
    assert_eq!(m.out.revenue, 0);
    assert_eq!(m.out.deltas, vec![120]);
    assert_eq!(m.out.general_loss, 120 * 1000);
}

#[test]
fn mean_of_no_periods_is_degenerate() {
    let mut m = InventoryManager::new(scenario_params()).unwrap();
    assert_eq!(m.calc_mean(), Err(SimError::ComputationDegenerate));
    m.modeling_period(draw(10000, 100, 0));
    m.modeling_period(draw(10000, 100, 1));
    assert_eq!(m.calc_mean(), Ok(()));
    assert_eq!(m.out.mean, Fraction { num: -80 - 59, den: 2 });
}

#[test]
fn fixed_draws_scenario() {
    let p = scenario_params();
    let draws = fixed_draws();
    let mut first = InventoryManager::new(p).unwrap();
    first.modeling_iteration(draws[0]);
    assert_eq!(first.storage, std::cmp::min(first.production, 1000) as u32);

    let mut m = InventoryManager::new(p).unwrap();
    let out: CycleOutput = m.modeling_cycle(&draws);
    assert_eq!(out.deltas.len(), 10);

    let mut storage: i64 = 0;
    let mut revenue: i128 = 0;
    let mut deltas: Vec<i64> = Vec::new();
    for d in &draws {
        let production = 120 + d.noise;
        storage = std::cmp::min(storage + production, 1000);
        let demand = std::cmp::max(d.demand as i64, 0);
        let fulfilled = std::cmp::min(storage, demand);
        revenue += fulfilled as i128 * d.price as i128;
        storage -= fulfilled;
        deltas.push(storage - demand);
    }
    assert_eq!(out.revenue, revenue);
    assert_eq!(out.deltas, deltas);
    let sum: i64 = deltas.iter().sum();
    assert_eq!(out.delta_sum, sum as i128);
    assert_eq!(out.mean, Fraction { num: sum as i128, den: 10 });
    assert_eq!(m.storage as i64, storage);
}

#[test]
fn fixed_draws_exact_values() {
    let mut m = InventoryManager::new(scenario_params()).unwrap();
    let out = m.modeling_cycle(&fixed_draws());
    assert_eq!(out.deltas, vec![-80, -61, -40, -15, 2, 18, 41, 66, 83, 104]);
    assert_eq!(out.mean, Fraction { num: 118, den: 10 });
}

#[test]
fn reset_returns_to_start_storage() {
    let mut p = scenario_params();
    p.start_storage = 300;
    let mut m = InventoryManager::new(p).unwrap();
    let out = m.modeling_cycle(&fixed_draws());
    assert_eq!(out.deltas.len(), 10);
    assert_ne!(m.storage, 300);
    m.reset_output();
    assert_eq!(m.storage, 300);
    assert!(m.out.deltas.is_empty());
    m.reset_output();
    assert_eq!(m.storage, 300);
    assert_eq!(m.out.revenue, 0);
    assert_eq!(m.out.general_loss, 0);
}

#[test]
fn storage_stays_within_capacity() {
    let mut p = scenario_params();
    p.max_storage = 150;
    p.start_storage = 100;
    let mut m = InventoryManager::new(p).unwrap();
    let demands = [0, 500, 10, 0, 0, 300, 50];
    for (i, dem) in demands.iter().enumerate() {
        m.modeling_period(draw(10000, *dem, (i as i64 % 5) - 2));
        assert!(m.storage <= 150);
    }
}

#[test]
fn loss_never_decreases_within_a_cycle() {
    let mut m = InventoryManager::new(scenario_params()).unwrap();
    let mut rng = StdRng::seed_from_u64(7);
    let p = scenario_params();
    let mut last = m.out.general_loss;
    for _ in 0..50 {
        let d = sample_draw(&mut rng, &p);
        m.modeling_period(d);
        assert!(m.out.general_loss >= last);
        last = m.out.general_loss;
    }
}

#[test]
fn full_production_saturates_storage() {
    let mut p = scenario_params();
    p.max_storage = 100;
    let mut m = InventoryManager::new(p).unwrap();
    m.modeling_iteration(draw(10000, 30, -2));
    assert_eq!(m.storage, 100);
    m.calc_revenue();
    assert_eq!(m.storage, 70);
    m.modeling_iteration(draw(10000, 30, 0));
    assert_eq!(m.storage, 100);
}

#[test]
fn run_without_cycles_is_rejected() {
    let mut m = InventoryManager::new(scenario_params()).unwrap();
    assert_eq!(m.run(&Vec::new()).err(), Some(SimError::InvalidParameter));
}

#[test]
fn run_reports_each_cycle() {
    let mut m = InventoryManager::new(scenario_params()).unwrap();
    let cycles = vec![fixed_draws(), fixed_draws()];
    let report = m.run(&cycles).unwrap();
    assert_eq!(report.records.len(), 2);
    assert_eq!(report.records[1].cycle_index, 1);
    let r = report.records[0];
    assert_eq!(r.profit, r.revenue - r.general_loss);
    assert_eq!(report.records[0].revenue, report.records[1].revenue);
    assert_eq!(report.summary.super_mean_delta, Fraction { num: 236, den: 20 });
    assert_eq!(report.summary.super_mean_revenue, Fraction { num: 2 * r.revenue, den: 2 });
}

#[test]
fn super_mean_revenue_over_a_thousand_cycles() {
    let p = scenario_params();
    let mut rng = StdRng::seed_from_u64(2024);
    let cycles: Vec<Vec<Draw>> =
        (0..1000).map(|_| (0..10).map(|_| sample_draw(&mut rng, &p)).collect()).collect();
    let mut m = InventoryManager::new(p).unwrap();
    let report = m.run(&cycles).unwrap();
    assert_eq!(report.records.len(), 1000);
    let total: i128 = report.records.iter().map(|r| r.revenue).sum();
    assert_eq!(report.summary.super_mean_revenue, Fraction { num: total, den: 1000 });
    let mean: f64 = report.records.iter().map(|r| r.revenue as f64).sum::<f64>() / 1000.0;
    let super_mean = report.summary.super_mean_revenue.num as f64 / 1000.0;
    assert!((mean - super_mean).abs() <= 1e-6 * mean.abs());
}
