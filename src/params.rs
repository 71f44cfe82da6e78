use vstd::prelude::*;

verus! {

/// Why a simulation could not be configured or evaluated.
#[derive(Clone, Copy, Debug, PartialEq, Eq, Structural)]
pub enum SimError {
    /// A parameter is outside the range the model is defined for.
    InvalidParameter,
    /// A mean was asked for over zero observations.
    ComputationDegenerate,
}

/// The immutable configuration of a simulation run.
///
/// Quantities are in units of product; prices and costs are in minor currency
/// units (hundredths of a ruble).
#[derive(Clone, Copy, Debug, PartialEq, Eq, Structural)]
pub struct SimulationParameters {
    /// Units on hand at the start of every cycle.
    pub start_storage: u32,
    /// Capacity of the warehouse.
    pub max_storage: u32,
    /// Number of periods in one cycle.
    pub period_len: u32,
    /// Mean production per period.
    pub power: u32,
    /// Half-width of the uniform production noise.
    pub factor: u32,
    /// Mean demand per period.
    pub mean_sales: u32,
    /// Standard deviation of the demand.
    pub sigma_sales: u32,
    /// Mean market price of one unit.
    pub mean_price: u32,
    /// Standard deviation of the market price.
    pub sigma_price: u32,
    /// Holding cost of one unsold unit for one period.
    pub storage_cost_per_unit: u32,
    /// Cost of one produced unit that did not fit into the warehouse.
    pub shortage_cost_per_unit: u32,
}

impl SimulationParameters {
    /// The parameters describe a well-defined simulation.
    pub open spec fn valid(&self) -> bool {
        &&& self.start_storage <= self.max_storage
        &&& 0 < self.factor
        &&& self.factor < self.power
        &&& self.period_len > 0
        &&& self.sigma_sales > 0
        &&& self.sigma_price > 0
    }

    /// Checks the parameters; every violation is an `InvalidParameter`.
    pub fn validate(&self) -> (r: Result<(), SimError>)
        ensures
            r is Ok <==> self.valid(),
            r is Err ==> r == Err::<(), SimError>(SimError::InvalidParameter),
    {
        if self.start_storage > self.max_storage {
            return Err(SimError::InvalidParameter);
        }
        if self.factor == 0 || self.factor >= self.power {
            return Err(SimError::InvalidParameter);
        }
        if self.period_len == 0 {
            return Err(SimError::InvalidParameter);
        }
        if self.sigma_sales == 0 || self.sigma_price == 0 {
            return Err(SimError::InvalidParameter);
        }
        Ok(())
    }
}

} // verus!
