//! The measurement mapping M : O → D, declared before any operator acts:
//! the whole-number observables and declared parameters.
//!
//! Δ bounds per meter class apply to Δ(rₖ) = rₖ − rₖ₋₁, where rₖ is a
//! cumulative register reading in kWh:
//!   B_c = k_c × (E_c / N_c / N_intervals)
//! with E_c the class throughput allocated from O-03 by account count,
//! N_c the class account count (O-01), N_intervals = 12 billing intervals
//! per year, and k_c the declared bound multiplier. Account-count
//! allocation gives the same per-account interval mean (about 657 kWh) for
//! every class; the bounds are synthetic until calibrated on AMI data.

use vstd::prelude::*;

verus! {

/// O-01: electric customer accounts (EIA Form 861, 2019).
pub const METERS_ELECTRIC: u32 = 16_516;

/// O-02: water accounts (estimated; to be confirmed).
pub const METERS_WATER: u32 = 16_000;

pub const METERS_TOTAL: u32 = METERS_ELECTRIC + METERS_WATER;

/// O-03: annual retail sales, MWh.
pub const ANNUAL_RETAIL_SALES_MWH: u64 = 130_286;

/// O-04: annual revenue, USD.
pub const ANNUAL_REVENUE_USD: u64 = 23_686_000;

/// O-05 / O-06: vendor MDM cost per meter per year, USD (low and high tier).
pub const VENDOR_MDM_COST_LOW_PER_METER: u64 = 3;
pub const VENDOR_MDM_COST_HIGH_PER_METER: u64 = 25;

/// O-07 / O-08: vendor MDM one-time implementation cost, USD.
pub const VENDOR_IMPL_COST_LOW: u64 = 50_000;
pub const VENDOR_IMPL_COST_HIGH: u64 = 250_000;

/// O-11: loaded municipal labor cost, USD per hour.
pub const LABOR_COST_PER_HOUR: u64 = 35;

/// Simulation horizon, years.
pub const SIM_YEARS: u32 = 5;

/// Billing intervals per year: a declared process step (monthly billing).
pub const BILLING_INTERVALS_PER_YEAR: u32 = 12;

/// Declared bound multipliers k_R, k_C, k_I: design parameters, not
/// derived from O-03.
pub const BOUND_MULTIPLIER_RESIDENTIAL: u64 = 3;
pub const BOUND_MULTIPLIER_COMMERCIAL: u64 = 5;
pub const BOUND_MULTIPLIER_INDUSTRIAL: u64 = 10;

/// Synthetic per-account interval mean, kWh, allocated from O-03 by
/// account count (not observed per-class consumption).
pub const SYNTHETIC_INTERVAL_MEAN_KWH: u64 = 657;

/// A cumulative register cannot decrease, so every lower bound is 0 kWh.
pub const DELTA_BOUND_RESIDENTIAL_LOW_KWH: u64 = 0;
pub const DELTA_BOUND_RESIDENTIAL_HIGH_KWH: u64 = BOUND_MULTIPLIER_RESIDENTIAL
    * SYNTHETIC_INTERVAL_MEAN_KWH;

pub const DELTA_BOUND_COMMERCIAL_LOW_KWH: u64 = 0;
pub const DELTA_BOUND_COMMERCIAL_HIGH_KWH: u64 = BOUND_MULTIPLIER_COMMERCIAL
    * SYNTHETIC_INTERVAL_MEAN_KWH;

pub const DELTA_BOUND_INDUSTRIAL_LOW_KWH: u64 = 0;
pub const DELTA_BOUND_INDUSTRIAL_HIGH_KWH: u64 = BOUND_MULTIPLIER_INDUSTRIAL
    * SYNTHETIC_INTERVAL_MEAN_KWH;

} // verus!
