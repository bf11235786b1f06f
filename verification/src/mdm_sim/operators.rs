//! The relational operators acting at locus A.
//!
//! A read's value is a cumulative register reading: the total kWh
//! registered since installation. Interval consumption is Δ(rₖ) = rₖ − rₖ₋₁:
//!   Δ < lower bound  → the register decreased (ReversedReading)
//!   Δ = 0            → zero consumption in the interval (ZeroConsumption)
//!   Δ > upper bound  → consumption beyond the declared class envelope
//! Classification uses only the declared class bounds from M.

use vstd::prelude::*;
use crate::mdm_sim::measurement::{
    BOUND_MULTIPLIER_COMMERCIAL, BOUND_MULTIPLIER_INDUSTRIAL, BOUND_MULTIPLIER_RESIDENTIAL,
    DELTA_BOUND_COMMERCIAL_HIGH_KWH, DELTA_BOUND_COMMERCIAL_LOW_KWH,
    DELTA_BOUND_INDUSTRIAL_HIGH_KWH, DELTA_BOUND_INDUSTRIAL_LOW_KWH,
    DELTA_BOUND_RESIDENTIAL_HIGH_KWH, DELTA_BOUND_RESIDENTIAL_LOW_KWH,
    SYNTHETIC_INTERVAL_MEAN_KWH,
};

verus! {

/// Meter class: determines which declared Δ bounds apply at locus A.
#[derive(Debug, Clone, PartialEq, Eq, Structural)]
pub enum MeterClass {
    Residential,
    Commercial,
    Industrial,
}

/// The declared bound multiplier k_c of a class.
pub open spec fn bound_multiplier(class: MeterClass) -> int {
    match class {
        MeterClass::Residential => BOUND_MULTIPLIER_RESIDENTIAL as int,
        MeterClass::Commercial => BOUND_MULTIPLIER_COMMERCIAL as int,
        MeterClass::Industrial => BOUND_MULTIPLIER_INDUSTRIAL as int,
    }
}

impl MeterClass {
    /// Declared Δ bounds for this class, in kWh: (lower, upper), where the
    /// lower bound is 0 and the upper bound is k_c × the synthetic interval mean.
    pub fn delta_bounds(&self) -> (r: (u64, u64))
        ensures
            r.0 == 0,
            r.1 == bound_multiplier(*self) * SYNTHETIC_INTERVAL_MEAN_KWH,
    {
        match self {
            MeterClass::Residential => (
                DELTA_BOUND_RESIDENTIAL_LOW_KWH,
                DELTA_BOUND_RESIDENTIAL_HIGH_KWH,
            ),
            MeterClass::Commercial => (DELTA_BOUND_COMMERCIAL_LOW_KWH, DELTA_BOUND_COMMERCIAL_HIGH_KWH),
            MeterClass::Industrial => (DELTA_BOUND_INDUSTRIAL_LOW_KWH, DELTA_BOUND_INDUSTRIAL_HIGH_KWH),
        }
    }
}

/// The upper Δ bound grows with the declared variability of the class:
/// residential < commercial < industrial.
pub proof fn lemma_bounds_increase_with_variability()
    ensures
        bound_multiplier(MeterClass::Residential) * SYNTHETIC_INTERVAL_MEAN_KWH
            < bound_multiplier(MeterClass::Commercial) * SYNTHETIC_INTERVAL_MEAN_KWH,
        bound_multiplier(MeterClass::Commercial) * SYNTHETIC_INTERVAL_MEAN_KWH
            < bound_multiplier(MeterClass::Industrial) * SYNTHETIC_INTERVAL_MEAN_KWH,
{
}

/// Declared anomaly types: what Δ can surface at locus A.
#[derive(Debug, Clone, PartialEq, Eq, Structural)]
pub enum AnomalyType {
    /// Δ < 0: the cumulative register decreased (directional violation).
    ReversedReading,
    /// Δ = 0: zero consumption during the interval on an active meter.
    ZeroConsumption,
    /// Δ above the declared class upper bound.
    ConsumptionSpike,
}

/// Δ is declared between two reads exactly when they come from the same
/// meter and the current read is the interval right after the prior one;
/// Δ is never taken across meter boundaries or across a gap, and a prior
/// read at the last representable interval has no adjacent read.
pub fn delta_is_declared(
    current_meter: u32,
    current_interval: u32,
    prior_meter: u32,
    prior_interval: u32,
) -> (r: bool)
    ensures
        r == (current_meter == prior_meter && current_interval as int == prior_interval as int + 1),
{
    current_meter == prior_meter && prior_interval < u32::MAX && current_interval == prior_interval
        + 1
}

/// The verdict for Δ given its comparisons with the class bounds.
pub open spec fn anomaly_verdict(below_low: bool, is_zero: bool, above_high: bool) -> Option<
    AnomalyType,
> {
    if below_low {
        Some(AnomalyType::ReversedReading)
    } else if is_zero {
        Some(AnomalyType::ZeroConsumption)
    } else if above_high {
        Some(AnomalyType::ConsumptionSpike)
    } else {
        None
    }
}

/// With the class bounds (0, k_c × mean), the verdict on a Δ of `d` kWh is
/// a reversed reading exactly when Δ < 0, zero consumption exactly when
/// Δ = 0, a spike exactly when Δ exceeds the upper bound, and no anomaly
/// exactly when 0 < Δ ≤ upper bound.
pub proof fn lemma_verdict_partitions_delta(class: MeterClass, d: int)
    ensures
        ({
            let high = bound_multiplier(class) * SYNTHETIC_INTERVAL_MEAN_KWH;
            let a = anomaly_verdict(d < 0, d == 0, d > high);
            &&& (a == Some(AnomalyType::ReversedReading) <==> d < 0)
            &&& (a == Some(AnomalyType::ZeroConsumption) <==> d == 0)
            &&& (a == Some(AnomalyType::ConsumptionSpike) <==> d > high)
            &&& (a == None::<AnomalyType> <==> 0 < d <= high)
        }),
{
}

/// The anomaly verdict at locus A, given how Δ compares with the class
/// bounds: below the lower bound is a reversed reading; otherwise exactly
/// zero is zero consumption; otherwise above the upper bound is a spike;
/// anything else is normal.
pub fn classify_delta(below_low: bool, is_zero: bool, above_high: bool) -> (r: Option<AnomalyType>)
    ensures
        r == anomaly_verdict(below_low, is_zero, above_high),
{
    if below_low {
        Some(AnomalyType::ReversedReading)
    } else if is_zero {
        Some(AnomalyType::ZeroConsumption)
    } else if above_high {
        Some(AnomalyType::ConsumptionSpike)
    } else {
        None
    }
}

} // verus!
