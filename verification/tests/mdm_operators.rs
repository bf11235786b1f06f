use abr_lompoc_utility::mdm_sim::operators::{
    classify_delta, delta_is_declared, AnomalyType, MeterClass,
};

/// A read as (meter id, interval index, cumulative register value in kWh).
type Read = (u32, u32, f64);

fn read(meter_id: u32, interval_k: u32, value_kwh: f64) -> Read {
    (meter_id, interval_k, value_kwh)
}

/// Δ across one declared adjacency relation, None where Δ is not declared.
fn delta(current: Read, prior: Read) -> Option<f64> {
    if delta_is_declared(current.0, current.1, prior.0, prior.1) {
        Some(current.2 - prior.2)
    } else {
        None
    }
}

/// The anomaly verdict for Δ between two reads of a meter of `class`.
fn anomaly(class: MeterClass, current: Read, prior: Read) -> Option<AnomalyType> {
    let d = delta(current, prior).unwrap();
    let (low, high) = class.delta_bounds();
    classify_delta(d < low as f64, d == 0.0, d > high as f64)
}

#[test]
fn delta_computes_correct_change() {
    let prior = read(1, 0, 1000.0);
    let current = read(1, 1, 1115.0);
    assert_eq!(delta(current, prior), Some(115.0));
}

#[test]
fn delta_returns_none_for_non_adjacent_intervals() {
    let prior = read(1, 0, 1000.0);
    let current = read(1, 2, 1115.0);
    assert_eq!(delta(current, prior), None);
}

#[test]
fn delta_returns_none_across_meter_boundaries() {
    let prior = read(1, 0, 1000.0);
    let current = read(2, 1, 1115.0);
    assert_eq!(delta(current, prior), None);
}

#[test]
fn delta_not_declared_backwards() {
    assert!(!delta_is_declared(1, 0, 1, 1));
    assert!(!delta_is_declared(1, 5, 1, 5));
    assert!(delta_is_declared(7, u32::MAX, 7, u32::MAX - 1));
    assert!(!delta_is_declared(7, 0, 8, u32::MAX));
}

#[test]
fn delta_not_declared_after_last_interval() {
    assert!(!delta_is_declared(7, 0, 7, u32::MAX));
    assert!(!delta_is_declared(7, u32::MAX, 7, u32::MAX));
    assert_eq!(delta(read(7, 0, 10.0), read(7, u32::MAX, 5.0)), None);
}

#[test]
fn reversed_reading_detected_by_declared_bound() {
    let prior = read(1, 0, 2000.0);
    let current = read(1, 1, 1800.0);
    assert_eq!(anomaly(MeterClass::Residential, current, prior), Some(AnomalyType::ReversedReading));
}

#[test]
fn zero_consumption_detected_by_declared_bound() {
    let prior = read(1, 0, 1000.0);
    let current = read(1, 1, 1000.0);
    assert_eq!(anomaly(MeterClass::Residential, current, prior), Some(AnomalyType::ZeroConsumption));
}

#[test]
fn spike_detected_beyond_declared_residential_bound() {
    let prior = read(1, 0, 1000.0);
    let current = read(1, 1, 3500.0);
    assert_eq!(anomaly(MeterClass::Residential, current, prior), Some(AnomalyType::ConsumptionSpike));
}

#[test]
fn normal_residential_read_produces_no_anomaly() {
    let prior = read(1, 0, 1000.0);
    let current = read(1, 1, 1500.0);
    assert_eq!(anomaly(MeterClass::Residential, current, prior), None);
}

#[test]
fn commercial_bound_higher_than_residential() {
    let (_, res_high) = MeterClass::Residential.delta_bounds();
    let (_, com_high) = MeterClass::Commercial.delta_bounds();
    assert!(com_high > res_high);
}

#[test]
fn industrial_bound_higher_than_commercial() {
    let (_, com_high) = MeterClass::Commercial.delta_bounds();
    let (_, ind_high) = MeterClass::Industrial.delta_bounds();
    assert!(ind_high > com_high);
}

#[test]
fn residential_spike_within_commercial_bound_is_not_anomaly_for_commercial() {
    let prior = read(1, 0, 1000.0);
    let current = read(1, 1, 3500.0);
    assert_eq!(anomaly(MeterClass::Commercial, current, prior), None,
        "2500 kWh delta is within commercial bounds and should not be flagged");
}

#[test]
fn delta_bounds_per_class() {
    assert_eq!(MeterClass::Residential.delta_bounds(), (0, 1_971));
    assert_eq!(MeterClass::Commercial.delta_bounds(), (0, 3_285));
    assert_eq!(MeterClass::Industrial.delta_bounds(), (0, 6_570));
}

#[test]
fn classification_precedence() {
    assert_eq!(classify_delta(true, true, true), Some(AnomalyType::ReversedReading));
    assert_eq!(classify_delta(false, true, true), Some(AnomalyType::ZeroConsumption));
    assert_eq!(classify_delta(false, false, true), Some(AnomalyType::ConsumptionSpike));
    assert_eq!(classify_delta(false, false, false), None);
}

#[test]
fn industrial_spike_only_beyond_6570() {
    assert_eq!(anomaly(MeterClass::Industrial, read(3, 1, 16_570.0), read(3, 0, 10_000.0)), None);
    assert_eq!(anomaly(MeterClass::Industrial, read(3, 1, 16_571.0), read(3, 0, 10_000.0)),
        Some(AnomalyType::ConsumptionSpike));
}
