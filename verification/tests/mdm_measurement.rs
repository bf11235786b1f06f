use abr_lompoc_utility::mdm_sim::measurement::{
    BILLING_INTERVALS_PER_YEAR, BOUND_MULTIPLIER_COMMERCIAL, BOUND_MULTIPLIER_INDUSTRIAL,
    BOUND_MULTIPLIER_RESIDENTIAL, DELTA_BOUND_COMMERCIAL_HIGH_KWH, DELTA_BOUND_COMMERCIAL_LOW_KWH,
    DELTA_BOUND_INDUSTRIAL_HIGH_KWH, DELTA_BOUND_INDUSTRIAL_LOW_KWH,
    DELTA_BOUND_RESIDENTIAL_HIGH_KWH, DELTA_BOUND_RESIDENTIAL_LOW_KWH, LABOR_COST_PER_HOUR,
    METERS_ELECTRIC, METERS_TOTAL, METERS_WATER, SIM_YEARS, SYNTHETIC_INTERVAL_MEAN_KWH,
    VENDOR_MDM_COST_HIGH_PER_METER, VENDOR_MDM_COST_LOW_PER_METER,
};

#[test]
fn total_meters_is_sum_of_electric_and_water() {
    assert_eq!(METERS_TOTAL, METERS_ELECTRIC + METERS_WATER);
}

#[test]
fn total_meters_is_32516() {
    assert_eq!(METERS_TOTAL, 32_516);
}

#[test]
fn vendor_cost_high_exceeds_low() {
    assert!(VENDOR_MDM_COST_HIGH_PER_METER > VENDOR_MDM_COST_LOW_PER_METER);
}

#[test]
fn labor_cost_positive() {
    assert!(LABOR_COST_PER_HOUR as f64 > 0.0);
}

#[test]
fn sim_years_positive() {
    assert!(SIM_YEARS > 0);
}

#[test]
fn billing_is_monthly() {
    assert_eq!(BILLING_INTERVALS_PER_YEAR, 12);
}

#[test]
fn delta_bounds_lower_is_zero_for_all_classes() {
    assert_eq!(DELTA_BOUND_RESIDENTIAL_LOW_KWH as f64, 0.0);
    assert_eq!(DELTA_BOUND_COMMERCIAL_LOW_KWH as f64, 0.0);
    assert_eq!(DELTA_BOUND_INDUSTRIAL_LOW_KWH as f64, 0.0);
}

#[test]
fn delta_bounds_high_increases_with_class_variability() {
    assert!(DELTA_BOUND_COMMERCIAL_HIGH_KWH > DELTA_BOUND_RESIDENTIAL_HIGH_KWH);
    assert!(DELTA_BOUND_INDUSTRIAL_HIGH_KWH > DELTA_BOUND_COMMERCIAL_HIGH_KWH);
}

#[test]
fn delta_bounds_are_product_of_k_and_synthetic_mean() {
    assert!((DELTA_BOUND_RESIDENTIAL_HIGH_KWH as f64
        - BOUND_MULTIPLIER_RESIDENTIAL as f64 * SYNTHETIC_INTERVAL_MEAN_KWH as f64).abs() < 1.0,
        "Residential bound must equal k_R × synthetic mean");
    assert!((DELTA_BOUND_COMMERCIAL_HIGH_KWH as f64
        - BOUND_MULTIPLIER_COMMERCIAL as f64 * SYNTHETIC_INTERVAL_MEAN_KWH as f64).abs() < 1.0,
        "Commercial bound must equal k_C × synthetic mean");
    assert!((DELTA_BOUND_INDUSTRIAL_HIGH_KWH as f64
        - BOUND_MULTIPLIER_INDUSTRIAL as f64 * SYNTHETIC_INTERVAL_MEAN_KWH as f64).abs() < 1.0,
        "Industrial bound must equal k_I × synthetic mean");
}

#[test]
fn delta_bound_values_in_kwh() {
    assert_eq!(DELTA_BOUND_RESIDENTIAL_HIGH_KWH, 1_971);
    assert_eq!(DELTA_BOUND_COMMERCIAL_HIGH_KWH, 3_285);
    assert_eq!(DELTA_BOUND_INDUSTRIAL_HIGH_KWH, 6_570);
}

#[test]
fn bound_multipliers_increase_with_class_variability() {
    assert!(BOUND_MULTIPLIER_COMMERCIAL > BOUND_MULTIPLIER_RESIDENTIAL,
        "k_C must exceed k_R — commercial loads more variable");
    assert!(BOUND_MULTIPLIER_INDUSTRIAL > BOUND_MULTIPLIER_COMMERCIAL,
        "k_I must exceed k_C — industrial loads highly variable");
}
