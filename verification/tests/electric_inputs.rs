use abr_lompoc_utility::electric::observables::{
    disposition_retail_gap_mwh, CUSTOMERS_COMMERCIAL, CUSTOMERS_INDUSTRIAL,
    CUSTOMERS_RESIDENTIAL, CUSTOMERS_TOTAL, RETAIL_SALES_MWH, TOTAL_DISPOSITION_MWH,
};
use abr_lompoc_utility::electric::wholesale_cost::{
    retail_revenue_annual, ANNUAL_RETAIL_MWH, OFFPEAK_HOURS_PER_WEEKDAY,
    OFFPEAK_HOURS_PER_WEEKEND, OFFPEAK_HOURS_PER_YEAR, PEAK_HOURS_PER_WEEKDAY,
    PEAK_HOURS_PER_WEEKEND, PEAK_HOURS_PER_YEAR, RETAIL_FLAT_RATE_USD_PER_MWH,
    WHOLESALE_OFFPEAK_USD_PER_MWH, WHOLESALE_PEAK_USD_PER_MWH,
};

#[test]
fn load_profile_fractions_sum_to_one() {
    let fraction_residential = CUSTOMERS_RESIDENTIAL as f64 / CUSTOMERS_TOTAL as f64;
    let fraction_commercial = CUSTOMERS_COMMERCIAL as f64 / CUSTOMERS_TOTAL as f64;
    let fraction_industrial = CUSTOMERS_INDUSTRIAL as f64 / CUSTOMERS_TOTAL as f64;
    let sum = fraction_residential + fraction_commercial + fraction_industrial;
    assert!((sum - 1.0).abs() < 0.001,
        "Customer class fractions should sum to ~1.0, got {:.6}", sum);
}

#[test]
fn customer_classes_partition_accounts() {
    assert_eq!(CUSTOMERS_RESIDENTIAL + CUSTOMERS_COMMERCIAL + CUSTOMERS_INDUSTRIAL, CUSTOMERS_TOTAL);
}

#[test]
fn disposition_gap_is_positive() {
    assert!(disposition_retail_gap_mwh() as f64 > 0.0,
        "Disposition-retail gap should be positive");
}

#[test]
fn disposition_gap_is_4451_mwh() {
    assert_eq!(disposition_retail_gap_mwh(), 4_451);
    assert_eq!(disposition_retail_gap_mwh(), TOTAL_DISPOSITION_MWH - RETAIL_SALES_MWH);
}

#[test]
fn peak_price_exceeds_offpeak() {
    assert!(WHOLESALE_PEAK_USD_PER_MWH > WHOLESALE_OFFPEAK_USD_PER_MWH,
        "Peak wholesale price must exceed off-peak");
}

#[test]
fn peak_hours_plus_offpeak_equals_year() {
    assert_eq!(PEAK_HOURS_PER_YEAR + OFFPEAK_HOURS_PER_YEAR, 8_760,
        "Peak + off-peak hours must equal hours in a year");
}

#[test]
fn daily_windows_cover_the_day() {
    assert_eq!(PEAK_HOURS_PER_WEEKDAY + OFFPEAK_HOURS_PER_WEEKDAY, 24);
    assert_eq!(PEAK_HOURS_PER_WEEKEND + OFFPEAK_HOURS_PER_WEEKEND, 24);
}

#[test]
fn retail_rate_substantially_above_wholesale_peak() {
    assert!(RETAIL_FLAT_RATE_USD_PER_MWH as f64 > WHOLESALE_PEAK_USD_PER_MWH as f64 * 2.0,
        "Retail rate should be well above wholesale — Lompoc is a distribution utility");
}

#[test]
fn retail_revenue_is_throughput_times_flat_rate() {
    assert_eq!(retail_revenue_annual(), 37_782_940);
    assert_eq!(retail_revenue_annual(), ANNUAL_RETAIL_MWH * RETAIL_FLAT_RATE_USD_PER_MWH);
}
